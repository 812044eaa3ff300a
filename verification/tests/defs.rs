use perceptia::defs::{
    display_id, Area, Milliseconds, ObjectId, Position, Size, SurfaceId,
};
use perceptia::global::{get_output_global, Global, Interface};
use perceptia::defs::OutputInfo;
use perceptia::mediator::Mediator;

#[test]
fn display_object_has_identifier_one() {
    assert_eq!(display_id(), ObjectId::new(1));
    assert_eq!(display_id().get_value(), 1);
}

#[test]
fn zero_names_no_surface() {
    assert!(!SurfaceId::invalid().is_valid());
    assert_eq!(SurfaceId::invalid(), SurfaceId::new(0));
    assert!(SurfaceId::new(1).is_valid());
}

#[test]
fn milliseconds_truncate_to_the_low_32_bits() {
    assert_eq!(Milliseconds::new(5).truncated(), 5);
    assert_eq!(Milliseconds::new(0xffff_ffff).truncated(), 0xffff_ffff);
    assert_eq!(Milliseconds::new(0x1_0000_0000).truncated(), 0);
    assert_eq!(Milliseconds::new(0x2_0000_0003).truncated(), 3);
    assert_eq!(Milliseconds::new(9).get_value(), 9);
}

#[test]
fn positions_sizes_and_areas_keep_their_parts() {
    let area = Area::new(Position::new(-1, 2), Size::new(3, 4));
    assert_eq!(area.pos, Position { x: -1, y: 2 });
    assert_eq!(area.size, Size { width: 3, height: 4 });
    assert_eq!(Position::origin(), Position::new(0, 0));
}

#[test]
fn output_global_names_the_output() {
    let info = OutputInfo {
        id: 3,
        area: Area::new(Position::origin(), Size::new(1, 1)),
        physical_size: Size::new(1, 1),
        refresh_rate: 60,
        make: String::new(),
        model: String::new(),
    };
    assert_eq!(get_output_global(&info), Global { name: 0, interface: Interface::Output(3) });
    assert_eq!(Global::new(Interface::Seat), Global { name: 0, interface: Interface::Seat });
}

#[test]
fn mediator_relates_surfaces_to_clients() {
    let mut mediator = Mediator::new();
    assert_eq!(mediator.get_client_for_sid(SurfaceId::new(1)), None);
    mediator.relate_sid_to_client(SurfaceId::new(1), 7);
    mediator.relate_sid_to_client(SurfaceId::new(2), 8);
    mediator.relate_sid_to_client(SurfaceId::new(1), 9);
    assert_eq!(mediator.get_client_for_sid(SurfaceId::new(1)), Some(9));
    assert_eq!(mediator.get_client_for_sid(SurfaceId::new(2)), Some(8));
    mediator.remove(SurfaceId::new(1));
    mediator.remove(SurfaceId::new(5));
    assert_eq!(mediator.get_client_for_sid(SurfaceId::new(1)), None);
    assert_eq!(mediator.get_client_for_sid(SurfaceId::new(2)), Some(8));
}

#[test]
fn mediator_keeps_device_and_screenshooter() {
    let mut mediator = Mediator::new();
    assert_eq!(mediator.get_drm_fd(), None);
    assert_eq!(mediator.get_screenshooter(), None);
    mediator.set_drm_device(5, "/dev/dri/card0".to_string());
    mediator.set_screenshooter(3);
    assert_eq!(mediator.get_drm_fd(), Some(5));
    assert_eq!(mediator.get_screenshooter(), Some(3));
}
