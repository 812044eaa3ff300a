use perceptia::defs::{DeviceKind, Illusion};
use perceptia::udev::{
    determine_device_kind, is_event_device, is_output_device, same_text, starts_with, DeviceMonitor,
    DeviceNode, Udev,
};

fn names(names: &[&str]) -> Vec<String> {
    names.iter().map(|name| name.to_string()).collect()
}

fn node(sysname: &str, exists: bool, properties: &[&str]) -> DeviceNode {
    DeviceNode {
        devnode: format!("/dev/{}", sysname),
        sysname: sysname.to_string(),
        exists,
        properties: names(properties),
    }
}

#[test]
fn prefix_check_agrees_with_the_standard_library() {
    let cases =
        [("event3", "event"), ("even", "event"), ("", "event"), ("event", ""), ("card0", "event"), ("żółw", "żó")];
    for (text, prefix) in cases {
        assert_eq!(starts_with(text, prefix), text.starts_with(prefix));
    }
    assert!(same_text("ID_INPUT_MOUSE", "ID_INPUT_MOUSE"));
    assert!(!same_text("ID_INPUT_MOUSE", "ID_INPUT_MOUS"));
    assert!(!same_text("ID_INPUT_MOUS", "ID_INPUT_MOUSE"));
    assert!(same_text("", ""));
}

#[test]
fn event_devices_exist_and_are_named_event() {
    assert!(is_event_device(true, "event0"));
    assert!(is_event_device(true, "event17"));
    assert!(!is_event_device(false, "event0"));
    assert!(!is_event_device(true, "mouse0"));
    assert!(!is_event_device(true, "even"));
}

#[test]
fn output_devices_exist_and_are_named_card() {
    assert!(is_output_device(true, "card0"));
    assert!(!is_output_device(false, "card0"));
    assert!(!is_output_device(true, "renderD128"));
    assert!(!is_output_device(true, "controlD64"));
}

#[test]
fn device_kind_comes_from_the_first_telling_property() {
    assert_eq!(determine_device_kind(&names(&["ID_INPUT_MOUSE"])), DeviceKind::Mouse);
    assert_eq!(determine_device_kind(&names(&["ID_INPUT_TOUCHPAD"])), DeviceKind::Touchpad);
    assert_eq!(determine_device_kind(&names(&["ID_INPUT_KEYBOARD"])), DeviceKind::Keyboard);
    assert_eq!(determine_device_kind(&names(&["ID_INPUT", "DEVNAME"])), DeviceKind::Unknown);
    assert_eq!(determine_device_kind(&names(&[])), DeviceKind::Unknown);
    assert_eq!(
        determine_device_kind(&names(&["DEVNAME", "ID_INPUT_KEYBOARD", "ID_INPUT_MOUSE"])),
        DeviceKind::Keyboard
    );
    assert_eq!(
        determine_device_kind(&names(&["ID_INPUT_TOUCHPAD", "ID_INPUT_MOUSE"])),
        DeviceKind::Touchpad
    );
}

#[test]
fn event_devices_of_known_kind_are_reported() {
    let found = vec![
        node("event0", true, &["ID_INPUT", "ID_INPUT_KEYBOARD"]),
        node("event1", true, &["ID_INPUT"]),
        node("mouse0", true, &["ID_INPUT_MOUSE"]),
        node("event2", false, &["ID_INPUT_MOUSE"]),
        node("event3", true, &["ID_INPUT_MOUSE"]),
    ];
    assert_eq!(
        Udev::new().iterate_event_devices(&found),
        vec![Some(DeviceKind::Keyboard), None, None, None, Some(DeviceKind::Mouse)]
    );
    assert_eq!(found[0].devnode, "/dev/event0");
}

#[test]
fn drm_devices_are_the_cards() {
    let found = vec![
        node("card0", true, &[]),
        node("renderD128", true, &[]),
        node("card1", false, &[]),
        node("card1", true, &[]),
    ];
    assert_eq!(Udev::new().iterate_drm_devices(&found), vec![true, false, false, true]);
}

#[test]
fn device_monitor_needs_a_listening_socket() {
    let mut udev = Udev::new();
    match udev.start_device_monitor(None) {
        Err(Illusion::General(text)) => assert_eq!(text, "Failed to create device monitor"),
        Ok(_) => panic!("a monitor without a socket"),
    }
    assert_eq!(udev.start_device_monitor(Some(14)), Ok(DeviceMonitor { fd: 14 }));
    // The monitor that listens is kept.
    assert_eq!(udev.start_device_monitor(Some(15)), Ok(DeviceMonitor { fd: 14 }));
    assert_eq!(udev.start_device_monitor(None), Ok(DeviceMonitor::new(14)));
}
