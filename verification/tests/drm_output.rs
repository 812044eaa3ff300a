use perceptia::defs::{Area, DrmBundle, Illusion, Position, Size};
use perceptia::drm_output::{
    BufferObject, Connector, CrtcRequest, DrmOutput, FramebufferChoice, FramebufferRequest,
    ModeInfo, PageFlipRequest, FRAMEBUFFER_BPP, FRAMEBUFFER_DEPTH, INVALID_FRAMEBUFFER,
    PAGE_FLIP_EVENT, REFRESH_RATE,
};

fn bundle() -> DrmBundle {
    DrmBundle { fd: 5, path: "/dev/dri/card0".to_string(), crtc_id: 42, connector_id: 7 }
}

fn connector() -> Connector {
    Connector {
        modes: vec![
            ModeInfo { hdisplay: 1920, vdisplay: 1080 },
            ModeInfo { hdisplay: 1280, vdisplay: 720 },
        ],
        mm_width: 510,
        mm_height: 290,
    }
}

fn output() -> DrmOutput {
    DrmOutput::new(bundle(), 1, Some(connector())).unwrap()
}

fn buffer(handle: u32) -> BufferObject {
    BufferObject { width: 1920, height: 1080, stride: 7680, handle }
}

#[test]
fn output_takes_the_first_mode_of_the_connector() {
    let output = output();
    let info = output.get_info();
    assert_eq!(info.id, 1);
    assert_eq!(info.area, Area::new(Position::new(0, 0), Size::new(1920, 1080)));
    assert_eq!(info.physical_size, Size::new(510, 290));
    assert_eq!(info.refresh_rate, 60);
    assert_eq!(REFRESH_RATE, 60);
    assert_eq!(info.make, "");
    assert_eq!(info.model, "");
}

#[test]
fn output_without_connector_cannot_be_made() {
    match DrmOutput::new(bundle(), 1, None) {
        Err(Illusion::General(text)) => assert_eq!(text, "Failed to get mode for connector"),
        Ok(_) => panic!("an output was made without a connector"),
    }
}

#[test]
fn set_position_moves_the_output() {
    let mut output = output();
    output.set_position(Position::new(1920, 0));
    assert_eq!(output.get_info().area.pos, Position::new(1920, 0));
    assert_eq!(output.get_info().area.size, Size::new(1920, 1080));
}

#[test]
fn first_swap_creates_a_framebuffer_and_programs_the_crtc() {
    let mut output = output();
    assert_eq!(output.take_locked_buffer(), None);
    let step = output.swap_gbm_buffers(Some(buffer(9))).unwrap();
    assert_eq!(
        step,
        FramebufferChoice::Create(FramebufferRequest {
            fd: 5,
            width: 1920,
            height: 1080,
            depth: 24,
            bpp: 32,
            pitch: 7680,
            handle: 9,
        })
    );
    assert_eq!(FRAMEBUFFER_DEPTH, 24);
    assert_eq!(FRAMEBUFFER_BPP, 32);
    let request = output.framebuffer_added(Ok(77)).unwrap();
    assert_eq!(
        request,
        CrtcRequest {
            fd: 5,
            crtc_id: 42,
            fb: 77,
            x: 0,
            y: 0,
            connector_id: 7,
            mode: ModeInfo { hdisplay: 1920, vdisplay: 1080 },
        }
    );
    assert_eq!(output.crtc_set(Ok(())), Ok(77));
    assert_eq!(output.schedule_pageflip().fb, 77);
}

#[test]
fn framebuffer_is_created_once_for_each_buffer_object() {
    let mut output = output();
    output.take_locked_buffer();
    output.swap_gbm_buffers(Some(buffer(9))).unwrap();
    output.framebuffer_added(Ok(77)).unwrap();
    output.crtc_set(Ok(())).unwrap();

    assert_eq!(output.take_locked_buffer(), Some(buffer(9)));
    let step = output.swap_gbm_buffers(Some(buffer(10))).unwrap();
    assert!(matches!(step, FramebufferChoice::Create(_)));
    output.framebuffer_added(Ok(78)).unwrap();
    output.crtc_set(Ok(())).unwrap();

    // Both buffers are known now: swapping to either asks for no framebuffer.
    for (handle, fb) in [(9, 77), (10, 78), (9, 77), (10, 78)] {
        assert!(output.take_locked_buffer().is_some());
        assert_eq!(output.swap_gbm_buffers(Some(buffer(handle))), Ok(FramebufferChoice::Known(fb)));
        assert_eq!(output.schedule_pageflip().fb, fb);
    }
}

#[test]
fn exactly_one_buffer_is_locked_after_a_swap() {
    let mut output = output();
    assert_eq!(output.take_locked_buffer(), None);
    output.swap_gbm_buffers(Some(buffer(9))).unwrap();
    output.framebuffer_added(Ok(77)).unwrap();
    output.crtc_set(Ok(())).unwrap();
    assert_eq!(output.take_locked_buffer(), Some(buffer(9)));
    assert_eq!(output.take_locked_buffer(), None);
}

#[test]
fn swap_fails_when_the_front_buffer_cannot_be_locked() {
    let mut output = output();
    output.take_locked_buffer();
    match output.swap_gbm_buffers(None) {
        Err(Illusion::General(text)) => assert_eq!(text, "Failed to lock front buffer"),
        Ok(_) => panic!("a swap went on without a buffer"),
    }
    assert_eq!(output.schedule_pageflip().fb, INVALID_FRAMEBUFFER);
}

#[test]
fn swap_fails_when_the_framebuffer_cannot_be_created() {
    let mut output = output();
    output.take_locked_buffer();
    output.swap_gbm_buffers(Some(buffer(9))).unwrap();
    match output.framebuffer_added(Err(-22)) {
        Err(Illusion::General(text)) => assert_eq!(text, "Failed to create DRM framebuffer"),
        Ok(_) => panic!("a swap went on without a framebuffer"),
    }
    // Nothing was remembered: the next swap to the buffer asks for a framebuffer again.
    output.take_locked_buffer();
    assert!(matches!(
        output.swap_gbm_buffers(Some(buffer(9))),
        Ok(FramebufferChoice::Create(_))
    ));
}

#[test]
fn swap_fails_when_the_crtc_cannot_be_set() {
    let mut output = output();
    output.take_locked_buffer();
    output.swap_gbm_buffers(Some(buffer(9))).unwrap();
    output.framebuffer_added(Ok(77)).unwrap();
    match output.crtc_set(Err(-13)) {
        Err(Illusion::General(text)) => assert_eq!(text, "Failed to set CRTC"),
        Ok(_) => panic!("a swap ended well without a CRTC"),
    }
    assert_eq!(output.schedule_pageflip().fb, INVALID_FRAMEBUFFER);
    // The framebuffer was made, and is remembered: the next swap to the buffer asks for
    // no other.
    output.take_locked_buffer();
    assert_eq!(output.swap_gbm_buffers(Some(buffer(9))), Ok(FramebufferChoice::Known(77)));
    assert_eq!(output.schedule_pageflip().fb, 77);
}

#[test]
fn output_of_a_connector_without_modes_cannot_be_made() {
    let connector = Connector { modes: vec![], mm_width: 510, mm_height: 290 };
    match DrmOutput::new(bundle(), 1, Some(connector.clone())) {
        Err(Illusion::General(text)) => assert_eq!(text, "Failed to get mode for connector"),
        Ok(_) => panic!("an output was made without a mode"),
    }
    assert!(output().recreate(Some(connector)).is_err());
}

#[test]
fn output_add_then_pageflip() {
    // DrmBundle{crtc=42, connector=7}, output id 1: the page flip carries cookie 1.
    let mut output = DrmOutput::new(bundle(), 1, Some(connector())).unwrap();
    output.take_locked_buffer();
    output.swap_gbm_buffers(Some(buffer(9))).unwrap();
    output.framebuffer_added(Ok(77)).unwrap();
    output.crtc_set(Ok(())).unwrap();
    let request = output.schedule_pageflip();
    assert_eq!(
        request,
        PageFlipRequest { fd: 5, crtc_id: 42, fb: 77, flags: PAGE_FLIP_EVENT, user_data: 1 }
    );
    assert_eq!(PAGE_FLIP_EVENT, 1);
    assert_eq!(output.pageflip_scheduled(Ok(())), Ok(()));
}

#[test]
fn refused_page_flip_is_reported_with_crtc_connector_and_error() {
    let output = output();
    match output.pageflip_scheduled(Err(-16)) {
        Err(Illusion::General(text)) => {
            assert_eq!(text, "Failed to page flip (crtc_id: 42, connector_id: 7, error: -16)")
        }
        Ok(_) => panic!("a refused page flip was taken for a success"),
    }
}

#[test]
fn recreated_output_keeps_identifier_and_device_and_forgets_framebuffers() {
    let mut output = output();
    output.take_locked_buffer();
    output.swap_gbm_buffers(Some(buffer(9))).unwrap();
    output.framebuffer_added(Ok(77)).unwrap();
    output.crtc_set(Ok(())).unwrap();
    let mut again = output.recreate(Some(connector())).unwrap();
    assert_eq!(again.get_info().id, 1);
    let request = again.schedule_pageflip();
    assert_eq!(request.crtc_id, 42);
    assert_eq!(request.fd, 5);
    assert_eq!(request.fb, INVALID_FRAMEBUFFER);
    assert_eq!(again.take_locked_buffer(), None);
    assert!(matches!(again.swap_gbm_buffers(Some(buffer(9))), Ok(FramebufferChoice::Create(_))));
    assert!(output.recreate(None).is_err());
}

#[test]
fn bundle_duplicate_is_the_same_bundle() {
    let bundle = bundle();
    assert_eq!(bundle.duplicate(), bundle);
}
