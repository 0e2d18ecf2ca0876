use kmsfb::drm::assemble_connector;
use kmsfb::drm::assemble_resources;
use kmsfb::drm::mode_name;
use kmsfb::drm::plan_crtc;
use kmsfb::drm::plan_dumb_buffer;
use kmsfb::drm::plan_framebuffer;
use kmsfb::drm::select_mode;
use kmsfb::drm::validate_dumb_buffer;
use kmsfb::drm::ConnectorCounts;
use kmsfb::drm::ConnectorInfo;
use kmsfb::drm::CrtcRequest;
use kmsfb::drm::DrmError;
use kmsfb::drm::DumbBufferReply;
use kmsfb::drm::DumbBufferRequest;
use kmsfb::drm::EncoderInfo;
use kmsfb::drm::ModeInfo;
use kmsfb::drm::ResourceCounts;

#[test]
fn stable_counts_round_trip() {
    let first = ResourceCounts { fbs: 1, crtcs: 2, connectors: 3, encoders: 2 };
    let second = first;
    let res = assemble_resources(
        &first,
        &second,
        vec![100],
        vec![200, 201],
        vec![300, 301, 302],
        vec![400, 401],
    )
    .unwrap();
    assert_eq!(res.fb_ids, vec![100]);
    assert_eq!(res.crtc_ids, vec![200, 201]);
    assert_eq!(res.connector_ids, vec![300, 301, 302]);
    assert_eq!(res.encoder_ids, vec![400, 401]);
}

#[test]
fn changed_counts_are_rejected() {
    let first = ResourceCounts { fbs: 0, crtcs: 1, connectors: 1, encoders: 1 };
    let second = ResourceCounts { fbs: 0, crtcs: 1, connectors: 2, encoders: 1 };
    let r = assemble_resources(&first, &second, vec![], vec![9], vec![8], vec![7]);
    match r {
        Err(e) => assert_eq!(e, DrmError::ResourceQueryFailed),
        Ok(_) => panic!("a count that moved between the two calls must be rejected"),
    }
}

#[test]
fn stable_connector_counts_round_trip() {
    let first = ConnectorCounts { modes: 2, props: 1, encoders: 1 };
    let second = first;
    let modes = vec![
        ModeInfo { hdisplay: 1920, vdisplay: 1080, vrefresh: 60 },
        ModeInfo { hdisplay: 1280, vdisplay: 720, vrefresh: 60 },
    ];
    let con: ConnectorInfo =
        assemble_connector(33, 44, &first, &second, modes, vec![5], vec![6], vec![44]).unwrap();
    assert_eq!(con.connector_id, 33);
    assert_eq!(con.encoder_id, 44);
    assert_eq!(con.modes.len(), 2);
    assert_eq!(con.modes[0], ModeInfo { hdisplay: 1920, vdisplay: 1080, vrefresh: 60 });
    assert_eq!(con.prop_ids, vec![5]);
    assert_eq!(con.prop_values, vec![6]);
    assert_eq!(con.encoder_ids, vec![44]);
}

#[test]
fn changed_connector_counts_are_rejected() {
    let first = ConnectorCounts { modes: 1, props: 0, encoders: 0 };
    let second = ConnectorCounts { modes: 3, props: 0, encoders: 0 };
    let modes = vec![ModeInfo { hdisplay: 800, vdisplay: 600, vrefresh: 60 }];
    let r = assemble_connector(1, 2, &first, &second, modes, vec![], vec![], vec![]);
    match r {
        Err(e) => assert_eq!(e, DrmError::ResourceQueryFailed),
        Ok(_) => panic!("a mode count that moved between the two calls must be rejected"),
    }
}

#[test]
fn first_mode_is_selected() {
    let modes = vec![
        ModeInfo { hdisplay: 1024, vdisplay: 768, vrefresh: 60 },
        ModeInfo { hdisplay: 1920, vdisplay: 1080, vrefresh: 144 },
    ];
    assert_eq!(select_mode(&modes), Some(ModeInfo { hdisplay: 1024, vdisplay: 768, vrefresh: 60 }));
    assert_eq!(select_mode(&vec![]), None);
}

#[test]
fn dumb_buffer_request_follows_the_mode() {
    let mode = ModeInfo { hdisplay: 1366, vdisplay: 768, vrefresh: 60 };
    let req = plan_dumb_buffer(&mode);
    assert_eq!(req, DumbBufferRequest { width: 1366, height: 768, bpp: 32, flags: 0 });
}

#[test]
fn usable_allocation_is_accepted() {
    let req = DumbBufferRequest { width: 640, height: 480, bpp: 32, flags: 0 };
    let reply = DumbBufferReply { handle: 5, pitch: 2560, size: 2560 * 480 };
    assert!(validate_dumb_buffer(&req, &reply).is_ok());
    let padded = DumbBufferReply { handle: 5, pitch: 2600, size: 2600 * 480 };
    assert!(validate_dumb_buffer(&req, &padded).is_ok());
}

#[test]
fn short_allocation_is_refused() {
    let req = DumbBufferRequest { width: 640, height: 480, bpp: 32, flags: 0 };
    let narrow = DumbBufferReply { handle: 5, pitch: 2559, size: 2560 * 480 };
    assert_eq!(validate_dumb_buffer(&req, &narrow), Err(DrmError::BufferAllocationFailed));
    let small = DumbBufferReply { handle: 5, pitch: 2560, size: 2560 * 480 - 1 };
    assert_eq!(validate_dumb_buffer(&req, &small), Err(DrmError::BufferAllocationFailed));
}

#[test]
fn framebuffer_request_carries_geometry_and_depth() {
    let req = DumbBufferRequest { width: 640, height: 480, bpp: 32, flags: 0 };
    let reply = DumbBufferReply { handle: 9, pitch: 2560, size: 2560 * 480 };
    let fb = plan_framebuffer(&req, &reply);
    assert_eq!(fb.width, 640);
    assert_eq!(fb.height, 480);
    assert_eq!(fb.bpp, 32);
    assert_eq!(fb.pitch, 2560);
    assert_eq!(fb.depth, 24);
    assert_eq!(fb.handle, 9);
}

#[test]
fn crtc_request_binds_connector_and_framebuffer() {
    let con = ConnectorInfo {
        connector_id: 31,
        encoder_id: 42,
        modes: vec![],
        prop_ids: vec![],
        prop_values: vec![],
        encoder_ids: vec![42],
    };
    let enc = EncoderInfo { encoder_id: 42, crtc_id: 7 };
    let mode = ModeInfo { hdisplay: 640, vdisplay: 480, vrefresh: 60 };
    let req = plan_crtc(&con, &enc, 55, &mode).unwrap();
    assert_eq!(
        req,
        CrtcRequest { crtc_id: 7, fb_id: 55, connector_id: 31, mode_valid: 1, mode }
    );
}

#[test]
fn foreign_encoder_record_is_refused() {
    let con = ConnectorInfo {
        connector_id: 31,
        encoder_id: 42,
        modes: vec![],
        prop_ids: vec![],
        prop_values: vec![],
        encoder_ids: vec![42],
    };
    let enc = EncoderInfo { encoder_id: 43, crtc_id: 7 };
    let mode = ModeInfo { hdisplay: 640, vdisplay: 480, vrefresh: 60 };
    match plan_crtc(&con, &enc, 55, &mode) {
        Err(e) => assert_eq!(e, DrmError::ActivationFailed),
        Ok(_) => panic!("an encoder record with another id must be refused"),
    }
}

#[test]
fn mode_name_stops_at_the_first_zero() {
    let raw = vec![b'1', b'0', b'2', b'4', b'x', b'7', b'6', b'8', 0, b'g', 0, b'x'];
    assert_eq!(mode_name(&raw), b"1024x768".to_vec());
}

#[test]
fn mode_name_without_terminator_is_whole() {
    let raw = vec![b'a', b'b', b'c'];
    assert_eq!(mode_name(&raw), b"abc".to_vec());
}

#[test]
fn mode_name_of_zeroes_is_empty() {
    assert_eq!(mode_name(&vec![0, 0, 0, 0]), Vec::<u8>::new());
    assert_eq!(mode_name(&vec![]), Vec::<u8>::new());
}
