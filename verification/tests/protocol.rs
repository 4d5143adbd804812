use d2b_clip_picker::protocol::{
    client_hello, find_line, opening, picker_line, AttributionQuality, CapabilityPreflight, ClipdFrame, Line, Opening,
    PickerFrame, PresentationIsolationPosture, PresentationProviderKind, RealmDisplayMetadata,
    RealmKind, RequestError, MAX_PICKER_FRAME_BYTES,
};
use d2b_clip_picker::render::render_sample_request;

#[test]
fn the_picker_offers_both_versions() {
    match client_hello() {
        PickerFrame::ClientHello { min_version, max_version, picker_version } => {
            assert_eq!((min_version, max_version), (1, 2));
            assert_eq!(picker_version, "0.2.0");
        }
        _ => panic!("a connection starts with a hello"),
    }
}

#[test]
fn answers_echo_the_request() {
    let request = render_sample_request();
    match request.select_frame("entry") {
        PickerFrame::Select { selected_protocol_version, request_id, entry_id } => {
            assert_eq!(selected_protocol_version, 2);
            assert_eq!(request_id, "synthetic-render-request");
            assert_eq!(entry_id, "entry");
        }
        _ => panic!("a selection selects"),
    }
    match request.cancel_frame() {
        PickerFrame::Cancel { selected_protocol_version, request_id } => {
            assert_eq!(selected_protocol_version, 2);
            assert_eq!(request_id, "synthetic-render-request");
        }
        _ => panic!("a cancellation cancels"),
    }
}

#[test]
fn versions_outside_the_offer_are_refused() {
    for version in [0, 3, u32::MAX] {
        let mut request = render_sample_request();
        request.selected_protocol_version = version;
        assert_eq!(request.validate(), Err(RequestError::UnsupportedVersion));
    }
    let mut request = render_sample_request();
    request.selected_protocol_version = 1;
    assert_eq!(request.validate(), Ok(()));
}

#[test]
fn everything_in_a_request_is_bounded() {
    let mut request = render_sample_request();
    request.request_id = "x".repeat(256);
    assert_eq!(request.validate(), Ok(()));
    request.request_id = "x".repeat(257);
    assert_eq!(request.validate(), Err(RequestError::OutOfBounds));

    let mut request = render_sample_request();
    request.destination.title = Some("é".repeat(512));
    assert_eq!(request.validate(), Ok(()));
    request.destination.title = Some("é".repeat(513));
    assert_eq!(request.validate(), Err(RequestError::OutOfBounds));

    let mut request = render_sample_request();
    request.candidates[0].preview_text = Some("nul \0".to_owned());
    assert_eq!(request.validate(), Err(RequestError::OutOfBounds));

    let mut request = render_sample_request();
    request.candidates[0].preview_text = Some("x".repeat(2049));
    assert_eq!(request.validate(), Err(RequestError::OutOfBounds));

    let mut request = render_sample_request();
    request.candidates[0].thumbnail_png_base64 = Some("A".repeat(349_529));
    assert_eq!(request.validate(), Err(RequestError::OutOfBounds));

    let mut request = render_sample_request();
    request.requested_mime_type = "x".repeat(257);
    assert_eq!(request.validate(), Err(RequestError::OutOfBounds));

    let mut request = render_sample_request();
    while request.candidates.len() < 64 {
        request.candidates.push(request.candidates[0].clone());
    }
    assert_eq!(request.validate(), Ok(()));
    request.candidates.push(request.candidates[0].clone());
    assert_eq!(request.validate(), Err(RequestError::OutOfBounds));

    let mut request = render_sample_request();
    for number in 0..61 {
        let metadata = RealmDisplayMetadata { color: None };
        request.realm_display.insert(format!("realm-{number}"), metadata);
    }
    assert_eq!(request.validate(), Err(RequestError::OutOfBounds));

    let mut request = render_sample_request();
    let hints = request.placement_hints.as_mut().expect("sample hints");
    hints.pointer_x = Some(-1_000_000);
    assert_eq!(request.validate(), Ok(()));
    let hints = request.placement_hints.as_mut().expect("sample hints");
    hints.pointer_x = Some(-1_000_001);
    assert_eq!(request.validate(), Err(RequestError::OutOfBounds));

    let mut request = render_sample_request();
    let hints = request.placement_hints.as_mut().expect("sample hints");
    hints.overlay_width = Some(0);
    assert_eq!(request.validate(), Err(RequestError::OutOfBounds));

    let mut request = render_sample_request();
    request.destination.capability_preflight = Some(CapabilityPreflight {
        lists: vec![vec!["token".to_owned(); 64]],
    });
    assert_eq!(request.validate(), Ok(()));
    request.destination.capability_preflight = Some(CapabilityPreflight {
        lists: vec![Vec::new(), vec!["token".to_owned(); 65]],
    });
    assert_eq!(request.validate(), Err(RequestError::OutOfBounds));
}

#[test]
fn the_first_frame_decides() {
    let request = Box::new(render_sample_request());
    assert!(matches!(
        opening(ClipdFrame::OpenRequest(request)),
        Opening::Show(_)
    ));
    let mut request = Box::new(render_sample_request());
    request.selected_protocol_version = 7;
    assert!(matches!(
        opening(ClipdFrame::OpenRequest(request)),
        Opening::Unacceptable(RequestError::UnsupportedVersion)
    ));
    let frame = ClipdFrame::Close {
        selected_protocol_version: Some(1),
        request_id: Some("req".to_owned()),
        code: Some("request_expired".to_owned()),
    };
    assert!(matches!(opening(frame), Opening::Quit));
    let frame = ClipdFrame::Close {
        selected_protocol_version: None,
        request_id: None,
        code: None,
    };
    assert!(matches!(opening(frame), Opening::Quit));
    let frame = ClipdFrame::Error {
        selected_protocol_version: Some(1),
        request_id: None,
        code: "policy_denied".to_owned(),
    };
    match opening(frame) {
        Opening::Refused(message) => {
            assert_eq!(message, "clipd rejected picker request: policy_denied");
        }
        _ => panic!("an error is a refusal"),
    }
}

#[test]
fn labels_on_the_wire_are_closed() {
    assert_eq!(RealmKind::from_label("unsafe_local"), Some(RealmKind::UnsafeLocal));
    assert_eq!(RealmKind::from_label("unsafe-local"), None);
    assert_eq!(
        PresentationProviderKind::from_label("qemu-media"),
        Some(PresentationProviderKind::QemuMedia)
    );
    assert_eq!(PresentationProviderKind::from_label("cloud"), None);
    assert_eq!(
        PresentationIsolationPosture::from_label("virtual-machine"),
        Some(PresentationIsolationPosture::VirtualMachine)
    );
    assert_eq!(PresentationIsolationPosture::from_label(""), None);
    assert_eq!(
        AttributionQuality::from_label("focused_window_guess"),
        Some(AttributionQuality::FocusedWindowGuess)
    );
    assert_eq!(AttributionQuality::from_label("guess"), None);
    for kind in [
        PresentationProviderKind::LocalVm,
        PresentationProviderKind::QemuMedia,
        PresentationProviderKind::ProviderManaged,
        PresentationProviderKind::UnsafeLocal,
        PresentationProviderKind::Unknown,
    ] {
        assert_eq!(PresentationProviderKind::from_label(kind.label()), Some(kind));
    }
}

#[test]
fn lines_end_at_the_first_line_feed() {
    assert_eq!(find_line(b"{}\n{}\n", 10), Line::Complete(3));
    assert_eq!(find_line(b"{}", 10), Line::Incomplete);
    assert_eq!(find_line(b"{}\n", 2), Line::TooLong);
    assert_eq!(find_line(b"{}", 2), Line::TooLong);
    assert_eq!(find_line(b"", 2), Line::Incomplete);
}

#[test]
fn written_lines_are_read_back() {
    let line = picker_line("{\"type\":\"cancel\"}".to_owned()).expect("short frame");
    assert_eq!(line, "{\"type\":\"cancel\"}\n");
    let mut bytes = line.clone().into_bytes();
    bytes.extend_from_slice("more\n".as_bytes());
    assert_eq!(find_line(&bytes, 100), Line::Complete(line.len()));
}

#[test]
fn long_frames_are_not_sent() {
    assert!(picker_line("x".repeat(MAX_PICKER_FRAME_BYTES - 1)).is_some());
    assert!(picker_line("x".repeat(MAX_PICKER_FRAME_BYTES)).is_none());
}
