use d2b_clip_picker::presentation::{
    app_source_label, candidate_presentation, destination_label, destination_presentation,
    format_timestamp, preview_text, requested_label, source_label, UNSAFE_LOCAL_WARNING,
};
use d2b_clip_picker::protocol::{
    display_content_kind, sanitize_preview, AttributionQuality, Candidate, DestinationMetadata,
    OpenRequest, PresentationIsolationPosture, PresentationProviderKind, RealmDisplay, RealmKind,
};

fn candidate() -> Candidate {
    Candidate {
        entry_id: "entry".to_owned(),
        source_realm: "dev".to_owned(),
        source_realm_kind: RealmKind::Vm,
        source_canonical_target: None,
        source_provider_kind: PresentationProviderKind::LocalVm,
        source_isolation_posture: PresentationIsolationPosture::VirtualMachine,
        source_app: None,
        source_app_id: None,
        source_attribution: AttributionQuality::ExactClient,
        preview_text: None,
        content_type: "text/plain".to_owned(),
        timestamp_unix_ms: None,
        thumbnail_png_base64: None,
        byte_count: None,
        confirmation_required: false,
        capability_preflight: None,
    }
}

#[test]
fn source_label_keeps_realm_identity_pure() {
    assert_eq!(source_label(&candidate()), "dev");
}

#[test]
fn unsafe_local_view_model_shows_provider_posture_realm_and_warning() {
    let destination = DestinationMetadata {
        realm: "host-tools".to_owned(),
        realm_kind: RealmKind::UnsafeLocal,
        canonical_target: None,
        provider_kind: PresentationProviderKind::UnsafeLocal,
        isolation_posture: PresentationIsolationPosture::UnsafeLocal,
        application: Some("Browser".to_owned()),
        app_id: Some("org.example.Browser".to_owned()),
        title: None,
        workspace: None,
        output: None,
        attribution: Some(AttributionQuality::ExactClient),
        capability_preflight: None,
    };

    let presentation = destination_presentation(&destination);
    assert_eq!(
        presentation.provenance_label(),
        "Realm host-tools · provider unsafe-local · isolation unsafe-local"
    );
    assert_eq!(presentation.warning, Some(UNSAFE_LOCAL_WARNING));
}

#[test]
fn normal_vm_title_and_realm_label_remain_unchanged() {
    let destination = DestinationMetadata {
        realm: "dev".to_owned(),
        realm_kind: RealmKind::Vm,
        canonical_target: None,
        provider_kind: PresentationProviderKind::LocalVm,
        isolation_posture: PresentationIsolationPosture::VirtualMachine,
        application: Some("Firefox".to_owned()),
        app_id: Some("d2b.looks-unsafe.firefox".to_owned()),
        title: None,
        workspace: None,
        output: None,
        attribution: Some(AttributionQuality::ExactClient),
        capability_preflight: None,
    };
    let request = OpenRequest {
        selected_protocol_version: 2,
        clipd_version: "test".to_owned(),
        picker_version: "test".to_owned(),
        request_id: "request".to_owned(),
        destination: destination.clone(),
        requested_mime_type: "text/plain".to_owned(),
        expires_at_unix_ms: None,
        placement_hints: None,
        candidates: Vec::new(),
        realm_display: RealmDisplay::new(),
    };

    assert_eq!(destination_label(&request), "Paste into dev · Firefox");
    assert_eq!(requested_label(&request), "Requested text/plain · type to filter");
    let presentation = destination_presentation(&destination);
    assert_eq!(
        presentation.provenance_label(),
        "Realm dev · provider local-vm · isolation virtual-machine"
    );
    assert_eq!(presentation.warning, None);
}

#[test]
fn app_id_never_infers_unsafe_local_identity() {
    let destination = DestinationMetadata {
        realm: "dev".to_owned(),
        realm_kind: RealmKind::Vm,
        canonical_target: None,
        provider_kind: PresentationProviderKind::LocalVm,
        isolation_posture: PresentationIsolationPosture::VirtualMachine,
        application: None,
        app_id: Some("unsafe-local.fabricated".to_owned()),
        title: None,
        workspace: None,
        output: None,
        attribution: Some(AttributionQuality::ExactClient),
        capability_preflight: None,
    };

    assert_eq!(destination_presentation(&destination).warning, None);
}

#[test]
fn unknown_identities_are_not_invented() {
    let mut unknown = candidate();
    unknown.source_provider_kind = PresentationProviderKind::Unknown;
    unknown.source_isolation_posture = PresentationIsolationPosture::Unknown;
    let presentation = candidate_presentation(&unknown);
    assert!(!presentation.has_identity_metadata());
    assert_eq!(presentation.identity_label(), None);
    assert_eq!(presentation.provenance_label(), "Realm dev");
    assert_eq!(presentation.warning, None);

    unknown.source_isolation_posture = PresentationIsolationPosture::UnsafeLocal;
    let presentation = candidate_presentation(&unknown);
    assert_eq!(
        presentation.identity_label().as_deref(),
        Some("isolation unsafe-local")
    );
    assert_eq!(presentation.warning, Some("unsafe-local · no isolation"));

    unknown.source_provider_kind = PresentationProviderKind::QemuMedia;
    assert_eq!(
        candidate_presentation(&unknown).identity_label().as_deref(),
        Some("provider qemu-media · isolation unsafe-local")
    );
}

#[test]
fn sources_are_attributed() {
    let mut entry = candidate();
    assert_eq!(app_source_label(&entry), "Exact source · Unknown app");
    entry.source_app_id = Some("org.app".to_owned());
    entry.source_attribution = AttributionQuality::FocusedWindowGuess;
    assert_eq!(app_source_label(&entry), "Focused-window guess · org.app");
    entry.source_app = Some("App".to_owned());
    entry.source_attribution = AttributionQuality::CacheStaleFocusedWindowGuess;
    assert_eq!(app_source_label(&entry), "Focused-window guess (stale) · App");
    entry.source_attribution = AttributionQuality::BrokerInjectedDebug;
    assert_eq!(app_source_label(&entry), "Debug-injected source");
}

#[test]
fn ages_are_told_in_words() {
    assert_eq!(format_timestamp(None, Some(5)), "Unknown time");
    assert_eq!(format_timestamp(Some(0), Some(29_999)), "Just now");
    assert_eq!(format_timestamp(Some(0), Some(30_000)), "0m ago");
    assert_eq!(format_timestamp(Some(0), Some(3_599_999)), "59m ago");
    assert_eq!(format_timestamp(Some(0), Some(3_600_000)), "1h ago");
    assert_eq!(format_timestamp(Some(0), Some(86_399_999)), "23h ago");
    assert_eq!(format_timestamp(Some(0), Some(10 * 86_400_000)), "10d ago");
    assert_eq!(format_timestamp(Some(100_000), Some(0)), "Just now");
    assert_eq!(format_timestamp(Some(100_000), None), "Just now");
}

#[test]
fn previews_show_text_or_tell_of_an_image() {
    let mut entry = candidate();
    assert_eq!(preview_text(&entry), "No preview");
    entry.preview_text = Some("two\nlines".to_owned());
    assert_eq!(preview_text(&entry), "two lines");
    entry.content_type = "image/png;charset=x".to_owned();
    assert_eq!(preview_text(&entry), "Image entry");
    entry.byte_count = Some(18_432);
    assert_eq!(preview_text(&entry), "Image entry · 18432 bytes");
    entry.content_type = "image/jpeg".to_owned();
    assert_eq!(preview_text(&entry), "two lines");
}

#[test]
fn labels_are_cut_and_cleaned() {
    assert_eq!(sanitize_preview("plain text", 80), "plain text");
    assert_eq!(sanitize_preview("a\u{7}b\u{9b}c", 80), "a b c");
    assert_eq!(sanitize_preview("éèà", 2), "éè");
    assert_eq!(sanitize_preview("", 2), "");
}

#[test]
fn contents_have_a_kind() {
    let (text, _) = display_content_kind("text/plain");
    let (image, _) = display_content_kind("image/png");
    assert_ne!(text, image);
}
