use base64::Engine;
use d2b_clip_picker::protocol::{
    AttributionQuality, Candidate, PresentationIsolationPosture, PresentationProviderKind,
    RealmKind,
};
use d2b_clip_picker::thumbnail::{
    encoded_thumbnail, png_dimensions, safe_host_thumbnail, small_image,
};

fn png(width: u32, height: u32, size: usize) -> Vec<u8> {
    let mut bytes = b"\x89PNG\r\n\x1a\n\0\0\0\x0dIHDR".to_vec();
    bytes.extend_from_slice(&width.to_be_bytes());
    bytes.extend_from_slice(&height.to_be_bytes());
    bytes.resize(size, 0);
    bytes
}

fn candidate(thumbnail: Option<String>) -> Candidate {
    Candidate {
        entry_id: "entry".to_owned(),
        source_realm: "host".to_owned(),
        source_realm_kind: RealmKind::Host,
        source_canonical_target: None,
        source_provider_kind: PresentationProviderKind::UnsafeLocal,
        source_isolation_posture: PresentationIsolationPosture::UnsafeLocal,
        source_app: None,
        source_app_id: None,
        source_attribution: AttributionQuality::ExactClient,
        preview_text: None,
        content_type: "image/png".to_owned(),
        timestamp_unix_ms: None,
        thumbnail_png_base64: thumbnail,
        byte_count: None,
        confirmation_required: false,
        capability_preflight: None,
    }
}

fn encode(bytes: &[u8]) -> String {
    base64::engine::general_purpose::STANDARD.encode(bytes)
}

#[test]
fn png_files_tell_their_size() {
    assert_eq!(png_dimensions(&png(0x0102_0304, 7, 24)), Some((0x0102_0304, 7)));
    assert_eq!(png_dimensions(&png(1, 2, 23)), None);
    let mut other = png(1, 2, 30);
    other[0] = 0;
    assert_eq!(png_dimensions(&other), None);
    let mut other = png(1, 2, 30);
    other[12] = b'X';
    assert_eq!(png_dimensions(&other), None);
}

#[test]
fn images_are_small_in_bytes_and_pixels() {
    assert!(small_image(png(4096, 1953, 24)).is_some());
    assert!(small_image(png(4096, 1954, 24)).is_none());
    assert!(small_image(png(4097, 1, 24)).is_none());
    assert!(small_image(png(1, 4097, 24)).is_none());
    assert!(small_image(png(1, 1, 192 * 1024)).is_some());
    assert!(small_image(png(1, 1, 192 * 1024 + 1)).is_none());
    assert!(small_image(b"no image at all, but long enough".to_vec()).is_none());
}

#[test]
fn thumbnails_of_the_host_are_decoded() {
    let image = png(16, 9, 60);
    let shown = safe_host_thumbnail(&candidate(Some(encode(&image))));
    assert_eq!(shown, Some(image));
    assert_eq!(safe_host_thumbnail(&candidate(None)), None);
    assert_eq!(
        safe_host_thumbnail(&candidate(Some("not base64".to_owned()))),
        None
    );
}

#[test]
fn other_entries_have_no_thumbnail() {
    let encoded = encode(&png(16, 9, 60));
    let mut other = candidate(Some(encoded.clone()));
    other.source_realm_kind = RealmKind::UnsafeLocal;
    assert_eq!(safe_host_thumbnail(&other), None);
    let mut other = candidate(Some(encoded.clone()));
    other.content_type = "image/jpeg".to_owned();
    assert_eq!(safe_host_thumbnail(&other), None);
    let mut other = candidate(Some(encoded));
    other.content_type = "image/png;q=1".to_owned();
    assert!(safe_host_thumbnail(&other).is_some());
}

#[test]
fn long_encodings_are_not_looked_at() {
    let at_limit = candidate(Some("A".repeat(256 * 1024)));
    assert!(encoded_thumbnail(&at_limit).is_some());
    let too_long = candidate(Some("A".repeat(256 * 1024 + 1)));
    assert!(encoded_thumbnail(&too_long).is_none());
    assert_eq!(safe_host_thumbnail(&too_long), None);
}
