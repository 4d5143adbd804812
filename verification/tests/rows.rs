use d2b_clip_picker::protocol::{
    AttributionQuality, Candidate, PresentationIsolationPosture, PresentationProviderKind,
    RealmKind,
};
use d2b_clip_picker::rows::{
    candidate_matches, candidate_row, find_displayed, first_selectable, grouped_rows, haystack,
    query_is_found, rebuild_grouped_rows, search_label, select_relative, visible_candidates, Step,
};

fn candidate(entry_id: &str, realm: &str, preview: &str) -> Candidate {
    Candidate {
        entry_id: entry_id.to_owned(),
        source_realm: realm.to_owned(),
        source_realm_kind: RealmKind::Vm,
        source_canonical_target: None,
        source_provider_kind: PresentationProviderKind::LocalVm,
        source_isolation_posture: PresentationIsolationPosture::VirtualMachine,
        source_app: Some("Editor".to_owned()),
        source_app_id: None,
        source_attribution: AttributionQuality::ExactClient,
        preview_text: Some(preview.to_owned()),
        content_type: "text/plain".to_owned(),
        timestamp_unix_ms: None,
        thumbnail_png_base64: None,
        byte_count: None,
        confirmation_required: false,
        capability_preflight: None,
    }
}

fn samples() -> Vec<Candidate> {
    vec![
        candidate("a", "work", "Alpha"),
        candidate("b", "host", "Beta"),
        candidate("c", "work", "Gamma"),
        candidate("d", "dev", "Alphabet"),
        candidate("e", "host", "ALPHA ÄÖ"),
    ]
}

#[test]
fn searches_look_at_the_visible_texts() {
    let entry = candidate("a", "work", "Alpha");
    assert_eq!(haystack(&entry), "work Editor  text/plain Alpha");
    assert!(candidate_matches(&entry, ""));
    assert!(candidate_matches(&entry, "alpha"));
    assert!(candidate_matches(&entry, "editor"));
    assert!(candidate_matches(&entry, "work editor"));
    assert!(!candidate_matches(&entry, "Alpha"));
    assert!(!candidate_matches(&entry, "local-vm"));
    assert!(!candidate_matches(&entry, "beta"));
    assert!(query_is_found("abc", "bc"));
    assert!(!query_is_found("abc", "cb"));
}

#[test]
fn queries_are_taken_in_lower_case() {
    assert_eq!(
        visible_candidates(&samples(), "ALPHA"),
        vec![true, false, false, true, true]
    );
    assert_eq!(
        visible_candidates(&samples(), "äö"),
        vec![false, false, false, false, true]
    );
}

#[test]
fn entries_are_grouped_by_realm() {
    assert_eq!(rebuild_grouped_rows(&samples(), ""), vec![0, 2, 1, 4, 3]);
    assert_eq!(rebuild_grouped_rows(&samples(), "alpha"), vec![0, 3, 4]);
    assert_eq!(rebuild_grouped_rows(&samples(), "host"), vec![1, 4]);
    assert_eq!(rebuild_grouped_rows(&samples(), "nothing"), Vec::<usize>::new());
    assert_eq!(rebuild_grouped_rows(&Vec::new(), ""), Vec::<usize>::new());
    assert_eq!(
        grouped_rows(&samples(), &vec![false, true, true, true, true]),
        vec![1, 4, 2, 3]
    );
}

#[test]
fn rows_are_found_by_their_entry() {
    let candidates = samples();
    let rows = rebuild_grouped_rows(&candidates, "alpha");
    assert_eq!(find_displayed(&candidates, &rows, "e"), Some(4));
    assert_eq!(find_displayed(&candidates, &rows, "b"), None);
}

#[test]
fn selection_moves_over_what_can_be_selected() {
    let rows = vec![false, true, false, true];
    assert_eq!(first_selectable(&rows), Some(1));
    assert_eq!(first_selectable(&vec![false]), None);
    assert_eq!(select_relative(&rows, Some(1), Step::Down), Some(3));
    assert_eq!(select_relative(&rows, Some(3), Step::Down), None);
    assert_eq!(select_relative(&rows, Some(3), Step::Up), Some(1));
    assert_eq!(select_relative(&rows, Some(1), Step::Up), None);
    assert_eq!(select_relative(&rows, None, Step::Down), Some(1));
    assert_eq!(select_relative(&rows, None, Step::Up), None);
    assert_eq!(select_relative(&Vec::new(), None, Step::Down), None);
}

#[test]
fn the_search_field_shows_the_query() {
    assert_eq!(search_label(""), "Search…");
    assert_eq!(search_label("abc"), "Search: abc");
}

#[test]
fn rows_show_what_is_known_of_an_entry() {
    let mut entry = candidate("a", "work", "Alpha");
    entry.timestamp_unix_ms = Some(1_000);
    entry.confirmation_required = true;
    entry.source_isolation_posture = PresentationIsolationPosture::UnsafeLocal;
    let row = candidate_row(&entry, Some("d2b-realm-header-0"), Some(121_000));
    assert_eq!(row.entry_id, "a");
    assert_eq!(row.css_class.as_deref(), Some("d2b-realm-header-0"));
    assert_eq!(row.realm, "work");
    assert_eq!(row.time, "2m ago");
    assert_eq!(
        row.identity.as_deref(),
        Some("provider local-vm · isolation unsafe-local")
    );
    assert_eq!(row.warning, Some("unsafe-local · no isolation"));
    assert_eq!(row.app, "Exact source · Editor");
    assert_eq!(row.thumbnail, None);
    assert_eq!(row.preview, "Alpha");
    assert_eq!(row.confirmation, Some("Confirmation required"));

    entry.confirmation_required = false;
    let row = candidate_row(&entry, None, None);
    assert_eq!(row.css_class, None);
    assert_eq!(row.confirmation, None);
}
