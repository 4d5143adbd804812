//! Rendering a sample: a picker with made-up entries is drawn into a PNG file, and what was drawn
//! is looked over.

use crate::pin_icon::{PinIconSource, PIN_ICON_NAME};
use crate::protocol;
use crate::protocol::{
    AttributionQuality, Candidate, DestinationMetadata, OpenRequest, PlacementHints,
    PresentationIsolationPosture, PresentationProviderKind, RealmDisplay, RealmDisplayMetadata,
    RealmKind,
};
use crate::session::{DRAG_HANDLE_WIDGET_NAME, PIN_ICON_WIDGET_NAME, PIN_WIDGET_NAME};
use crate::text;
use crate::theme;
use crate::theme::build_realm_css_classes;
use crate::thumbnail;
use crate::thumbnail::png_dimensions;
use vstd::prelude::*;

verus! {

pub const RENDER_WIDTH: i32 = 420;

pub const RENDER_HEIGHT: i32 = 520;

/// A rendered file has fewer bytes than this.
pub const MAX_RENDER_BYTES: usize = 5_242_880;

/// Why a sample was not rendered.
#[derive(Debug, Clone, Copy, PartialEq, Eq, Structural)]
pub enum RenderError {
    NotPng,
    ParentMissing,
    IconMissing,
    TooFewRows,
    TooFewPostures,
    PinControl,
    PinIcon,
    PinIconEmpty,
    PinIconGenerated,
    ChromeMissing,
    PinHidden,
    Allocated { width: i32, height: i32 },
    TextureSize { width: i32, height: i32 },
    TextureEmpty,
    TextureUniform,
    FileTooLarge,
    FileInvalid,
    TimedOut,
    NoResult,
}

/// Two numbers with a cross between them.
pub open spec fn size_text(width: i32, height: i32) -> Seq<char> {
    text::signed_digits(width as int) + "x"@ + text::signed_digits(height as int)
}

fn append_size(s: &mut String, width: i32, height: i32)
    ensures
        final(s)@ == old(s)@ + size_text(width, height),
{
    let ghost before = s@;
    let first = text::signed_decimal(width);
    let second = text::signed_decimal(height);
    s.append(first.as_str());
    s.append("x");
    s.append(second.as_str());
    assert(s@ =~= before + size_text(width, height));
}

impl RenderError {
    pub open spec fn spec_message(self) -> Seq<char> {
        match self {
            RenderError::NotPng => "--render-sample output must use the .png extension"@,
            RenderError::ParentMissing => {
                "--render-sample output parent directory does not exist"@
            },
            RenderError::IconMissing => "render mode requires packaged GTK icon "@ + PIN_ICON_NAME@,
            RenderError::TooFewRows => "render sample must contain multiple rows and realms"@,
            RenderError::TooFewPostures => {
                "render sample must exercise multiple provider postures"@
            },
            RenderError::PinControl => {
                "production pin control must use icon content and be unpinned by default"@
            },
            RenderError::PinIcon => "production pin control is missing its monochrome icon"@,
            RenderError::PinIconEmpty => "theme symbolic pin icon has no image content"@,
            RenderError::PinIconGenerated => {
                "render mode must exercise the packaged symbolic pin icon"@
            },
            RenderError::ChromeMissing => {
                "production picker structure is missing pin or drag chrome"@
            },
            RenderError::PinHidden => "production pin control is not visible"@,
            RenderError::Allocated { width, height } => "production picker allocated "@ + size_text(
                width,
                height,
            ) + "; expected "@ + size_text(RENDER_WIDTH, RENDER_HEIGHT),
            RenderError::TextureSize { width, height } => "rendered texture is "@ + size_text(
                width,
                height,
            ) + "; expected "@ + size_text(RENDER_WIDTH, RENDER_HEIGHT),
            RenderError::TextureEmpty => "rendered texture is empty"@,
            RenderError::TextureUniform => "rendered texture is uniform"@,
            RenderError::FileTooLarge => "rendered PNG must remain below 5 MB"@,
            RenderError::FileInvalid => {
                "rendered PNG signature or logical dimensions are invalid"@
            },
            RenderError::TimedOut => "timed out rendering picker sample"@,
            RenderError::NoResult => "picker render exited without a result"@,
        }
    }

    pub fn message(&self) -> (r: String)
        ensures
            r@ == self.spec_message(),
    {
        match *self {
            RenderError::NotPng => {
                "--render-sample output must use the .png extension".to_owned()
            },
            RenderError::ParentMissing => {
                "--render-sample output parent directory does not exist".to_owned()
            },
            RenderError::IconMissing => {
                let mut r: String = "render mode requires packaged GTK icon ".to_owned();
                r.append(PIN_ICON_NAME);
                r
            },
            RenderError::TooFewRows => {
                "render sample must contain multiple rows and realms".to_owned()
            },
            RenderError::TooFewPostures => {
                "render sample must exercise multiple provider postures".to_owned()
            },
            RenderError::PinControl => {
                "production pin control must use icon content and be unpinned by default".to_owned()
            },
            RenderError::PinIcon => {
                "production pin control is missing its monochrome icon".to_owned()
            },
            RenderError::PinIconEmpty => "theme symbolic pin icon has no image content".to_owned(),
            RenderError::PinIconGenerated => {
                "render mode must exercise the packaged symbolic pin icon".to_owned()
            },
            RenderError::ChromeMissing => {
                "production picker structure is missing pin or drag chrome".to_owned()
            },
            RenderError::PinHidden => "production pin control is not visible".to_owned(),
            RenderError::Allocated { width, height } => {
                let mut r: String = "production picker allocated ".to_owned();
                append_size(&mut r, width, height);
                r.append("; expected ");
                append_size(&mut r, RENDER_WIDTH, RENDER_HEIGHT);
                r
            },
            RenderError::TextureSize { width, height } => {
                let mut r: String = "rendered texture is ".to_owned();
                append_size(&mut r, width, height);
                r.append("; expected ");
                append_size(&mut r, RENDER_WIDTH, RENDER_HEIGHT);
                r
            },
            RenderError::TextureEmpty => "rendered texture is empty".to_owned(),
            RenderError::TextureUniform => "rendered texture is uniform".to_owned(),
            RenderError::FileTooLarge => "rendered PNG must remain below 5 MB".to_owned(),
            RenderError::FileInvalid => {
                "rendered PNG signature or logical dimensions are invalid".to_owned()
            },
            RenderError::TimedOut => "timed out rendering picker sample".to_owned(),
            RenderError::NoResult => "picker render exited without a result".to_owned(),
        }
    }
}

/// Whether a sample can be written to a file with this extension. `parent_exists` tells of the
/// directory that the path names; a path that names none is one in the current directory.
pub fn check_render_output(extension: Option<&str>, parent_exists: Option<bool>) -> (r: Result<
    (),
    RenderError,
>)
    ensures
        r == (if !(extension matches Some(e) && e@ == "png"@) {
            Err::<(), RenderError>(RenderError::NotPng)
        } else if parent_exists == Some(false) {
            Err(RenderError::ParentMissing)
        } else {
            Ok(())
        }),
{
    let png: bool = match extension {
        Some(e) => text::same_text(e, "png"),
        None => false,
    };
    if !png {
        return Err(RenderError::NotPng);
    }
    match parent_exists {
        Some(false) => Err(RenderError::ParentMissing),
        _ => Ok(()),
    }
}

/// A widget by its name, with the widgets in it.
pub struct WidgetTree {
    pub name: String,
    pub children: Vec<WidgetTree>,
}

/// Whether a widget, or one in it, has this name.
pub open spec fn tree_contains(tree: WidgetTree, name: Seq<char>) -> bool
    decreases tree,
{
    tree.name@ == name || exists|i: int|
        0 <= i < tree.children@.len() && tree_contains(#[trigger] tree.children@[i], name)
}

pub fn widget_tree_contains(tree: &WidgetTree, widget_name: &str) -> (r: bool)
    ensures
        r == tree_contains(*tree, widget_name@),
    decreases tree,
{
    if text::same_text(tree.name.as_str(), widget_name) {
        return true;
    }
    let mut i: usize = 0;
    while i < tree.children.len()
        invariant
            i <= tree.children@.len(),
            tree.name@ != widget_name@,
            forall|j: int|
                0 <= j < i ==> !tree_contains(#[trigger] tree.children@[j], widget_name@),
        decreases tree.children@.len() - i,
    {
        if widget_tree_contains(&tree.children[i], widget_name) {
            return true;
        }
        i = i + 1;
    }
    false
}

/// What a made-up entry says.
pub struct SampleEntry {
    pub entry_id: Seq<char>,
    pub realm: Seq<char>,
    pub realm_kind: RealmKind,
    pub provider: PresentationProviderKind,
    pub isolation: PresentationIsolationPosture,
    pub app: Seq<char>,
    pub preview: Option<Seq<char>>,
    pub content_type: Seq<char>,
    pub byte_count: u64,
    pub confirmation_required: bool,
}

impl SampleEntry {
    /// Whether a candidate says this, and nothing more.
    pub open spec fn is_said_by(self, candidate: Candidate) -> bool {
        &&& candidate.entry_id@ == self.entry_id
        &&& candidate.source_realm@ == self.realm
        &&& candidate.source_realm_kind == self.realm_kind
        &&& candidate.source_canonical_target is None
        &&& candidate.source_provider_kind == self.provider
        &&& candidate.source_isolation_posture == self.isolation
        &&& protocol::optional_text(candidate.source_app) == Some(self.app)
        &&& candidate.source_app_id is None
        &&& candidate.source_attribution == AttributionQuality::ExactClient
        &&& protocol::optional_text(candidate.preview_text) == self.preview
        &&& candidate.content_type@ == self.content_type
        &&& candidate.timestamp_unix_ms is None
        &&& candidate.thumbnail_png_base64 is None
        &&& candidate.byte_count == Some(self.byte_count)
        &&& candidate.confirmation_required == self.confirmation_required
        &&& candidate.capability_preflight is None
    }
}

/// The made-up entries.
pub open spec fn sample_entries() -> Seq<SampleEntry> {
    seq![
        SampleEntry {
            entry_id: "sample-work"@,
            realm: "work"@,
            realm_kind: RealmKind::Vm,
            provider: PresentationProviderKind::LocalVm,
            isolation: PresentationIsolationPosture::VirtualMachine,
            app: "Editor"@,
            preview: Some("Release checklist with deterministic sample text"@),
            content_type: "text/plain"@,
            byte_count: 49,
            confirmation_required: false,
        },
        SampleEntry {
            entry_id: "sample-research"@,
            realm: "research"@,
            realm_kind: RealmKind::Vm,
            provider: PresentationProviderKind::QemuMedia,
            isolation: PresentationIsolationPosture::VirtualMachine,
            app: "Reader"@,
            preview: Some("Architecture notes and test evidence"@),
            content_type: "text/plain"@,
            byte_count: 36,
            confirmation_required: false,
        },
        SampleEntry {
            entry_id: "sample-provider"@,
            realm: "managed"@,
            realm_kind: RealmKind::Vm,
            provider: PresentationProviderKind::ProviderManaged,
            isolation: PresentationIsolationPosture::ProviderManaged,
            app: "Console"@,
            preview: Some("Provider-managed clipboard sample"@),
            content_type: "text/plain"@,
            byte_count: 33,
            confirmation_required: true,
        },
        SampleEntry {
            entry_id: "sample-image"@,
            realm: "host"@,
            realm_kind: RealmKind::Host,
            provider: PresentationProviderKind::UnsafeLocal,
            isolation: PresentationIsolationPosture::UnsafeLocal,
            app: "Image viewer"@,
            preview: None,
            content_type: "image/png"@,
            byte_count: 18432,
            confirmation_required: false,
        },
        SampleEntry {
            entry_id: "sample-host-text"@,
            realm: "host"@,
            realm_kind: RealmKind::UnsafeLocal,
            provider: PresentationProviderKind::UnsafeLocal,
            isolation: PresentationIsolationPosture::UnsafeLocal,
            app: "Terminal"@,
            preview: Some("Host-side text placeholder"@),
            content_type: "text/plain"@,
            byte_count: 26,
            confirmation_required: false,
        },
    ]
}

/// The colors of the realms of the made-up entries.
pub open spec fn sample_colors() -> Map<Seq<char>, Option<Seq<char>>> {
    Map::<Seq<char>, Option<Seq<char>>>::empty().insert(
        "work"@,
        Some("#7fc8ff"@),
    ).insert(
        "research"@,
        Some("#90d090"@),
    ).insert(
        "managed"@,
        Some("#c8a0e0"@),
    ).insert(
        "host"@,
        Some("#ffb347"@),
    )
}

fn sample_candidate(
    entry_id: &str,
    realm: &str,
    realm_kind: RealmKind,
    provider: PresentationProviderKind,
    isolation: PresentationIsolationPosture,
    app: &str,
    preview: Option<&str>,
    content_type: &str,
    byte_count: u64,
    confirmation_required: bool,
) -> (r: Candidate)
    ensures
        (SampleEntry {
            entry_id: entry_id@,
            realm: realm@,
            realm_kind,
            provider,
            isolation,
            app: app@,
            preview: match preview {
                Some(p) => Some(p@),
                None => None,
            },
            content_type: content_type@,
            byte_count,
            confirmation_required,
        }).is_said_by(r),
{
    Candidate {
        entry_id: entry_id.to_owned(),
        source_realm: realm.to_owned(),
        source_realm_kind: realm_kind,
        source_canonical_target: None,
        source_provider_kind: provider,
        source_isolation_posture: isolation,
        source_app: Some(app.to_owned()),
        source_app_id: None,
        source_attribution: AttributionQuality::ExactClient,
        preview_text: match preview {
            Some(p) => Some(p.to_owned()),
            None => None,
        },
        content_type: content_type.to_owned(),
        timestamp_unix_ms: None,
        thumbnail_png_base64: None,
        byte_count: Some(byte_count),
        confirmation_required,
        capability_preflight: None,
    }
}

fn add_color(display: &mut RealmDisplay, realm: &str, color: &str)
    ensures
        final(display)@ == old(display)@.insert(realm@, Some(color@)),
{
    display.insert(realm.to_owned(), RealmDisplayMetadata { color: Some(color.to_owned()) });
}

fn sample_candidates() -> (r: Vec<Candidate>)
    ensures
        r@.len() == sample_entries().len(),
        forall|i: int| 0 <= i < r@.len() ==> sample_entries()[i].is_said_by(#[trigger] r@[i]),
{
    let mut candidates: Vec<Candidate> = Vec::new();
    candidates.push(
        sample_candidate(
            "sample-work",
            "work",
            RealmKind::Vm,
            PresentationProviderKind::LocalVm,
            PresentationIsolationPosture::VirtualMachine,
            "Editor",
            Some("Release checklist with deterministic sample text"),
            "text/plain",
            49,
            false,
        ),
    );
    candidates.push(
        sample_candidate(
            "sample-research",
            "research",
            RealmKind::Vm,
            PresentationProviderKind::QemuMedia,
            PresentationIsolationPosture::VirtualMachine,
            "Reader",
            Some("Architecture notes and test evidence"),
            "text/plain",
            36,
            false,
        ),
    );
    candidates.push(
        sample_candidate(
            "sample-provider",
            "managed",
            RealmKind::Vm,
            PresentationProviderKind::ProviderManaged,
            PresentationIsolationPosture::ProviderManaged,
            "Console",
            Some("Provider-managed clipboard sample"),
            "text/plain",
            33,
            true,
        ),
    );
    candidates.push(
        sample_candidate(
            "sample-image",
            "host",
            RealmKind::Host,
            PresentationProviderKind::UnsafeLocal,
            PresentationIsolationPosture::UnsafeLocal,
            "Image viewer",
            None,
            "image/png",
            18432,
            false,
        ),
    );
    candidates.push(
        sample_candidate(
            "sample-host-text",
            "host",
            RealmKind::UnsafeLocal,
            PresentationProviderKind::UnsafeLocal,
            PresentationIsolationPosture::UnsafeLocal,
            "Terminal",
            Some("Host-side text placeholder"),
            "text/plain",
            26,
            false,
        ),
    );
    candidates
}

/// The made-up request.
pub fn render_sample_request() -> (r: OpenRequest)
    ensures
        r.selected_protocol_version == 2,
        r.clipd_version@ == "render-sample"@,
        r.picker_version@ == crate::VERSION@,
        r.request_id@ == "synthetic-render-request"@,
        r.destination.realm@ == "personal-dev"@,
        r.destination.realm_kind == RealmKind::Vm,
        r.destination.canonical_target is None,
        r.destination.provider_kind == PresentationProviderKind::LocalVm,
        r.destination.isolation_posture == PresentationIsolationPosture::VirtualMachine,
        protocol::optional_text(r.destination.application) == Some("Browser"@),
        r.destination.app_id is None,
        r.destination.title is None,
        protocol::optional_text(r.destination.workspace) == Some("development"@),
        r.destination.output is None,
        r.destination.attribution == Some(AttributionQuality::ExactClient),
        r.destination.capability_preflight is None,
        r.requested_mime_type@ == "text/plain"@,
        r.expires_at_unix_ms is None,
        r.placement_hints == Some(
            PlacementHints {
                pointer_x: Some(760),
                pointer_y: Some(96),
                output_width: Some(1280),
                output_height: Some(720),
                overlay_width: Some(RENDER_WIDTH),
                overlay_height: Some(RENDER_HEIGHT),
                output: None,
            },
        ),
        r.candidates@.len() == sample_entries().len(),
        forall|i: int|
            0 <= i < r.candidates@.len() ==> sample_entries()[i].is_said_by(
                #[trigger] r.candidates@[i],
            ),
        r.realm_display@ == sample_colors(),
        r.valid(),
        sample_error(r.candidates@) is None,
{
    let mut realm_display = RealmDisplay::new();
    add_color(&mut realm_display, "work", "#7fc8ff");
    add_color(&mut realm_display, "research", "#90d090");
    add_color(&mut realm_display, "managed", "#c8a0e0");
    add_color(&mut realm_display, "host", "#ffb347");
    let r = OpenRequest {
        selected_protocol_version: 2,
        clipd_version: "render-sample".to_owned(),
        picker_version: crate::VERSION.to_owned(),
        request_id: "synthetic-render-request".to_owned(),
        destination: DestinationMetadata {
            realm: "personal-dev".to_owned(),
            realm_kind: RealmKind::Vm,
            canonical_target: None,
            provider_kind: PresentationProviderKind::LocalVm,
            isolation_posture: PresentationIsolationPosture::VirtualMachine,
            application: Some("Browser".to_owned()),
            app_id: None,
            title: None,
            workspace: Some("development".to_owned()),
            output: None,
            attribution: Some(AttributionQuality::ExactClient),
            capability_preflight: None,
        },
        requested_mime_type: "text/plain".to_owned(),
        expires_at_unix_ms: None,
        placement_hints: Some(
            PlacementHints {
                pointer_x: Some(760),
                pointer_y: Some(96),
                output_width: Some(1280),
                output_height: Some(720),
                overlay_width: Some(RENDER_WIDTH),
                overlay_height: Some(RENDER_HEIGHT),
                output: None,
            },
        ),
        candidates: sample_candidates(),
        realm_display,
    };
    proof {
        sample_texts_are_bounded();
        assert forall|i: int| 0 <= i < r.candidates@.len() implies (#[trigger] r.candidates@[i]).bounded() by {
            sample_entries_are_tame(i);
            tame_entry_is_bounded(sample_entries()[i], r.candidates@[i]);
        }
        assert forall|realm: Seq<char>| #[trigger] r.realm_display@.dom().contains(realm) implies {
            &&& protocol::bounded_text(realm, protocol::MAX_METADATA_BYTES)
            &&& r.realm_display@[realm] matches Some(color) ==> protocol::bounded_text(
                color,
                protocol::MAX_METADATA_BYTES,
            )
        } by {
            sample_colors_are_bounded(realm);
        }
        sample_entries_are_varied(r.candidates@);
    }
    r

}

/// Whether a text is short, and plain enough to stand in a request.
spec fn is_tame(s: Seq<char>) -> bool {
    &&& s.len() <= 64
    &&& forall|i: int| 0 <= i < s.len() ==> ' ' <= #[trigger] s[i] <= '~'
}

proof fn tame_text_is_bounded(s: Seq<char>, max: usize)
    requires
        is_tame(s),
        64 <= max,
    ensures
        protocol::bounded_text(s, max),
{
    assert(vstd::utf8::is_ascii_chars(s));
    vstd::utf8::is_ascii_chars_encode_utf8(s);
}

impl SampleEntry {
    spec fn is_tame(self) -> bool {
        &&& is_tame(self.entry_id)
        &&& is_tame(self.realm)
        &&& is_tame(self.app)
        &&& (self.preview matches Some(preview) ==> is_tame(preview))
        &&& is_tame(self.content_type)
    }
}

proof fn sample_entries_are_tame(i: int)
    requires
        0 <= i < sample_entries().len(),
    ensures
        sample_entries()[i].is_tame(),
{
    reveal_strlit("sample-work");
    reveal_strlit("work");
    reveal_strlit("Editor");
    reveal_strlit("Release checklist with deterministic sample text");
    reveal_strlit("text/plain");
    reveal_strlit("sample-research");
    reveal_strlit("research");
    reveal_strlit("Reader");
    reveal_strlit("Architecture notes and test evidence");
    reveal_strlit("sample-provider");
    reveal_strlit("managed");
    reveal_strlit("Console");
    reveal_strlit("Provider-managed clipboard sample");
    reveal_strlit("sample-image");
    reveal_strlit("host");
    reveal_strlit("Image viewer");
    reveal_strlit("image/png");
    reveal_strlit("sample-host-text");
    reveal_strlit("Terminal");
    reveal_strlit("Host-side text placeholder");
}

proof fn tame_entry_is_bounded(entry: SampleEntry, candidate: Candidate)
    requires
        entry.is_tame(),
        entry.is_said_by(candidate),
    ensures
        candidate.bounded(),
{
    tame_text_is_bounded(entry.entry_id, protocol::MAX_ID_BYTES);
    tame_text_is_bounded(entry.realm, protocol::MAX_METADATA_BYTES);
    tame_text_is_bounded(entry.app, protocol::MAX_METADATA_BYTES);
    tame_text_is_bounded(entry.content_type, protocol::MAX_MIME_TYPE_BYTES);
    if let Some(preview) = entry.preview {
        tame_text_is_bounded(preview, protocol::MAX_PREVIEW_BYTES);
    }
}

proof fn sample_colors_are_bounded(realm: Seq<char>)
    requires
        sample_colors().dom().contains(realm),
    ensures
        protocol::bounded_text(realm, protocol::MAX_METADATA_BYTES),
        sample_colors()[realm] matches Some(color) && protocol::bounded_text(
            color,
            protocol::MAX_METADATA_BYTES,
        ),
{
    reveal_strlit("work");
    reveal_strlit("research");
    reveal_strlit("managed");
    reveal_strlit("host");
    reveal_strlit("#7fc8ff");
    reveal_strlit("#90d090");
    reveal_strlit("#c8a0e0");
    reveal_strlit("#ffb347");
    tame_text_is_bounded(realm, protocol::MAX_METADATA_BYTES);
    tame_text_is_bounded(sample_colors()[realm]->0, protocol::MAX_METADATA_BYTES);
}

proof fn sample_texts_are_bounded()
    ensures
        protocol::bounded_text("render-sample"@, protocol::MAX_METADATA_BYTES),
        protocol::bounded_text(crate::VERSION@, protocol::MAX_METADATA_BYTES),
        protocol::bounded_text("synthetic-render-request"@, protocol::MAX_ID_BYTES),
        protocol::bounded_text("personal-dev"@, protocol::MAX_METADATA_BYTES),
        protocol::bounded_text("Browser"@, protocol::MAX_METADATA_BYTES),
        protocol::bounded_text("development"@, protocol::MAX_METADATA_BYTES),
        protocol::bounded_text("text/plain"@, protocol::MAX_MIME_TYPE_BYTES),
{
    reveal_strlit("render-sample");
    reveal_strlit("0.2.0");
    reveal_strlit("synthetic-render-request");
    reveal_strlit("personal-dev");
    reveal_strlit("Browser");
    reveal_strlit("development");
    reveal_strlit("text/plain");
    tame_text_is_bounded("render-sample"@, protocol::MAX_METADATA_BYTES);
    tame_text_is_bounded(crate::VERSION@, protocol::MAX_METADATA_BYTES);
    tame_text_is_bounded("synthetic-render-request"@, protocol::MAX_ID_BYTES);
    tame_text_is_bounded("personal-dev"@, protocol::MAX_METADATA_BYTES);
    tame_text_is_bounded("Browser"@, protocol::MAX_METADATA_BYTES);
    tame_text_is_bounded("development"@, protocol::MAX_METADATA_BYTES);
    tame_text_is_bounded("text/plain"@, protocol::MAX_MIME_TYPE_BYTES);
}

/// Entries that say what the made-up ones say are varied enough for a sample.
proof fn sample_entries_are_varied(candidates: Seq<Candidate>)
    requires
        candidates.len() == sample_entries().len(),
        forall|i: int|
            0 <= i < candidates.len() ==> sample_entries()[i].is_said_by(#[trigger] candidates[i]),
    ensures
        sample_error(candidates) is None,
{
    let realms = theme::distinct_realms(candidates);
    theme::distinct_realms_are_the_realms(candidates);
    assert(sample_entries()[0].is_said_by(candidates[0]));
    assert(sample_entries()[1].is_said_by(candidates[1]));
    assert(sample_entries()[2].is_said_by(candidates[2]));
    assert(sample_entries()[3].is_said_by(candidates[3]));
    assert(realms.contains("work"@));
    assert(realms.contains("research"@));
    assert(realms.contains("managed"@));
    reveal_strlit("work");
    reveal_strlit("research");
    reveal_strlit("managed");
    assert("work"@.len() == 4 && "research"@.len() == 8 && "managed"@.len() == 7);
    let a = choose|a: int| 0 <= a < realms.len() && realms[a] == "work"@;
    let b = choose|b: int| 0 <= b < realms.len() && realms[b] == "research"@;
    let c = choose|c: int| 0 <= c < realms.len() && realms[c] == "managed"@;
    assert(a != b && b != c && a != c);
}

/// What is found of a picker that was built.
pub struct RenderFacts {
    /// The icon theme has the icon of the pin control.
    pub theme_has_icon: bool,
    pub pin_name: String,
    pub pin_has_label: bool,
    pub pin_has_child: bool,
    pub pin_active: bool,
    pub icon_name: String,
    pub icon_source: PinIconSource,
    pub icon_has_image: bool,
    pub tree: WidgetTree,
}

pub open spec fn some_isolation(
    candidates: Seq<Candidate>,
    isolation: PresentationIsolationPosture,
) -> bool {
    exists|i: int|
        0 <= i < candidates.len() && (#[trigger] candidates[i]).source_isolation_posture
            == isolation
}

pub open spec fn some_provider(
    candidates: Seq<Candidate>,
    provider: PresentationProviderKind,
) -> bool {
    exists|i: int|
        0 <= i < candidates.len() && (#[trigger] candidates[i]).source_provider_kind == provider
}

/// Whether a request shows enough to be a sample: rows, realms, and ways to isolate.
pub open spec fn sample_error(candidates: Seq<Candidate>) -> Option<RenderError> {
    if candidates.len() < 4 || theme::distinct_realms(candidates).len() < 3 {
        Some(RenderError::TooFewRows)
    } else if !some_isolation(candidates, PresentationIsolationPosture::UnsafeLocal)
        || !some_provider(candidates, PresentationProviderKind::ProviderManaged) {
        Some(RenderError::TooFewPostures)
    } else {
        None
    }
}

/// What is wrong with the controls of a picker.
pub open spec fn control_error(facts: RenderFacts) -> Option<RenderError> {
    if facts.pin_name@ != PIN_WIDGET_NAME@ || facts.pin_has_label || !facts.pin_has_child
        || facts.pin_active {
        Some(RenderError::PinControl)
    } else if facts.icon_name@ != PIN_ICON_WIDGET_NAME@ {
        Some(RenderError::PinIcon)
    } else if facts.icon_source == PinIconSource::ThemeSymbolic && !facts.icon_has_image {
        Some(RenderError::PinIconEmpty)
    } else if facts.icon_source == PinIconSource::GeneratedMonochrome {
        Some(RenderError::PinIconGenerated)
    } else if !tree_contains(facts.tree, PIN_WIDGET_NAME@) || !tree_contains(
        facts.tree,
        PIN_ICON_WIDGET_NAME@,
    ) || !tree_contains(facts.tree, DRAG_HANDLE_WIDGET_NAME@) {
        Some(RenderError::ChromeMissing)
    } else {
        None
    }
}

/// The first thing that is wrong with a picker that was built for a request.
pub open spec fn structure_error(facts: RenderFacts, candidates: Seq<Candidate>) -> Option<
    RenderError,
> {
    if !facts.theme_has_icon {
        Some(RenderError::IconMissing)
    } else if sample_error(candidates) is Some {
        sample_error(candidates)
    } else {
        control_error(facts)
    }
}

fn has_isolation(candidates: &Vec<Candidate>, isolation: PresentationIsolationPosture) -> (r: bool)
    ensures
        r == some_isolation(candidates@, isolation),
{
    let mut i: usize = 0;
    while i < candidates.len()
        invariant
            i <= candidates@.len(),
            forall|j: int|
                0 <= j < i ==> (#[trigger] candidates@[j]).source_isolation_posture != isolation,
        decreases candidates@.len() - i,
    {
        if candidates[i].source_isolation_posture == isolation {
            return true;
        }
        i = i + 1;
    }
    false
}

fn has_provider(candidates: &Vec<Candidate>, provider: PresentationProviderKind) -> (r: bool)
    ensures
        r == some_provider(candidates@, provider),
{
    let mut i: usize = 0;
    while i < candidates.len()
        invariant
            i <= candidates@.len(),
            forall|j: int|
                0 <= j < i ==> (#[trigger] candidates@[j]).source_provider_kind != provider,
        decreases candidates@.len() - i,
    {
        if candidates[i].source_provider_kind == provider {
            return true;
        }
        i = i + 1;
    }
    false
}

/// Looks over a picker that was built for a request.
pub fn assert_render_structure(facts: &RenderFacts, request: &OpenRequest) -> (r: Result<
    (),
    RenderError,
>)
    ensures
        r == (match structure_error(*facts, request.candidates@) {
            Some(error) => Err::<(), RenderError>(error),
            None => Ok(()),
        }),
{
    if !facts.theme_has_icon {
        return Err(RenderError::IconMissing);
    }
    let realms = build_realm_css_classes(&request.candidates);
    if request.candidates.len() < 4 || realms.len() < 3 {
        return Err(RenderError::TooFewRows);
    }
    if !has_isolation(&request.candidates, PresentationIsolationPosture::UnsafeLocal)
        || !has_provider(&request.candidates, PresentationProviderKind::ProviderManaged) {
        return Err(RenderError::TooFewPostures);
    }
    if !text::same_text(facts.pin_name.as_str(), PIN_WIDGET_NAME) || facts.pin_has_label
        || !facts.pin_has_child || facts.pin_active {
        return Err(RenderError::PinControl);
    }
    if !text::same_text(facts.icon_name.as_str(), PIN_ICON_WIDGET_NAME) {
        return Err(RenderError::PinIcon);
    }
    match facts.icon_source {
        PinIconSource::ThemeSymbolic => {
            if !facts.icon_has_image {
                return Err(RenderError::PinIconEmpty);
            }
        },
        PinIconSource::GeneratedMonochrome => {
            return Err(RenderError::PinIconGenerated);
        },
    }
    if !widget_tree_contains(&facts.tree, PIN_WIDGET_NAME) || !widget_tree_contains(
        &facts.tree,
        PIN_ICON_WIDGET_NAME,
    ) || !widget_tree_contains(&facts.tree, DRAG_HANDLE_WIDGET_NAME) {
        return Err(RenderError::ChromeMissing);
    }
    Ok(())
}

/// Whether a picker that was drawn has the size that it should have.
pub fn check_allocation(width: i32, height: i32) -> (r: Result<(), RenderError>)
    ensures
        r == (if width == RENDER_WIDTH && height == RENDER_HEIGHT {
            Ok::<(), RenderError>(())
        } else {
            Err(RenderError::Allocated { width, height })
        }),
{
    if width == RENDER_WIDTH && height == RENDER_HEIGHT {
        Ok(())
    } else {
        Err(RenderError::Allocated { width, height })
    }
}

/// Whether an image of a picker has the size that it should have.
pub fn check_texture(width: i32, height: i32) -> (r: Result<(), RenderError>)
    ensures
        r == (if width == RENDER_WIDTH && height == RENDER_HEIGHT {
            Ok::<(), RenderError>(())
        } else {
            Err(RenderError::TextureSize { width, height })
        }),
{
    if width == RENDER_WIDTH && height == RENDER_HEIGHT {
        Ok(())
    } else {
        Err(RenderError::TextureSize { width, height })
    }
}

/// Whether every whole pixel of an image looks like the first. A pixel has four bytes.
pub open spec fn is_uniform(pixels: Seq<u8>) -> bool {
    forall|i: int| 0 <= i < pixels.len() / 4 * 4 ==> pixels[i] == #[trigger] pixels[i % 4]
}

/// Whether something can be seen in an image.
pub fn check_pixels(pixels: &[u8]) -> (r: Result<(), RenderError>)
    ensures
        r == (if pixels@.len() < 4 {
            Err::<(), RenderError>(RenderError::TextureEmpty)
        } else if is_uniform(pixels@) {
            Err(RenderError::TextureUniform)
        } else {
            Ok(())
        }),
{
    if pixels.len() < 4 {
        return Err(RenderError::TextureEmpty);
    }
    let whole: usize = pixels.len() / 4 * 4;
    let mut i: usize = 0;
    while i < whole
        invariant
            i <= whole,
            whole == pixels@.len() / 4 * 4,
            4 <= pixels@.len(),
            forall|j: int| 0 <= j < i ==> pixels@[j] == #[trigger] pixels@[j % 4],
        decreases whole - i,
    {
        if pixels[i] != pixels[i % 4] {
            assert(pixels@[i as int] != pixels@[i as int % 4]);
            return Ok(());
        }
        i = i + 1;
    }
    Err(RenderError::TextureUniform)
}

/// Whether a file that was written is what it should be.
pub fn check_png(bytes: &[u8]) -> (r: Result<(), RenderError>)
    ensures
        r == (if bytes@.len() >= MAX_RENDER_BYTES {
            Err::<(), RenderError>(RenderError::FileTooLarge)
        } else if thumbnail::png_size(bytes@) != Some((420u32, 520u32)) {
            Err(RenderError::FileInvalid)
        } else {
            Ok(())
        }),
{
    if bytes.len() >= MAX_RENDER_BYTES {
        return Err(RenderError::FileTooLarge);
    }
    match png_dimensions(bytes) {
        Some((width, height)) => {
            if width == RENDER_WIDTH as u32 && height == RENDER_HEIGHT as u32 {
                Ok(())
            } else {
                Err(RenderError::FileInvalid)
            }
        },
        None => Err(RenderError::FileInvalid),
    }
}

/// A widget is found in itself, and everything that is found in one of its children is found in
/// it; nothing else is.
pub proof fn trees_contain_their_children(tree: WidgetTree, name: Seq<char>, i: int)
    ensures
        tree.name@ == name ==> tree_contains(tree, name),
        0 <= i < tree.children@.len() && tree_contains(tree.children@[i], name) ==> tree_contains(
            tree,
            name,
        ),
        tree_contains(tree, name) && tree.name@ != name ==> exists|j: int|
            0 <= j < tree.children@.len() && tree_contains(#[trigger] tree.children@[j], name),
{
}

/// A sample is rendered exactly if the icon theme has the icon, there are at least four entries of
/// at least three realms, one of them from an endpoint without isolation and one from a managed
/// provider, the pin control has the right name, no label, a child and is not active, its icon has
/// the right name, comes from the theme and has an image, and the pin, its icon and the handle are
/// among the widgets.
pub proof fn complete_pickers_are_rendered(facts: RenderFacts, candidates: Seq<Candidate>)
    ensures
        structure_error(facts, candidates) is None <==> {
            &&& facts.theme_has_icon
            &&& candidates.len() >= 4
            &&& theme::distinct_realms(candidates).len() >= 3
            &&& exists|i: int|
                0 <= i < candidates.len() && (#[trigger] candidates[i]).source_isolation_posture
                    is UnsafeLocal
            &&& exists|i: int|
                0 <= i < candidates.len() && (#[trigger] candidates[i]).source_provider_kind
                    is ProviderManaged
            &&& facts.pin_name@ == "d2b-pin-toggle"@
            &&& !facts.pin_has_label
            &&& facts.pin_has_child
            &&& !facts.pin_active
            &&& facts.icon_name@ == "d2b-pin-icon"@
            &&& facts.icon_source is ThemeSymbolic
            &&& facts.icon_has_image
            &&& tree_contains(facts.tree, "d2b-pin-toggle"@)
            &&& tree_contains(facts.tree, "d2b-pin-icon"@)
            &&& tree_contains(facts.tree, "d2b-drag-handle"@)
        },
{
    if some_isolation(candidates, PresentationIsolationPosture::UnsafeLocal) {
        let i = choose|i: int|
            0 <= i < candidates.len() && (#[trigger] candidates[i]).source_isolation_posture
                == PresentationIsolationPosture::UnsafeLocal;
        assert(candidates[i].source_isolation_posture is UnsafeLocal);
    }
    if some_provider(candidates, PresentationProviderKind::ProviderManaged) {
        let i = choose|i: int|
            0 <= i < candidates.len() && (#[trigger] candidates[i]).source_provider_kind
                == PresentationProviderKind::ProviderManaged;
        assert(candidates[i].source_provider_kind is ProviderManaged);
    }
}

/// What is missing is told: the icon of the theme before anything else, then too few entries or
/// realms, then too few ways to isolate, and the controls only where the sample is good.
pub proof fn first_fault_is_told(facts: RenderFacts, candidates: Seq<Candidate>)
    ensures
        !facts.theme_has_icon ==> structure_error(facts, candidates) == Some(
            RenderError::IconMissing,
        ),
        facts.theme_has_icon && (candidates.len() < 4 || theme::distinct_realms(candidates).len()
            < 3) ==> structure_error(facts, candidates) == Some(RenderError::TooFewRows),
        facts.theme_has_icon && candidates.len() >= 4 && theme::distinct_realms(candidates).len()
            >= 3 && (!some_isolation(candidates, PresentationIsolationPosture::UnsafeLocal)
            || !some_provider(candidates, PresentationProviderKind::ProviderManaged))
            ==> structure_error(facts, candidates) == Some(RenderError::TooFewPostures),
        facts.theme_has_icon && sample_error(candidates) is None ==> structure_error(
            facts,
            candidates,
        ) == control_error(facts),
        facts.pin_active ==> control_error(facts) == Some(RenderError::PinControl),
        facts.pin_has_label ==> control_error(facts) == Some(RenderError::PinControl),
        !facts.pin_has_child ==> control_error(facts) == Some(RenderError::PinControl),
        facts.pin_name@ != "d2b-pin-toggle"@ ==> control_error(facts) == Some(
            RenderError::PinControl,
        ),
        facts.icon_name@ != "d2b-pin-icon"@ ==> (control_error(facts) == Some(RenderError::PinIcon)
            || control_error(facts) == Some(RenderError::PinControl)),
{
}

/// An image is uniform exactly if no pixel, of four bytes, differs from the first.
pub proof fn uniform_images_repeat_their_first_pixel(pixels: Seq<u8>)
    requires
        pixels.len() >= 4,
    ensures
        is_uniform(pixels) <==> forall|p: int, part: int|
            #![trigger pixels[4 * p + part]]
            0 <= p && 4 * p + 3 < pixels.len() && 0 <= part < 4 ==> pixels[4 * p + part]
                == pixels[part],
{
    let whole = pixels.len() / 4 * 4;
    if is_uniform(pixels) {
        assert forall|p: int, part: int|
            #![trigger pixels[4 * p + part]]
            0 <= p && 4 * p + 3 < pixels.len() && 0 <= part < 4 implies pixels[4 * p + part]
            == pixels[part] by {
            let i = 4 * p + part;
            assert(i % 4 == part);
            assert(i < whole);
            assert(pixels[i] == pixels[i % 4]);
        }
    }
    if forall|p: int, part: int|
        #![trigger pixels[4 * p + part]]
        0 <= p && 4 * p + 3 < pixels.len() && 0 <= part < 4 ==> pixels[4 * p + part]
            == pixels[part] {
        assert forall|i: int| 0 <= i < whole implies pixels[i] == #[trigger] pixels[i % 4] by {
            let p = i / 4;
            let part = i % 4;
            assert(i == 4 * p + part);
            assert(pixels[4 * p + part] == pixels[part]);
        }
    }
}

/// Two numbers are told with their digits and a cross, the width first.
pub proof fn sizes_are_told_width_first(width: i32, height: i32)
    requires
        width >= 0,
        height >= 0,
    ensures
        size_text(width, height) == text::decimal_digits(width as nat) + "x"@
            + text::decimal_digits(height as nat),
{
}

/// A file that was written is accepted exactly if it is smaller than five megabytes and is a PNG
/// file of 420 by 520 pixels.
pub proof fn written_files_are_checked(bytes: &[u8], r: Result<(), RenderError>)
    requires
        call_ensures(check_png, (bytes,), r),
    ensures
        r is Ok <==> bytes@.len() < 5_242_880 && thumbnail::png_size(bytes@) == Some(
            (420u32, 520u32),
        ),
        bytes@.len() >= 5_242_880 ==> r == Err::<(), RenderError>(RenderError::FileTooLarge),
{
}

/// A picker and its image have to be 420 by 520 pixels large, and an image has to show something.
pub proof fn drawn_sizes_are_checked(
    width: i32,
    height: i32,
    pixels: &[u8],
    allocation: Result<(), RenderError>,
    texture: Result<(), RenderError>,
    shown: Result<(), RenderError>,
)
    requires
        call_ensures(check_allocation, (width, height), allocation),
        call_ensures(check_texture, (width, height), texture),
        call_ensures(check_pixels, (pixels,), shown),
    ensures
        allocation is Ok <==> width == 420 && height == 520,
        texture is Ok <==> width == 420 && height == 520,
        shown is Ok <==> pixels@.len() >= 4 && !is_uniform(pixels@),
{
}

/// A sample is written only to a file with the extension `png`, and not into a directory that is
/// not there.
pub proof fn samples_are_written_to_png_files(
    extension: Option<&str>,
    parent_exists: Option<bool>,
    r: Result<(), RenderError>,
)
    requires
        call_ensures(check_render_output, (extension, parent_exists), r),
    ensures
        extension is None ==> r == Err::<(), RenderError>(RenderError::NotPng),
        extension matches Some(e) ==> e@ != "png"@ ==> r == Err::<(), RenderError>(
            RenderError::NotPng,
        ),
        extension matches Some(e) ==> e@ == "png"@ && parent_exists == Some(false) ==> r == Err::<
            (),
            RenderError,
        >(RenderError::ParentMissing),
        extension matches Some(e) ==> e@ == "png"@ && parent_exists != Some(false) ==> r is Ok,
{
}

} // verus!
