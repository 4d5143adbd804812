//! What the clipboard daemon and the picker say to each other: the values in a request, their
//! bounds, and the frames that the picker may send.

use crate::text;
use vstd::prelude::*;

verus! {

pub const MIN_PROTOCOL_VERSION: u32 = 1;

pub const MAX_PROTOCOL_VERSION: u32 = 2;

/// The longest frame that the picker sends, in bytes.
pub const MAX_PICKER_FRAME_BYTES: usize = 4096;

/// The longest request that the picker reads, in bytes.
pub const MAX_OPEN_REQUEST_BYTES: usize = 23_553_408;

pub const MAX_CANDIDATES: usize = 64;

pub const MAX_METADATA_BYTES: usize = 1024;

pub const MAX_PREVIEW_BYTES: usize = 2048;

pub const MAX_THUMBNAIL_BYTES: usize = 349_528;

pub const MAX_REALM_DISPLAY_ENTRIES: usize = 64;

pub const MAX_CAPABILITY_TOKENS: usize = 64;

pub const MAX_ID_BYTES: usize = 256;

pub const MAX_MIME_TYPE_BYTES: usize = 256;

/// The farthest coordinate and the greatest dimension of a placement, in pixels.
pub const MAX_PLACEMENT_PIXELS: i32 = 1_000_000;

#[derive(Debug, Clone, Copy, PartialEq, Eq, Structural)]
pub enum RealmKind {
    Host,
    Vm,
    UnsafeLocal,
    Unknown,
}

#[derive(Debug, Clone, Copy, PartialEq, Eq, Structural)]
pub enum PresentationProviderKind {
    LocalVm,
    QemuMedia,
    ProviderManaged,
    UnsafeLocal,
    Unknown,
}

#[derive(Debug, Clone, Copy, PartialEq, Eq, Structural)]
pub enum PresentationIsolationPosture {
    VirtualMachine,
    ProviderManaged,
    UnsafeLocal,
    Unknown,
}

#[derive(Debug, Clone, Copy, PartialEq, Eq, Structural)]
pub enum AttributionQuality {
    ExactClient,
    FocusedWindowGuess,
    CacheStaleFocusedWindowGuess,
    BrokerInjectedDebug,
}

impl RealmKind {
    /// Different kinds have different labels.
    pub proof fn labels_are_distinct(a: RealmKind, b: RealmKind)
        requires
            a.spec_label() == b.spec_label(),
        ensures
            a == b,
    {
        reveal_strlit("host");
        assert("host"@.len() == 4);
        reveal_strlit("vm");
        assert("vm"@.len() == 2);
        reveal_strlit("unsafe_local");
        assert("unsafe_local"@.len() == 12);
        reveal_strlit("unknown");
        assert("unknown"@.len() == 7);
    }

    pub open spec fn spec_label(self) -> Seq<char> {
        match self {
            RealmKind::Host => "host"@,
            RealmKind::Vm => "vm"@,
            RealmKind::UnsafeLocal => "unsafe_local"@,
            RealmKind::Unknown => "unknown"@,
        }
    }

    /// The realm kind that a label on the wire names, if it names one.
    pub fn from_label(label: &str) -> (r: Option<RealmKind>)
        ensures
            forall|kind: RealmKind| #[trigger] kind.spec_label() == label@ <==> r == Some(kind),
    {
        proof {
            assert forall|a: RealmKind, b: RealmKind|
                (#[trigger] a.spec_label()) == (#[trigger] b.spec_label()) implies a == b by {
                RealmKind::labels_are_distinct(a, b);
            }
        }
        let r = if text::same_text(label, "host") {
            Some(RealmKind::Host)
        } else if text::same_text(label, "vm") {
            Some(RealmKind::Vm)
        } else if text::same_text(label, "unsafe_local") {
            Some(RealmKind::UnsafeLocal)
        } else if text::same_text(label, "unknown") {
            Some(RealmKind::Unknown)
        } else {
            None
        };
        assert(r matches Some(kind) ==> kind.spec_label() == label@);
        r
    }
}

impl PresentationProviderKind {
    /// Different kinds have different labels.
    pub proof fn labels_are_distinct(a: PresentationProviderKind, b: PresentationProviderKind)
        requires
            a.spec_label() == b.spec_label(),
        ensures
            a == b,
    {
        reveal_strlit("local-vm");
        assert("local-vm"@.len() == 8);
        reveal_strlit("qemu-media");
        assert("qemu-media"@.len() == 10);
        reveal_strlit("provider-managed");
        assert("provider-managed"@.len() == 16);
        reveal_strlit("unsafe-local");
        assert("unsafe-local"@.len() == 12);
        reveal_strlit("unknown");
        assert("unknown"@.len() == 7);
    }

    pub open spec fn spec_label(self) -> Seq<char> {
        match self {
            PresentationProviderKind::LocalVm => "local-vm"@,
            PresentationProviderKind::QemuMedia => "qemu-media"@,
            PresentationProviderKind::ProviderManaged => "provider-managed"@,
            PresentationProviderKind::UnsafeLocal => "unsafe-local"@,
            PresentationProviderKind::Unknown => "unknown"@,
        }
    }

    pub fn label(self) -> (r: &'static str)
        ensures
            r@ == self.spec_label(),
    {
        match self {
            PresentationProviderKind::LocalVm => "local-vm",
            PresentationProviderKind::QemuMedia => "qemu-media",
            PresentationProviderKind::ProviderManaged => "provider-managed",
            PresentationProviderKind::UnsafeLocal => "unsafe-local",
            PresentationProviderKind::Unknown => "unknown",
        }
    }

    pub fn is_unknown(self) -> (r: bool)
        ensures
            r == (self == PresentationProviderKind::Unknown),
    {
        matches!(self, PresentationProviderKind::Unknown)
    }

    /// The provider that a label on the wire names, if it names one.
    pub fn from_label(label: &str) -> (r: Option<PresentationProviderKind>)
        ensures
            forall|kind: PresentationProviderKind| #[trigger] kind.spec_label() == label@ <==> r == Some(kind),
    {
        proof {
            assert forall|a: PresentationProviderKind, b: PresentationProviderKind|
                (#[trigger] a.spec_label()) == (#[trigger] b.spec_label()) implies a == b by {
                PresentationProviderKind::labels_are_distinct(a, b);
            }
        }
        let r = if text::same_text(label, "local-vm") {
            Some(PresentationProviderKind::LocalVm)
        } else if text::same_text(label, "qemu-media") {
            Some(PresentationProviderKind::QemuMedia)
        } else if text::same_text(label, "provider-managed") {
            Some(PresentationProviderKind::ProviderManaged)
        } else if text::same_text(label, "unsafe-local") {
            Some(PresentationProviderKind::UnsafeLocal)
        } else if text::same_text(label, "unknown") {
            Some(PresentationProviderKind::Unknown)
        } else {
            None
        };
        assert(r matches Some(kind) ==> kind.spec_label() == label@);
        r
    }
}

impl PresentationIsolationPosture {
    /// Different kinds have different labels.
    pub proof fn labels_are_distinct(a: PresentationIsolationPosture, b: PresentationIsolationPosture)
        requires
            a.spec_label() == b.spec_label(),
        ensures
            a == b,
    {
        reveal_strlit("virtual-machine");
        assert("virtual-machine"@.len() == 15);
        reveal_strlit("provider-managed");
        assert("provider-managed"@.len() == 16);
        reveal_strlit("unsafe-local");
        assert("unsafe-local"@.len() == 12);
        reveal_strlit("unknown");
        assert("unknown"@.len() == 7);
    }

    pub open spec fn spec_label(self) -> Seq<char> {
        match self {
            PresentationIsolationPosture::VirtualMachine => "virtual-machine"@,
            PresentationIsolationPosture::ProviderManaged => "provider-managed"@,
            PresentationIsolationPosture::UnsafeLocal => "unsafe-local"@,
            PresentationIsolationPosture::Unknown => "unknown"@,
        }
    }

    pub fn label(self) -> (r: &'static str)
        ensures
            r@ == self.spec_label(),
    {
        match self {
            PresentationIsolationPosture::VirtualMachine => "virtual-machine",
            PresentationIsolationPosture::ProviderManaged => "provider-managed",
            PresentationIsolationPosture::UnsafeLocal => "unsafe-local",
            PresentationIsolationPosture::Unknown => "unknown",
        }
    }

    pub fn is_unknown(self) -> (r: bool)
        ensures
            r == (self == PresentationIsolationPosture::Unknown),
    {
        matches!(self, PresentationIsolationPosture::Unknown)
    }

    /// The isolation posture that a label on the wire names, if it names one.
    pub fn from_label(label: &str) -> (r: Option<PresentationIsolationPosture>)
        ensures
            forall|kind: PresentationIsolationPosture| #[trigger] kind.spec_label() == label@ <==> r == Some(kind),
    {
        proof {
            assert forall|a: PresentationIsolationPosture, b: PresentationIsolationPosture|
                (#[trigger] a.spec_label()) == (#[trigger] b.spec_label()) implies a == b by {
                PresentationIsolationPosture::labels_are_distinct(a, b);
            }
        }
        let r = if text::same_text(label, "virtual-machine") {
            Some(PresentationIsolationPosture::VirtualMachine)
        } else if text::same_text(label, "provider-managed") {
            Some(PresentationIsolationPosture::ProviderManaged)
        } else if text::same_text(label, "unsafe-local") {
            Some(PresentationIsolationPosture::UnsafeLocal)
        } else if text::same_text(label, "unknown") {
            Some(PresentationIsolationPosture::Unknown)
        } else {
            None
        };
        assert(r matches Some(kind) ==> kind.spec_label() == label@);
        r
    }
}

impl AttributionQuality {
    /// Different qualities have different labels.
    pub proof fn labels_are_distinct(a: AttributionQuality, b: AttributionQuality)
        requires
            a.spec_label() == b.spec_label(),
        ensures
            a == b,
    {
        reveal_strlit("exact_client");
        assert("exact_client"@.len() == 12);
        reveal_strlit("focused_window_guess");
        assert("focused_window_guess"@.len() == 20);
        reveal_strlit("cache_stale_focused_window_guess");
        assert("cache_stale_focused_window_guess"@.len() == 32);
        reveal_strlit("broker_injected_debug");
        assert("broker_injected_debug"@.len() == 21);
    }

    pub open spec fn spec_label(self) -> Seq<char> {
        match self {
            AttributionQuality::ExactClient => "exact_client"@,
            AttributionQuality::FocusedWindowGuess => "focused_window_guess"@,
            AttributionQuality::CacheStaleFocusedWindowGuess => {
                "cache_stale_focused_window_guess"@
            },
            AttributionQuality::BrokerInjectedDebug => "broker_injected_debug"@,
        }
    }

    /// The quality that a label on the wire names, if it names one.
    pub fn from_label(label: &str) -> (r: Option<AttributionQuality>)
        ensures
            forall|quality: AttributionQuality| #[trigger]
                quality.spec_label() == label@ <==> r == Some(quality),
    {
        proof {
            assert forall|a: AttributionQuality, b: AttributionQuality|
                (#[trigger] a.spec_label()) == (#[trigger] b.spec_label()) implies a == b by {
                AttributionQuality::labels_are_distinct(a, b);
            }
        }
        let r = if text::same_text(label, "exact_client") {
            Some(AttributionQuality::ExactClient)
        } else if text::same_text(label, "focused_window_guess") {
            Some(AttributionQuality::FocusedWindowGuess)
        } else if text::same_text(label, "cache_stale_focused_window_guess") {
            Some(AttributionQuality::CacheStaleFocusedWindowGuess)
        } else if text::same_text(label, "broker_injected_debug") {
            Some(AttributionQuality::BrokerInjectedDebug)
        } else {
            None
        };
        assert(r matches Some(quality) ==> quality.spec_label() == label@);
        r
    }
}

/// What the daemon found out about the clipboard capabilities of an endpoint: lists of tokens.
/// The picker bounds them and makes no other use of them.
#[derive(Clone)]
pub struct CapabilityPreflight {
    pub lists: Vec<Vec<String>>,
}

#[derive(Clone)]
pub struct DestinationMetadata {
    pub realm: String,
    pub realm_kind: RealmKind,
    pub canonical_target: Option<String>,
    pub provider_kind: PresentationProviderKind,
    pub isolation_posture: PresentationIsolationPosture,
    pub application: Option<String>,
    pub app_id: Option<String>,
    pub title: Option<String>,
    pub workspace: Option<String>,
    pub output: Option<String>,
    pub attribution: Option<AttributionQuality>,
    pub capability_preflight: Option<CapabilityPreflight>,
}

#[derive(Clone)]
pub struct Candidate {
    pub entry_id: String,
    pub source_realm: String,
    pub source_realm_kind: RealmKind,
    pub source_canonical_target: Option<String>,
    pub source_provider_kind: PresentationProviderKind,
    pub source_isolation_posture: PresentationIsolationPosture,
    pub source_app: Option<String>,
    pub source_app_id: Option<String>,
    pub source_attribution: AttributionQuality,
    pub preview_text: Option<String>,
    pub content_type: String,
    pub timestamp_unix_ms: Option<u64>,
    pub thumbnail_png_base64: Option<String>,
    pub byte_count: Option<u64>,
    pub confirmation_required: bool,
    pub capability_preflight: Option<CapabilityPreflight>,
}

/// Where the daemon would like the picker to stand. Coordinates are whole pixels.
#[derive(Clone)]
pub struct PlacementHints {
    pub pointer_x: Option<i32>,
    pub pointer_y: Option<i32>,
    pub output_width: Option<i32>,
    pub output_height: Option<i32>,
    pub overlay_width: Option<i32>,
    pub overlay_height: Option<i32>,
    pub output: Option<String>,
}

/// How a realm is shown.
#[derive(Clone)]
pub struct RealmDisplayMetadata {
    pub color: Option<String>,
}

/// How the realms of a request are shown: for each realm that the daemon speaks of, its color or
/// that it has none. A realm occurs once.
pub struct RealmDisplay {
    entries: Vec<(String, RealmDisplayMetadata)>,
}

/// The text of an optional string.
pub open spec fn optional_text(s: Option<String>) -> Option<Seq<char>> {
    match s {
        Some(t) => Some(t@),
        None => None,
    }
}

spec fn realm_names(entries: Seq<(String, RealmDisplayMetadata)>) -> Seq<Seq<char>> {
    entries.map_values(|e: (String, RealmDisplayMetadata)| e.0@)
}

impl View for RealmDisplay {
    type V = Map<Seq<char>, Option<Seq<char>>>;

    closed spec fn view(&self) -> Map<Seq<char>, Option<Seq<char>>> {
        let names = realm_names(self.entries@);
        Map::new(
            |realm: Seq<char>| names.contains(realm),
            |realm: Seq<char>| optional_text(self.entries@[names.index_of(realm)].1.color),
        )
    }
}

impl Clone for RealmDisplay {
    fn clone(&self) -> (r: RealmDisplay)
        ensures
            r@ == self@,
    {
        proof {
            use_type_invariant(self);
        }
        let mut entries: Vec<(String, RealmDisplayMetadata)> = Vec::new();
        let mut i: usize = 0;
        while i < self.entries.len()
            invariant
                i <= self.entries@.len(),
                entries@ == self.entries@.take(i as int),
            decreases self.entries.len() - i,
        {
            let entry = &self.entries[i];
            let color = match &entry.1.color {
                Some(color) => Some(color.clone()),
                None => None,
            };
            entries.push((entry.0.clone(), RealmDisplayMetadata { color }));
            assert(entries@.last() == self.entries@[i as int]);
            i = i + 1;
            assert(entries@ =~= self.entries@.take(i as int));
        }
        assert(entries@ =~= self.entries@);
        RealmDisplay { entries }
    }
}

impl Default for RealmDisplay {
    fn default() -> (r: RealmDisplay)
        ensures
            r@ == Map::<Seq<char>, Option<Seq<char>>>::empty(),
    {
        RealmDisplay::new()
    }
}

impl RealmDisplay {
    #[verifier::type_invariant]
    spec fn each_realm_once(&self) -> bool {
        realm_names(self.entries@).no_duplicates()
    }

    pub fn new() -> (r: RealmDisplay)
        ensures
            r@ == Map::<Seq<char>, Option<Seq<char>>>::empty(),
    {
        let r = RealmDisplay { entries: Vec::new() };
        assert(r@ =~= Map::empty());
        r
    }

    /// Where a realm stands among the entries, or their number if it does not.
    fn place(&self, realm: &str) -> (r: usize)
        ensures
            r <= self.entries@.len(),
            r < self.entries@.len() ==> self.entries@[r as int].0@ == realm@,
            forall|i: int| 0 <= i < r ==> (#[trigger] self.entries@[i]).0@ != realm@,
    {
        let mut i: usize = 0;
        while i < self.entries.len()
            invariant
                i <= self.entries@.len(),
                forall|j: int| 0 <= j < i ==> (#[trigger] self.entries@[j]).0@ != realm@,
            decreases self.entries.len() - i,
        {
            if text::same_text(self.entries[i].0.as_str(), realm) {
                return i;
            }
            i = i + 1;
        }
        i
    }

    /// Gives a realm its metadata, in place of what it had.
    pub fn insert(&mut self, realm: String, metadata: RealmDisplayMetadata)
        ensures
            final(self)@ == old(self)@.insert(realm@, optional_text(metadata.color)),
    {
        proof {
            use_type_invariant(&*self);
        }
        let at: usize = self.place(realm.as_str());
        let ghost before = *self;
        let ghost old_names = realm_names(self.entries@);
        let ghost name = realm@;
        let ghost color = optional_text(metadata.color);
        let mut entries: Vec<(String, RealmDisplayMetadata)> = Vec::new();
        std::mem::swap(&mut entries, &mut self.entries);
        if at < entries.len() {
            assert(old_names[at as int] == name);
            entries[at] = (realm, metadata);
            assert(realm_names(entries@) =~= old_names);
        } else {
            entries.push((realm, metadata));
            assert(realm_names(entries@) =~= old_names.push(name));
            assert forall|i: int| 0 <= i < old_names.len() implies old_names[i] != name by {
                assert(before.entries@[i].0@ != name);
            }
        }
        self.entries = entries;
        proof {
            let names = realm_names(self.entries@);
            assert(names.no_duplicates());
            assert(names[at as int] == name);
            assert forall|r: Seq<char>| old_names.contains(r) implies names.contains(r) && old_names.index_of(
                r,
            ) == names.index_of(r) by {
                let i = old_names.index_of(r);
                assert(old_names[i] == r);
                assert(names[i] == r);
            }
            assert forall|r: Seq<char>| names.contains(r) && r != name implies old_names.contains(r) by {
                let i = names.index_of(r);
                assert(names[i] == r);
                assert(old_names[i] == r);
            }
            assert(self@ =~= before@.insert(name, color));
        }
    }

    /// The color of a realm, where the daemon gave it one.
    pub fn color(&self, realm: &str) -> (r: Option<&String>)
        ensures
            r matches Some(color) ==> self@.dom().contains(realm@) && self@[realm@] == Some(color@),
            r is None ==> !self@.dom().contains(realm@) || self@[realm@] is None,
    {
        proof {
            use_type_invariant(self);
        }
        let at: usize = self.place(realm);
        let ghost names = realm_names(self.entries@);
        if at < self.entries.len() {
            assert(names[at as int] == realm@);
            assert(names.contains(realm@));
            assert(names.index_of(realm@) == at);
            match &self.entries[at].1.color {
                Some(color) => Some(color),
                None => None,
            }
        } else {
            assert(!names.contains(realm@));
            None
        }
    }

    /// The number of realms.
    pub fn len(&self) -> (r: usize)
        ensures
            r == self@.dom().len(),
            self@.dom().finite(),
    {
        proof {
            use_type_invariant(self);
            let names = realm_names(self.entries@);
            names.unique_seq_to_set();
            assert(self@.dom() =~= names.to_set());
        }
        self.entries.len()
    }
}

/// A request to show the picker: who pastes, and what may be pasted.
#[derive(Clone)]
pub struct OpenRequest {
    pub selected_protocol_version: u32,
    pub clipd_version: String,
    pub picker_version: String,
    pub request_id: String,
    pub destination: DestinationMetadata,
    pub requested_mime_type: String,
    pub expires_at_unix_ms: Option<u64>,
    pub placement_hints: Option<PlacementHints>,
    pub candidates: Vec<Candidate>,
    pub realm_display: RealmDisplay,
}

/// Why a request is not answered with a picker.
#[derive(Debug, Clone, Copy, PartialEq, Eq, Structural)]
pub enum RequestError {
    /// The daemon selected a protocol version that the picker did not offer.
    UnsupportedVersion,
    /// Something in the request is longer or farther out than it may be, or holds a NUL.
    OutOfBounds,
}

/// A text of at most `max` bytes that holds no NUL.
pub open spec fn bounded_text(s: Seq<char>, max: usize) -> bool {
    vstd::utf8::encode_utf8(s).len() <= max && !s.contains('\0')
}

pub open spec fn bounded_option(s: Option<String>, max: usize) -> bool {
    s matches Some(t) ==> bounded_text(t@, max)
}

pub open spec fn bounded_tokens(tokens: Seq<String>) -> bool {
    &&& tokens.len() <= MAX_CAPABILITY_TOKENS
    &&& forall|i: int|
        0 <= i < tokens.len() ==> bounded_text((#[trigger] tokens[i])@, MAX_METADATA_BYTES)
}

pub open spec fn bounded_preflight(p: Option<CapabilityPreflight>) -> bool {
    p matches Some(preflight) ==> forall|i: int|
        0 <= i < preflight.lists@.len() ==> bounded_tokens((#[trigger] preflight.lists@[i])@)
}

pub open spec fn bounded_dimension(d: Option<i32>) -> bool {
    d matches Some(n) ==> 1 <= n <= MAX_PLACEMENT_PIXELS
}

pub open spec fn bounded_coordinate(c: Option<i32>) -> bool {
    c matches Some(n) ==> -MAX_PLACEMENT_PIXELS <= n <= MAX_PLACEMENT_PIXELS
}

impl PlacementHints {
    pub open spec fn bounded(&self) -> bool {
        &&& bounded_coordinate(self.pointer_x)
        &&& bounded_coordinate(self.pointer_y)
        &&& bounded_dimension(self.output_width)
        &&& bounded_dimension(self.output_height)
        &&& bounded_dimension(self.overlay_width)
        &&& bounded_dimension(self.overlay_height)
        &&& bounded_option(self.output, MAX_METADATA_BYTES)
    }
}

impl DestinationMetadata {
    pub open spec fn bounded(&self) -> bool {
        &&& bounded_text(self.realm@, MAX_METADATA_BYTES)
        &&& bounded_option(self.canonical_target, MAX_METADATA_BYTES)
        &&& bounded_option(self.application, MAX_METADATA_BYTES)
        &&& bounded_option(self.app_id, MAX_METADATA_BYTES)
        &&& bounded_option(self.title, MAX_METADATA_BYTES)
        &&& bounded_option(self.workspace, MAX_METADATA_BYTES)
        &&& bounded_option(self.output, MAX_METADATA_BYTES)
        &&& bounded_preflight(self.capability_preflight)
    }
}

impl Candidate {
    pub open spec fn bounded(&self) -> bool {
        &&& bounded_text(self.entry_id@, MAX_ID_BYTES)
        &&& bounded_text(self.source_realm@, MAX_METADATA_BYTES)
        &&& bounded_option(self.source_canonical_target, MAX_METADATA_BYTES)
        &&& bounded_option(self.source_app, MAX_METADATA_BYTES)
        &&& bounded_option(self.source_app_id, MAX_METADATA_BYTES)
        &&& bounded_option(self.preview_text, MAX_PREVIEW_BYTES)
        &&& bounded_text(self.content_type@, MAX_MIME_TYPE_BYTES)
        &&& bounded_option(self.thumbnail_png_base64, MAX_THUMBNAIL_BYTES)
        &&& bounded_preflight(self.capability_preflight)
    }
}

impl OpenRequest {
    /// Whether the version that the daemon selected is one that the picker offers.
    pub open spec fn version_supported(&self) -> bool {
        MIN_PROTOCOL_VERSION <= self.selected_protocol_version <= MAX_PROTOCOL_VERSION
    }

    /// Whether everything in the request keeps to its bounds.
    pub open spec fn bounded(&self) -> bool {
        &&& bounded_text(self.clipd_version@, MAX_METADATA_BYTES)
        &&& bounded_text(self.picker_version@, MAX_METADATA_BYTES)
        &&& bounded_text(self.request_id@, MAX_ID_BYTES)
        &&& self.destination.bounded()
        &&& bounded_text(self.requested_mime_type@, MAX_MIME_TYPE_BYTES)
        &&& (self.placement_hints matches Some(hints) ==> hints.bounded())
        &&& self.candidates@.len() <= MAX_CANDIDATES
        &&& forall|i: int|
            0 <= i < self.candidates@.len() ==> (#[trigger] self.candidates@[i]).bounded()
        &&& self.realm_display@.dom().len() <= MAX_REALM_DISPLAY_ENTRIES
        &&& forall|realm: Seq<char>| #[trigger]
            self.realm_display@.dom().contains(realm) ==> {
                &&& bounded_text(realm, MAX_METADATA_BYTES)
                &&& self.realm_display@[realm] matches Some(color) ==> bounded_text(
                    color,
                    MAX_METADATA_BYTES,
                )
            }
    }

    pub open spec fn valid(&self) -> bool {
        self.version_supported() && self.bounded()
    }

    /// Whether a picker may be opened for the request, and if not, why.
    pub fn validate(&self) -> (r: Result<(), RequestError>)
        ensures
            r is Ok <==> self.valid(),
            r == Err::<(), RequestError>(RequestError::UnsupportedVersion)
                <==> !self.version_supported(),
            r == Err::<(), RequestError>(RequestError::OutOfBounds) <==> self.version_supported()
                && !self.bounded(),
    {
        if self.selected_protocol_version < MIN_PROTOCOL_VERSION || self.selected_protocol_version
            > MAX_PROTOCOL_VERSION {
            return Err(RequestError::UnsupportedVersion);
        }
        let hints_bounded: bool = match &self.placement_hints {
            Some(hints) => hints.is_bounded(),
            None => true,
        };
        if hints_bounded && text_is_bounded(self.clipd_version.as_str(), MAX_METADATA_BYTES)
            && text_is_bounded(self.picker_version.as_str(), MAX_METADATA_BYTES)
            && text_is_bounded(self.request_id.as_str(), MAX_ID_BYTES)
            && self.destination.is_bounded() && text_is_bounded(
            self.requested_mime_type.as_str(),
            MAX_MIME_TYPE_BYTES,
        ) && candidates_are_bounded(&self.candidates) && self.realm_display.is_bounded() {
            Ok(())
        } else {
            Err(RequestError::OutOfBounds)
        }
    }
}

fn text_is_bounded(s: &str, max: usize) -> (r: bool)
    ensures
        r == bounded_text(s@, max),
{
    if s.as_bytes().len() > max {
        return false;
    }
    let chars = text::chars_of(s);
    let at: usize = text::find_char(chars.as_slice(), '\0');
    proof {
        text::first_place_is_first(s@, '\0');
        if at < chars@.len() {
            assert(s@[at as int] == '\0');
        }
    }
    at == chars.len()
}

fn option_is_bounded(s: &Option<String>, max: usize) -> (r: bool)
    ensures
        r == bounded_option(*s, max),
{
    match s {
        Some(t) => text_is_bounded(t.as_str(), max),
        None => true,
    }
}

fn tokens_are_bounded(tokens: &Vec<String>) -> (r: bool)
    ensures
        r == bounded_tokens(tokens@),
{
    if tokens.len() > MAX_CAPABILITY_TOKENS {
        return false;
    }
    let mut i: usize = 0;
    while i < tokens.len()
        invariant
            i <= tokens@.len(),
            forall|j: int|
                0 <= j < i ==> bounded_text((#[trigger] tokens@[j])@, MAX_METADATA_BYTES),
        decreases tokens.len() - i,
    {
        if !text_is_bounded(tokens[i].as_str(), MAX_METADATA_BYTES) {
            return false;
        }
        i = i + 1;
    }
    true
}

fn preflight_is_bounded(preflight: &Option<CapabilityPreflight>) -> (r: bool)
    ensures
        r == bounded_preflight(*preflight),
{
    match preflight {
        Some(p) => lists_are_bounded(&p.lists),
        None => true,
    }
}

fn lists_are_bounded(lists: &Vec<Vec<String>>) -> (r: bool)
    ensures
        r == forall|i: int| 0 <= i < lists@.len() ==> bounded_tokens((#[trigger] lists@[i])@),
{
    let mut i: usize = 0;
    while i < lists.len()
        invariant
            i <= lists@.len(),
            forall|j: int| 0 <= j < i ==> bounded_tokens((#[trigger] lists@[j])@),
        decreases lists.len() - i,
    {
        if !tokens_are_bounded(&lists[i]) {
            return false;
        }
        i = i + 1;
    }
    true
}

fn dimension_is_bounded(d: Option<i32>) -> (r: bool)
    ensures
        r == bounded_dimension(d),
{
    match d {
        Some(n) => 1 <= n && n <= MAX_PLACEMENT_PIXELS,
        None => true,
    }
}

fn coordinate_is_bounded(c: Option<i32>) -> (r: bool)
    ensures
        r == bounded_coordinate(c),
{
    match c {
        Some(n) => -MAX_PLACEMENT_PIXELS <= n && n <= MAX_PLACEMENT_PIXELS,
        None => true,
    }
}

fn candidates_are_bounded(candidates: &Vec<Candidate>) -> (r: bool)
    ensures
        r == (candidates@.len() <= MAX_CANDIDATES && forall|i: int|
            0 <= i < candidates@.len() ==> (#[trigger] candidates@[i]).bounded()),
{
    if candidates.len() > MAX_CANDIDATES {
        return false;
    }
    let mut i: usize = 0;
    while i < candidates.len()
        invariant
            i <= candidates@.len(),
            forall|j: int| 0 <= j < i ==> (#[trigger] candidates@[j]).bounded(),
        decreases candidates.len() - i,
    {
        if !candidates[i].is_bounded() {
            return false;
        }
        i = i + 1;
    }
    true
}

impl PlacementHints {
    fn is_bounded(&self) -> (r: bool)
        ensures
            r == self.bounded(),
    {
        coordinate_is_bounded(self.pointer_x) && coordinate_is_bounded(self.pointer_y)
            && dimension_is_bounded(self.output_width) && dimension_is_bounded(self.output_height)
            && dimension_is_bounded(self.overlay_width) && dimension_is_bounded(
            self.overlay_height,
        ) && option_is_bounded(&self.output, MAX_METADATA_BYTES)
    }
}

impl DestinationMetadata {
    fn is_bounded(&self) -> (r: bool)
        ensures
            r == self.bounded(),
    {
        text_is_bounded(self.realm.as_str(), MAX_METADATA_BYTES) && option_is_bounded(
            &self.canonical_target,
            MAX_METADATA_BYTES,
        ) && option_is_bounded(&self.application, MAX_METADATA_BYTES) && option_is_bounded(
            &self.app_id,
            MAX_METADATA_BYTES,
        ) && option_is_bounded(&self.title, MAX_METADATA_BYTES) && option_is_bounded(
            &self.workspace,
            MAX_METADATA_BYTES,
        ) && option_is_bounded(&self.output, MAX_METADATA_BYTES) && preflight_is_bounded(
            &self.capability_preflight,
        )
    }
}

impl Candidate {
    fn is_bounded(&self) -> (r: bool)
        ensures
            r == self.bounded(),
    {
        text_is_bounded(self.entry_id.as_str(), MAX_ID_BYTES) && text_is_bounded(
            self.source_realm.as_str(),
            MAX_METADATA_BYTES,
        ) && option_is_bounded(&self.source_canonical_target, MAX_METADATA_BYTES)
            && option_is_bounded(&self.source_app, MAX_METADATA_BYTES) && option_is_bounded(
            &self.source_app_id,
            MAX_METADATA_BYTES,
        ) && option_is_bounded(&self.preview_text, MAX_PREVIEW_BYTES) && text_is_bounded(
            self.content_type.as_str(),
            MAX_MIME_TYPE_BYTES,
        ) && option_is_bounded(&self.thumbnail_png_base64, MAX_THUMBNAIL_BYTES)
            && preflight_is_bounded(&self.capability_preflight)
    }
}

impl RealmDisplay {
    fn is_bounded(&self) -> (r: bool)
        ensures
            r == (self@.dom().len() <= MAX_REALM_DISPLAY_ENTRIES && forall|realm: Seq<char>| #[trigger]
                self@.dom().contains(realm) ==> {
                    &&& bounded_text(realm, MAX_METADATA_BYTES)
                    &&& self@[realm] matches Some(color) ==> bounded_text(color, MAX_METADATA_BYTES)
                }),
    {
        proof {
            use_type_invariant(self);
        }
        if self.len() > MAX_REALM_DISPLAY_ENTRIES {
            return false;
        }
        let ghost names = realm_names(self.entries@);
        let mut i: usize = 0;
        while i < self.entries.len()
            invariant
                i <= self.entries@.len(),
                names == realm_names(self.entries@),
                names.no_duplicates(),
                forall|j: int|
                    0 <= j < i ==> bounded_text((#[trigger] self.entries@[j]).0@, MAX_METADATA_BYTES)
                        && bounded_option(self.entries@[j].1.color, MAX_METADATA_BYTES),
            decreases self.entries.len() - i,
        {
            let entry = &self.entries[i];
            if !text_is_bounded(entry.0.as_str(), MAX_METADATA_BYTES) || !option_is_bounded(
                &entry.1.color,
                MAX_METADATA_BYTES,
            ) {
                proof {
                    assert(names[i as int] == entry.0@);
                    assert(names.contains(entry.0@));
                    assert(names.index_of(entry.0@) == i);
                    assert(self@.dom().contains(entry.0@));
                }
                return false;
            }
            i = i + 1;
        }
        proof {
            assert forall|realm: Seq<char>| #[trigger] self@.dom().contains(realm) implies {
                &&& bounded_text(realm, MAX_METADATA_BYTES)
                &&& self@[realm] matches Some(color) ==> bounded_text(color, MAX_METADATA_BYTES)
            } by {
                let k = names.index_of(realm);
                assert(names[k] == realm);
                assert(self.entries@[k].0@ == realm);
            }
        }
        true
    }
}

/// What the daemon sends.
pub enum ClipdFrame {
    OpenRequest(Box<OpenRequest>),
    Close {
        selected_protocol_version: Option<u32>,
        request_id: Option<String>,
        code: Option<String>,
    },
    Error { selected_protocol_version: Option<u32>, request_id: Option<String>, code: String },
}

/// What the picker does about the first frame from the daemon.
pub enum Opening {
    /// Show a picker for this request.
    Show(Box<OpenRequest>),
    /// Leave without a picker, as the daemon asked for.
    Quit,
    /// Fail: the request is not one that a picker can be shown for.
    Unacceptable(RequestError),
    /// Fail with this message: the daemon refused.
    Refused(String),
}

/// Decides about the first frame from the daemon.
pub fn opening(frame: ClipdFrame) -> (r: Opening)
    ensures
        match frame {
            ClipdFrame::OpenRequest(request) => if request.valid() {
                r == Opening::Show(request)
            } else if !request.version_supported() {
                r == Opening::Unacceptable(RequestError::UnsupportedVersion)
            } else {
                r == Opening::Unacceptable(RequestError::OutOfBounds)
            },
            ClipdFrame::Close { .. } => r == Opening::Quit,
            ClipdFrame::Error { code, .. } => r matches Opening::Refused(message) && message@
                == "clipd rejected picker request: "@ + code@,
        },
{
    match frame {
        ClipdFrame::OpenRequest(request) => match request.validate() {
            Ok(()) => Opening::Show(request),
            Err(error) => Opening::Unacceptable(error),
        },
        ClipdFrame::Close { .. } => Opening::Quit,
        ClipdFrame::Error { code, .. } => {
            let mut message: String = "clipd rejected picker request: ".to_owned();
            message.append(code.as_str());
            Opening::Refused(message)
        },
    }
}

/// All that the picker may send: that it is there, and one choice or one refusal.
pub enum PickerFrame {
    ClientHello { min_version: u32, max_version: u32, picker_version: String },
    Select { selected_protocol_version: u32, request_id: String, entry_id: String },
    Cancel { selected_protocol_version: u32, request_id: String },
}

/// The frame with which the picker starts a connection.
pub fn client_hello() -> (r: PickerFrame)
    ensures
        r matches PickerFrame::ClientHello { min_version, max_version, picker_version }
            && min_version == MIN_PROTOCOL_VERSION && max_version == MAX_PROTOCOL_VERSION
            && picker_version@ == crate::VERSION@,
{
    PickerFrame::ClientHello {
        min_version: MIN_PROTOCOL_VERSION,
        max_version: MAX_PROTOCOL_VERSION,
        picker_version: crate::VERSION.to_owned(),
    }
}

impl OpenRequest {
    /// Whether a frame chooses this entry in answer to this request, in the version that was
    /// selected for it.
    pub open spec fn selects(&self, frame: PickerFrame, entry_id: Seq<char>) -> bool {
        frame matches PickerFrame::Select {
            selected_protocol_version,
            request_id,
            entry_id: chosen,
        } && selected_protocol_version == self.selected_protocol_version && request_id@
            == self.request_id@ && chosen@ == entry_id
    }

    /// Whether a frame refuses this request, in the version that was selected for it.
    pub open spec fn cancels(&self, frame: PickerFrame) -> bool {
        frame matches PickerFrame::Cancel { selected_protocol_version, request_id }
            && selected_protocol_version == self.selected_protocol_version && request_id@
            == self.request_id@
    }

    pub fn select_frame(&self, entry_id: &str) -> (r: PickerFrame)
        ensures
            self.selects(r, entry_id@),
    {
        PickerFrame::Select {
            selected_protocol_version: self.selected_protocol_version,
            request_id: self.request_id.clone(),
            entry_id: entry_id.to_owned(),
        }
    }

    pub fn cancel_frame(&self) -> (r: PickerFrame)
        ensures
            self.cancels(r),
    {
        PickerFrame::Cancel {
            selected_protocol_version: self.selected_protocol_version,
            request_id: self.request_id.clone(),
        }
    }
}

/// What the bytes that were read so far hold of a line.
#[derive(Debug, Clone, Copy, PartialEq, Eq, Structural)]
pub enum Line {
    /// The line has not ended yet.
    Incomplete,
    /// The line takes this many bytes, its end with them.
    Complete(usize),
    /// The line is longer than it may be.
    TooLong,
}

/// How many bytes a line takes, its end with them, if it ends.
pub open spec fn line_length(bytes: Seq<u8>) -> Option<nat>
    decreases bytes.len(),
{
    if bytes.len() == 0 {
        None
    } else if bytes[0] == 10 {
        Some(1)
    } else {
        match line_length(bytes.drop_first()) {
            Some(n) => Some(n + 1),
            None => None,
        }
    }
}

/// Looks for the end of a line of at most `max` bytes.
pub fn find_line(bytes: &[u8], max: usize) -> (r: Line)
    ensures
        r == (match line_length(bytes@) {
            Some(n) => if n <= max {
                Line::Complete(n as usize)
            } else {
                Line::TooLong
            },
            None => if bytes@.len() < max {
                Line::Incomplete
            } else {
                Line::TooLong
            },
        }),
{
    let mut i: usize = 0;
    assert(bytes@.skip(0) =~= bytes@);
    while i < bytes.len()
        invariant
            i <= bytes@.len(),
            i <= max,
            line_length(bytes@) == (match line_length(bytes@.skip(i as int)) {
                Some(n) => Some(n + i as nat),
                None => None,
            }),
        decreases bytes.len() - i,
    {
        if i >= max {
            return Line::TooLong;
        }
        assert(bytes@.skip(i as int).drop_first() =~= bytes@.skip(i + 1));
        if bytes[i] == 10 {
            return Line::Complete(i + 1);
        }
        i = i + 1;
    }
    if i >= max {
        Line::TooLong
    } else {
        Line::Incomplete
    }
}

/// The line in which a frame is sent, unless it is longer than the picker may send.
pub fn picker_line(frame: String) -> (r: Option<String>)
    ensures
        r is Some <==> vstd::utf8::encode_utf8(frame@).len() + 1 <= MAX_PICKER_FRAME_BYTES,
        r matches Some(line) ==> line@ == frame@.push('\n'),
{
    if frame.as_str().as_bytes().len() >= MAX_PICKER_FRAME_BYTES {
        return None;
    }
    let mut line = frame;
    line.push('\n');
    Some(line)
}

proof fn only_a_line_feed_is_encoded_as_one(c: char)
    requires
        c != '\n',
    ensures
        !vstd::utf8::encode_scalar(c as u32).contains(10u8),
{
    let v = c as u32;
    assert(vstd::utf8::is_scalar(v));
    assert(v <= 0x7f && v != 10 ==> (v & 0x7f) as u8 != 10) by (bit_vector);
    assert(0xC0 | ((v >> 6) & 0x1F) as u8 != 10) by (bit_vector);
    assert(0xE0 | ((v >> 12) & 0x0F) as u8 != 10) by (bit_vector);
    assert(0xF0 | ((v >> 18) & 0x7) as u8 != 10) by (bit_vector);
    assert(0x80 | (v & 0x3F) as u8 != 10) by (bit_vector);
    assert(0x80 | ((v >> 6) & 0x3F) as u8 != 10) by (bit_vector);
    assert(0x80 | ((v >> 12) & 0x3F) as u8 != 10) by (bit_vector);
}

proof fn a_line_ends_at_its_line_feed(front: Seq<u8>, back: Seq<u8>)
    requires
        !front.contains(10u8),
        back.len() > 0,
    ensures
        line_length(front + back) == (match line_length(back) {
            Some(n) => Some(n + front.len()),
            None => None,
        }),
    decreases front.len(),
{
    if front.len() == 0 {
        assert(front + back =~= back);
    } else {
        assert(front[0] != 10);
        assert forall|b: u8| front.drop_first().contains(b) implies front.contains(b) by {
            let i = choose|i: int| 0 <= i < front.drop_first().len() && front.drop_first()[i] == b;
            assert(front[i + 1] == b);
        }
        assert((front + back).drop_first() =~= front.drop_first() + back);
        a_line_ends_at_its_line_feed(front.drop_first(), back);
    }
}

/// A frame that holds no line feed is read back as it was written: the line ends where the frame
/// does, whatever follows it.
pub proof fn written_line_is_read_back(frame: Seq<char>, rest: Seq<u8>)
    requires
        !frame.contains('\n'),
    ensures
        line_length(vstd::utf8::encode_utf8(frame.push('\n')) + rest) == Some(
            vstd::utf8::encode_utf8(frame.push('\n')).len(),
        ),
    decreases frame.len(),
{
    let line = frame.push('\n');
    let bytes = vstd::utf8::encode_utf8(line);
    let first = vstd::utf8::encode_scalar(line[0] as u32);
    let others = vstd::utf8::encode_utf8(line.drop_first());
    assert(bytes == first + others);
    if frame.len() == 0 {
        assert(line.drop_first().len() == 0);
        assert((10u32 & 0x7f) as u8 == 10) by (bit_vector);
        assert(first =~= seq![10u8]);
        assert(bytes =~= seq![10u8]);
        assert((bytes + rest)[0] == 10);
    } else {
        let shorter = frame.drop_first();
        assert(line.drop_first() =~= shorter.push('\n'));
        assert forall|c: char| shorter.contains(c) implies frame.contains(c) by {
            let i = choose|i: int| 0 <= i < shorter.len() && shorter[i] == c;
            assert(frame[i + 1] == c);
        }
        assert(frame.contains(frame[0]));
        only_a_line_feed_is_encoded_as_one(frame[0]);
        written_line_is_read_back(shorter, rest);
        assert(bytes + rest =~= first + (others + rest));
        a_line_ends_at_its_line_feed(first, others + rest);
    }
}

/// A text as a label may show it: its first characters, with a space for each control character.
pub open spec fn sanitized(s: Seq<char>, max_chars: nat) -> Seq<char> {
    let shown = if s.len() <= max_chars {
        s
    } else {
        s.take(max_chars as int)
    };
    shown.map_values(
        |c: char|
            if text::is_control_char(c) {
                ' '
            } else {
                c
            },
    )
}

/// Makes a text fit for a label.
pub fn sanitize_preview(value: &str, max_chars: usize) -> (r: String)
    ensures
        r@ == sanitized(value@, max_chars as nat),
{
    let chars = text::chars_of(value);
    let mut r: String = String::new();
    let mut i: usize = 0;
    while i < chars.len() && i < max_chars
        invariant
            i <= chars@.len(),
            i <= max_chars,
            chars@ == value@,
            r@.len() == i,
            forall|j: int|
                0 <= j < i ==> #[trigger] r@[j] == (if text::is_control_char(chars@[j]) {
                    ' '
                } else {
                    chars@[j]
                }),
        decreases chars.len() - i,
    {
        if text::is_control(chars[i]) {
            r.push(' ');
        } else {
            r.push(chars[i]);
        }
        i = i + 1;
    }
    assert(r@ =~= sanitized(value@, max_chars as nat));
    r
}

/// What a label shows of a text without control characters that is short enough is the text.
pub proof fn plain_text_is_shown_unchanged(s: Seq<char>, max_chars: nat)
    requires
        s.len() <= max_chars,
        forall|i: int| 0 <= i < s.len() ==> !text::is_control_char(#[trigger] s[i]),
    ensures
        sanitized(s, max_chars) == s,
{
    assert(sanitized(s, max_chars) =~= s);
}

/// A shown text is short and holds no control character, and showing it again changes nothing.
pub proof fn shown_text_is_safe(s: Seq<char>, max_chars: nat)
    ensures
        sanitized(s, max_chars).len() <= max_chars,
        forall|i: int|
            0 <= i < sanitized(s, max_chars).len() ==> !text::is_control_char(
                #[trigger] sanitized(s, max_chars)[i],
            ),
        sanitized(sanitized(s, max_chars), max_chars) == sanitized(s, max_chars),
{
    plain_text_is_shown_unchanged(sanitized(s, max_chars), max_chars);
}

/// What kind of content a label names for a MIME type, and the sign that goes with it.
pub open spec fn content_kind(mime_type: Seq<char>) -> (Seq<char>, Seq<char>) {
    if mime_type.len() >= 6 && mime_type.take(6) == "image/"@ {
        ("Image"@, "\u{1f5bc}"@)
    } else if mime_type.len() >= 5 && mime_type.take(5) == "text/"@ {
        ("Text"@, "\u{1f4dd}"@)
    } else {
        ("Data"@, "\u{1f4e6}"@)
    }
}

pub fn display_content_kind(mime_type: &str) -> (r: (&'static str, &'static str))
    ensures
        (r.0@, r.1@) == content_kind(mime_type@),
{
    let chars = text::chars_of(mime_type);
    let size: usize = chars.len();
    let image: bool = size >= 6 && text::same_text(
        text::text_of(text::slice_of(chars.as_slice(), 0, 6).as_slice()).as_str(),
        "image/",
    );
    let words: bool = size >= 5 && text::same_text(
        text::text_of(text::slice_of(chars.as_slice(), 0, 5).as_slice()).as_str(),
        "text/",
    );
    assert(size >= 6 ==> chars@.subrange(0, 6) =~= mime_type@.take(6));
    assert(size >= 5 ==> chars@.subrange(0, 5) =~= mime_type@.take(5));
    if image {
        ("Image", "\u{1f5bc}")
    } else if words {
        ("Text", "\u{1f4dd}")
    } else {
        ("Data", "\u{1f4e6}")
    }
}

/// A text is within its bound exactly if its bytes are no more than the bound and none of its
/// characters is a NUL. A text that is not there is within every bound.
pub proof fn texts_are_bounded_in_bytes(s: Seq<char>, t: Option<String>, max: usize)
    ensures
        bounded_text(s, max) <==> vstd::utf8::encode_utf8(s).len() <= max && forall|i: int|
            0 <= i < s.len() ==> s[i] != '\0',
        t is None ==> bounded_option(t, max),
        t matches Some(text) ==> (bounded_option(t, max) <==> vstd::utf8::encode_utf8(text@).len()
            <= max && forall|i: int| 0 <= i < text@.len() ==> text@[i] != '\0'),
{
    if forall|i: int| 0 <= i < s.len() ==> s[i] != '\0' {
        assert(!s.contains('\0'));
    } else {
        let i = choose|i: int| 0 <= i < s.len() && s[i] == '\0';
        assert(s.contains(s[i]));
    }
    if let Some(text) = t {
        if forall|i: int| 0 <= i < text@.len() ==> text@[i] != '\0' {
            assert(!text@.contains('\0'));
        } else {
            let i = choose|i: int| 0 <= i < text@.len() && text@[i] == '\0';
            assert(text@.contains(text@[i]));
        }
    }
}

/// Coordinates within a million pixels of the origin are accepted, and dimensions from one pixel
/// to a million; nothing farther out is, and no dimension that is not positive.
pub proof fn pixels_are_bounded(n: i32)
    ensures
        bounded_coordinate(Some(n)) <==> -1_000_000 <= n <= 1_000_000,
        bounded_dimension(Some(n)) <==> 1 <= n <= 1_000_000,
        bounded_coordinate(None),
        bounded_dimension(None),
{
}

/// Capability lists are within their bounds exactly if none has more than 64 tokens and no token
/// more than 1024 bytes.
pub proof fn capabilities_are_bounded(p: Option<CapabilityPreflight>, tokens: Seq<String>)
    ensures
        p is None ==> bounded_preflight(p),
        p matches Some(preflight) ==> bounded_preflight(p) ==> forall|i: int|
            0 <= i < preflight.lists@.len() ==> bounded_tokens((#[trigger] preflight.lists@[i])@),
        p matches Some(preflight) ==> (forall|i: int|
            0 <= i < preflight.lists@.len() ==> bounded_tokens((#[trigger] preflight.lists@[i])@))
            ==> bounded_preflight(p),
        bounded_tokens(tokens) <==> tokens.len() <= 64 && forall|i: int|
            0 <= i < tokens.len() ==> bounded_text((#[trigger] tokens[i])@, 1024),
{
}

/// An entry is accepted exactly if its id and its content type have at most 256 bytes, its preview
/// at most 2048, its thumbnail at most 349,528, every other text at most 1024, and its
/// capabilities are within their bounds. Everything else about it is accepted as it is.
pub proof fn entries_are_bounded(c: Candidate)
    ensures
        c.bounded() <==> bounded_text(c.entry_id@, 256) && bounded_text(c.source_realm@, 1024)
            && bounded_option(c.source_canonical_target, 1024) && bounded_option(c.source_app, 1024)
            && bounded_option(c.source_app_id, 1024) && bounded_option(c.preview_text, 2048)
            && bounded_text(c.content_type@, 256) && bounded_option(
            c.thumbnail_png_base64,
            349_528,
        ) && bounded_preflight(c.capability_preflight),
{
}

/// A destination is accepted exactly if each of its texts has at most 1024 bytes and its
/// capabilities are within their bounds; hints are exactly if every coordinate and dimension is
/// within its bounds and the output has at most 1024 bytes.
pub proof fn destinations_and_hints_are_bounded(d: DestinationMetadata, hints: PlacementHints)
    ensures
        d.bounded() <==> bounded_text(d.realm@, 1024) && bounded_option(d.canonical_target, 1024)
            && bounded_option(d.application, 1024) && bounded_option(d.app_id, 1024)
            && bounded_option(d.title, 1024) && bounded_option(d.workspace, 1024)
            && bounded_option(d.output, 1024) && bounded_preflight(d.capability_preflight),
        hints.bounded() <==> bounded_coordinate(hints.pointer_x) && bounded_coordinate(
            hints.pointer_y,
        ) && bounded_dimension(hints.output_width) && bounded_dimension(hints.output_height)
            && bounded_dimension(hints.overlay_width) && bounded_dimension(hints.overlay_height)
            && bounded_option(hints.output, 1024),
{
}

/// A picker is opened for every request of a version that the picker offers which has at most 64
/// entries and 64 realms to display, all of them within their bounds like the destination, the
/// hints and the texts of the request itself, and for no other.
pub proof fn requests_within_bounds_are_valid(request: OpenRequest)
    ensures
        request.valid() <==> {
            &&& 1 <= request.selected_protocol_version <= 2
            &&& bounded_text(request.clipd_version@, 1024)
            &&& bounded_text(request.picker_version@, 1024)
            &&& bounded_text(request.request_id@, 256)
            &&& bounded_text(request.requested_mime_type@, 256)
            &&& request.destination.bounded()
            &&& (request.placement_hints matches Some(hints) ==> hints.bounded())
            &&& request.candidates@.len() <= 64
            &&& forall|i: int|
                0 <= i < request.candidates@.len() ==> (#[trigger] request.candidates@[i]).bounded()
            &&& request.realm_display@.dom().len() <= 64
            &&& forall|realm: Seq<char>| #[trigger]
                request.realm_display@.dom().contains(realm) ==> bounded_text(realm, 1024) && (
                request.realm_display@[realm] matches Some(color) ==> bounded_text(color, 1024))
        },
        request.version_supported() <==> 1 <= request.selected_protocol_version <= 2,
{
}

/// A line ends with its first line feed, which belongs to it; bytes without a line feed hold no
/// whole line.
pub proof fn line_ends_at_its_first_line_feed(bytes: Seq<u8>)
    ensures
        line_length(bytes) is None <==> forall|i: int| 0 <= i < bytes.len() ==> bytes[i] != 10,
        line_length(bytes) matches Some(n) ==> 1 <= n <= bytes.len() && bytes[n - 1] == 10
            && forall|i: int| 0 <= i < n - 1 ==> bytes[i] != 10,
    decreases bytes.len(),
{
    if bytes.len() > 0 && bytes[0] != 10 {
        let rest = bytes.drop_first();
        line_ends_at_its_first_line_feed(rest);
        assert forall|i: int| 0 < i < bytes.len() implies bytes[i] == rest[i - 1] by {}
        match line_length(rest) {
            Some(n) => {
                assert(bytes[n as int] == rest[n - 1]);
                assert(bytes[n as int] == 10);
            },
            None => {
                assert forall|i: int| 0 <= i < bytes.len() implies bytes[i] != 10 by {
                    if i > 0 {
                        assert(bytes[i] == rest[i - 1]);
                    }
                }
            },
        }
    }
}

/// A label shows the text character by character, from its start and as far as there is room; a
/// control character is shown as a space, and any other as it is.
pub proof fn labels_show_each_character(s: Seq<char>, max_chars: nat)
    ensures
        s.len() <= max_chars ==> sanitized(s, max_chars).len() == s.len(),
        s.len() > max_chars ==> sanitized(s, max_chars).len() == max_chars,
        forall|i: int|
            0 <= i < sanitized(s, max_chars).len() ==> {
                &&& (' ' <= s[i] <= '~' || '\u{a0}' <= s[i]) ==> #[trigger] sanitized(s, max_chars)[i]
                    == s[i]
                &&& (s[i] < ' ' || '~' < s[i] < '\u{a0}') ==> sanitized(s, max_chars)[i] == ' '
            },
{
}

/// Content is named after the first part of its MIME type: an image, a text, or else data.
pub proof fn content_is_named_after_its_type(rest: Seq<char>, mime_type: Seq<char>)
    ensures
        content_kind("image/"@ + rest) == ("Image"@, "\u{1f5bc}"@),
        content_kind("text/"@ + rest) == ("Text"@, "\u{1f4dd}"@),
        !("image/"@.is_prefix_of(mime_type)) && !("text/"@.is_prefix_of(mime_type))
            ==> content_kind(mime_type) == ("Data"@, "\u{1f4e6}"@),
{
    reveal_strlit("image/");
    reveal_strlit("text/");
    assert("image/"@.len() == 6 && "text/"@.len() == 5);
    assert(("image/"@ + rest).take(6) =~= "image/"@);
    assert(("text/"@ + rest).take(5) =~= "text/"@);
    if ("text/"@ + rest).len() >= 6 {
        assert(("text/"@ + rest).take(6)[0] == 't');
    }
    if mime_type.len() >= 6 {
        assert(mime_type.take(6) =~= mime_type.subrange(0, 6));
    }
    if mime_type.len() >= 5 {
        assert(mime_type.take(5) =~= mime_type.subrange(0, 5));
    }
}

/// A frame is chosen or refused for one request only: a frame that answers a request names its id
/// and its version, and no frame both chooses and refuses.
pub proof fn answers_name_their_request(
    request: OpenRequest,
    other: OpenRequest,
    frame: PickerFrame,
    entry_id: Seq<char>,
    other_id: Seq<char>,
)
    ensures
        request.selects(frame, entry_id) ==> (frame matches PickerFrame::Select {
            selected_protocol_version,
            request_id,
            entry_id: chosen,
        } && selected_protocol_version == request.selected_protocol_version && request_id@
            == request.request_id@ && chosen@ == entry_id),
        request.cancels(frame) ==> (frame matches PickerFrame::Cancel {
            selected_protocol_version,
            request_id,
        } && selected_protocol_version == request.selected_protocol_version && request_id@
            == request.request_id@),
        !(request.selects(frame, entry_id) && other.cancels(frame)),
        request.selects(frame, entry_id) && other.selects(frame, other_id) ==> entry_id == other_id
            && request.request_id@ == other.request_id@,
        request.cancels(frame) && other.cancels(frame) ==> request.request_id@
            == other.request_id@,
{
}

/// The picker offers the versions one and two and names its own.
pub proof fn hello_offers_both_versions(r: PickerFrame)
    requires
        call_ensures(client_hello, (), r),
    ensures
        r matches PickerFrame::ClientHello { min_version, max_version, picker_version }
            && min_version == 1 && max_version == 2 && picker_version@ == crate::VERSION@,
{
}

/// A picker is shown for a valid request, and for that very request. A request to close is
/// followed, and a refusal is told with its code.
pub proof fn first_frame_decides(frame: ClipdFrame, r: Opening)
    requires
        call_ensures(opening, (frame,), r),
    ensures
        frame matches ClipdFrame::OpenRequest(request) ==> request.valid() ==> r == Opening::Show(
            request,
        ),
        frame matches ClipdFrame::OpenRequest(request) ==> !request.valid() ==> r
            is Unacceptable,
        frame is Close ==> r is Quit,
        frame matches ClipdFrame::Error { code, .. } ==> (r matches Opening::Refused(message)
            && message@ == "clipd rejected picker request: "@ + code@),
{
}

/// A line is complete with its first line feed, if that is among the first `max` bytes; bytes
/// without one can still become a line as long as there are fewer than `max`.
pub proof fn lines_are_found_within_their_bound(bytes: &[u8], max: usize, r: Line, end: int)
    requires
        call_ensures(find_line, (bytes, max), r),
    ensures
        0 <= end < bytes@.len() && bytes@[end] == 10 && (forall|i: int|
            0 <= i < end ==> bytes@[i] != 10) ==> r == (if end < max {
            Line::Complete((end + 1) as usize)
        } else {
            Line::TooLong
        }),
        (forall|i: int| 0 <= i < bytes@.len() ==> bytes@[i] != 10) ==> r == (if bytes@.len()
            < max {
            Line::Incomplete
        } else {
            Line::TooLong
        }),
{
    line_ends_at_its_first_line_feed(bytes@);
    if 0 <= end < bytes@.len() && bytes@[end] == 10 && (forall|i: int|
        0 <= i < end ==> bytes@[i] != 10) {
        let n = line_length(bytes@)->0;
        assert(bytes@[n - 1] == 10);
        assert(n == end + 1);
    }
}

/// A frame is sent as it is, with a line feed behind it, if both take at most 4096 bytes, and is
/// not sent otherwise.
pub proof fn frames_are_sent_as_lines(frame: String, r: Option<String>)
    requires
        call_ensures(picker_line, (frame,), r),
    ensures
        vstd::utf8::encode_utf8(frame@).len() <= 4095 ==> (r matches Some(line) && line@.len()
            == frame@.len() + 1 && line@.drop_last() == frame@ && line@.last() == '\n'),
        vstd::utf8::encode_utf8(frame@).len() > 4095 ==> r is None,
{
    assert(frame@.push('\n').drop_last() =~= frame@);
}

/// How kinds of realms, providers, isolations and attributions are written on the wire.
pub proof fn labels_on_the_wire()
    ensures
        RealmKind::Host.spec_label() == "host"@,
        RealmKind::Vm.spec_label() == "vm"@,
        RealmKind::UnsafeLocal.spec_label() == "unsafe_local"@,
        RealmKind::Unknown.spec_label() == "unknown"@,
        PresentationProviderKind::LocalVm.spec_label() == "local-vm"@,
        PresentationProviderKind::QemuMedia.spec_label() == "qemu-media"@,
        PresentationProviderKind::ProviderManaged.spec_label() == "provider-managed"@,
        PresentationProviderKind::UnsafeLocal.spec_label() == "unsafe-local"@,
        PresentationProviderKind::Unknown.spec_label() == "unknown"@,
        PresentationIsolationPosture::VirtualMachine.spec_label() == "virtual-machine"@,
        PresentationIsolationPosture::ProviderManaged.spec_label() == "provider-managed"@,
        PresentationIsolationPosture::UnsafeLocal.spec_label() == "unsafe-local"@,
        PresentationIsolationPosture::Unknown.spec_label() == "unknown"@,
        AttributionQuality::ExactClient.spec_label() == "exact_client"@,
        AttributionQuality::FocusedWindowGuess.spec_label() == "focused_window_guess"@,
        AttributionQuality::CacheStaleFocusedWindowGuess.spec_label()
            == "cache_stale_focused_window_guess"@,
        AttributionQuality::BrokerInjectedDebug.spec_label() == "broker_injected_debug"@,
{
}

} // verus!
