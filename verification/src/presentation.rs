//! What the picker says about an endpoint or an entry: labels, and the warning that goes with an
//! endpoint that nothing isolates.

use crate::protocol::{
    sanitize_preview, AttributionQuality, Candidate, DestinationMetadata, OpenRequest,
    PresentationIsolationPosture, PresentationProviderKind,
};
use crate::protocol;
use crate::text;
use vstd::prelude::*;

verus! {

pub const UNSAFE_LOCAL_WARNING: &'static str = "unsafe-local · no isolation";

/// What is shown of an endpoint.
#[derive(Clone, PartialEq, Eq)]
pub struct EndpointPresentation {
    pub realm: String,
    pub provider: Option<&'static str>,
    pub isolation: Option<&'static str>,
    pub warning: Option<&'static str>,
}

pub open spec fn label_text(s: Option<&'static str>) -> Option<Seq<char>> {
    match s {
        Some(t) => Some(t@),
        None => None,
    }
}

/// The parts of a label, with a middle dot between them.
pub open spec fn dotted(parts: Seq<Seq<char>>) -> Seq<char>
    decreases parts.len(),
{
    if parts.len() == 0 {
        Seq::empty()
    } else if parts.len() == 1 {
        parts[0]
    } else {
        dotted(parts.drop_last()) + " · "@ + parts.last()
    }
}

/// What is said of the identity of an endpoint: its provider and its isolation, as far as they
/// are known.
pub open spec fn identity_parts(provider: Option<Seq<char>>, isolation: Option<Seq<char>>) -> Seq<
    Seq<char>,
> {
    let first = match provider {
        Some(p) => seq!["provider "@ + p],
        None => seq![],
    };
    match isolation {
        Some(i) => first.push("isolation "@ + i),
        None => first,
    }
}

/// Puts one more part behind a label.
fn add_part(label: &mut String, kind: &str, value: &str)
    ensures
        final(label)@ == old(label)@ + " · "@ + (kind@ + value@),
{
    let ghost before = label@;
    label.append(" · ");
    label.append(kind);
    label.append(value);
    assert(label@ =~= before + " · "@ + (kind@ + value@));
}

impl EndpointPresentation {
    pub open spec fn identity(&self) -> Seq<Seq<char>> {
        identity_parts(label_text(self.provider), label_text(self.isolation))
    }

    pub fn has_identity_metadata(&self) -> (r: bool)
        ensures
            r == (self.provider is Some || self.isolation is Some),
    {
        self.provider.is_some() || self.isolation.is_some()
    }

    pub fn provenance_label(&self) -> (r: String)
        ensures
            r@ == dotted(seq!["Realm "@ + self.realm@] + self.identity()),
    {
        let mut r: String = "Realm ".to_owned();
        r.append(self.realm.as_str());
        let ghost mut parts: Seq<Seq<char>> = seq!["Realm "@ + self.realm@];
        assert(r@ == dotted(parts));
        if let Some(provider) = self.provider {
            add_part(&mut r, "provider ", provider);
            proof {
                let more = parts.push("provider "@ + provider@);
                assert(more.drop_last() =~= parts);
                assert(r@ == dotted(more));
                parts = more;
            }
        }
        if let Some(isolation) = self.isolation {
            add_part(&mut r, "isolation ", isolation);
            proof {
                let more = parts.push("isolation "@ + isolation@);
                assert(more.drop_last() =~= parts);
                assert(r@ == dotted(more));
                parts = more;
            }
        }
        assert(parts =~= seq!["Realm "@ + self.realm@] + self.identity());
        r
    }

    pub fn identity_label(&self) -> (r: Option<String>)
        ensures
            r is Some <==> self.identity().len() > 0,
            r matches Some(label) ==> label@ == dotted(self.identity()),
    {
        match self.provider {
            Some(provider) => {
                let mut r: String = "provider ".to_owned();
                r.append(provider);
                let ghost parts: Seq<Seq<char>> = seq!["provider "@ + provider@];
                assert(r@ == dotted(parts));
                if let Some(isolation) = self.isolation {
                    add_part(&mut r, "isolation ", isolation);
                    proof {
                        let more = parts.push("isolation "@ + isolation@);
                        assert(more.drop_last() =~= parts);
                        assert(r@ == dotted(more));
                        assert(self.identity() =~= more);
                    }
                } else {
                    assert(self.identity() =~= parts);
                }
                Some(r)
            },
            None => match self.isolation {
                Some(isolation) => {
                    let mut r: String = "isolation ".to_owned();
                    r.append(isolation);
                    assert(self.identity() =~= seq!["isolation "@ + isolation@]);
                    Some(r)
                },
                None => None,
            },
        }
    }
}

/// How a provider is shown, if it is known.
pub open spec fn shown_provider(provider: PresentationProviderKind) -> Option<Seq<char>> {
    if provider == PresentationProviderKind::Unknown {
        None
    } else {
        Some(provider.spec_label())
    }
}

/// How an isolation is shown, if it is known.
pub open spec fn shown_isolation(isolation: PresentationIsolationPosture) -> Option<Seq<char>> {
    if isolation == PresentationIsolationPosture::Unknown {
        None
    } else {
        Some(isolation.spec_label())
    }
}

/// The warning that is shown if the provider or the isolation says that nothing isolates the
/// endpoint.
pub open spec fn shown_warning(
    provider: PresentationProviderKind,
    isolation: PresentationIsolationPosture,
) -> Option<Seq<char>> {
    if provider == PresentationProviderKind::UnsafeLocal || isolation
        == PresentationIsolationPosture::UnsafeLocal {
        Some(UNSAFE_LOCAL_WARNING@)
    } else {
        None
    }
}

/// What is shown of the provider and the isolation together, if one of them is known.
pub open spec fn shown_identity(
    provider: PresentationProviderKind,
    isolation: PresentationIsolationPosture,
) -> Option<Seq<char>> {
    let parts = identity_parts(shown_provider(provider), shown_isolation(isolation));
    if parts.len() > 0 {
        Some(dotted(parts))
    } else {
        None
    }
}

/// Whether a presentation shows exactly this: the realm, the provider and the isolation as far
/// as they are known, and a warning if one is called for.
pub open spec fn presents(
    p: EndpointPresentation,
    realm: Seq<char>,
    provider: PresentationProviderKind,
    isolation: PresentationIsolationPosture,
) -> bool {
    &&& p.realm@ == protocol::sanitized(realm, 80)
    &&& label_text(p.provider) == shown_provider(provider)
    &&& label_text(p.isolation) == shown_isolation(isolation)
    &&& label_text(p.warning) == shown_warning(provider, isolation)
}

pub fn destination_presentation(destination: &DestinationMetadata) -> (r: EndpointPresentation)
    ensures
        presents(
            r,
            destination.realm@,
            destination.provider_kind,
            destination.isolation_posture,
        ),
{
    endpoint_presentation(
        destination.realm.as_str(),
        destination.provider_kind,
        destination.isolation_posture,
    )
}

pub fn candidate_presentation(candidate: &Candidate) -> (r: EndpointPresentation)
    ensures
        presents(
            r,
            candidate.source_realm@,
            candidate.source_provider_kind,
            candidate.source_isolation_posture,
        ),
{
    endpoint_presentation(
        candidate.source_realm.as_str(),
        candidate.source_provider_kind,
        candidate.source_isolation_posture,
    )
}

pub fn endpoint_presentation(
    realm: &str,
    provider: PresentationProviderKind,
    isolation: PresentationIsolationPosture,
) -> (r: EndpointPresentation)
    ensures
        presents(r, realm@, provider, isolation),
{
    let provider_label = if provider.is_unknown() {
        None
    } else {
        Some(provider.label())
    };
    let isolation_label = if isolation.is_unknown() {
        None
    } else {
        Some(isolation.label())
    };
    let unsafe_local: bool = provider == PresentationProviderKind::UnsafeLocal || isolation
        == PresentationIsolationPosture::UnsafeLocal;
    EndpointPresentation {
        realm: sanitize_preview(realm, 80),
        provider: provider_label,
        isolation: isolation_label,
        warning: if unsafe_local {
            Some(UNSAFE_LOCAL_WARNING)
        } else {
            None
        },
    }
}

/// Two destinations that agree in realm, provider and isolation are shown in the same way,
/// whatever else is known of them: no application name or id, title, workspace or output ever
/// changes what is said of an identity.
pub proof fn only_supplied_identity_is_shown(
    a: DestinationMetadata,
    b: DestinationMetadata,
    p: EndpointPresentation,
    q: EndpointPresentation,
)
    requires
        a.realm@ == b.realm@,
        a.provider_kind == b.provider_kind,
        a.isolation_posture == b.isolation_posture,
        presents(p, a.realm@, a.provider_kind, a.isolation_posture),
        presents(q, b.realm@, b.provider_kind, b.isolation_posture),
    ensures
        p.realm@ == q.realm@,
        label_text(p.provider) == label_text(q.provider),
        label_text(p.isolation) == label_text(q.isolation),
        label_text(p.warning) == label_text(q.warning),
{
}

/// An endpoint of which neither provider nor isolation is known is shown without an identity and
/// without a warning.
pub proof fn unknown_endpoint_has_no_identity(p: EndpointPresentation, realm: Seq<char>)
    requires
        presents(
            p,
            realm,
            PresentationProviderKind::Unknown,
            PresentationIsolationPosture::Unknown,
        ),
    ensures
        p.identity().len() == 0,
        p.warning is None,
{
}

/// The text of the first of two optional strings that is there.
pub open spec fn first_text(a: Option<String>, b: Option<String>) -> Option<Seq<char>> {
    match a {
        Some(s) => Some(s@),
        None => match b {
            Some(s) => Some(s@),
            None => None,
        },
    }
}

fn first_of<'a>(a: &'a Option<String>, b: &'a Option<String>) -> (r: Option<&'a str>)
    ensures
        r is Some <==> first_text(*a, *b) is Some,
        r matches Some(s) ==> first_text(*a, *b) == Some(s@),
{
    match a {
        Some(s) => Some(s.as_str()),
        None => match b {
            Some(s) => Some(s.as_str()),
            None => None,
        },
    }
}

/// The heading of the picker: where the entry goes that is chosen.
pub open spec fn destination_heading(destination: DestinationMetadata) -> Seq<char> {
    let realm = "Paste into "@ + protocol::sanitized(destination.realm@, 80);
    match first_text(destination.application, destination.app_id) {
        Some(app) => if protocol::sanitized(app, 80).len() > 0 {
            realm + " · "@ + protocol::sanitized(app, 80)
        } else {
            realm
        },
        None => realm,
    }
}

pub fn destination_label(request: &OpenRequest) -> (r: String)
    ensures
        r@ == destination_heading(request.destination),
{
    let mut r: String = "Paste into ".to_owned();
    let realm = sanitize_preview(request.destination.realm.as_str(), 80);
    r.append(realm.as_str());
    if let Some(app) = first_of(&request.destination.application, &request.destination.app_id) {
        let app = sanitize_preview(app, 80);
        if !app.as_str().is_empty() {
            r.append(" · ");
            r.append(app.as_str());
        }
    }
    r
}

/// What is told of the content that is asked for.
pub fn requested_label(request: &OpenRequest) -> (r: String)
    ensures
        r@ == "Requested "@ + request.requested_mime_type@ + " · type to filter"@,
{
    let mut r: String = "Requested ".to_owned();
    r.append(request.requested_mime_type.as_str());
    r.append(" · type to filter");
    r
}

pub fn source_label(candidate: &Candidate) -> (r: String)
    ensures
        r@ == protocol::sanitized(candidate.source_realm@, 48),
{
    sanitize_preview(candidate.source_realm.as_str(), 48)
}

/// Which application an entry comes from, and how well that is known.
pub open spec fn app_source(candidate: Candidate) -> Seq<char> {
    let app = protocol::sanitized(
        match first_text(candidate.source_app, candidate.source_app_id) {
            Some(app) => app,
            None => "Unknown app"@,
        },
        80,
    );
    match candidate.source_attribution {
        AttributionQuality::ExactClient => "Exact source · "@ + app,
        AttributionQuality::FocusedWindowGuess => "Focused-window guess · "@ + app,
        AttributionQuality::CacheStaleFocusedWindowGuess => "Focused-window guess (stale) · "@
            + app,
        AttributionQuality::BrokerInjectedDebug => "Debug-injected source"@,
    }
}

pub fn app_source_label(candidate: &Candidate) -> (r: String)
    ensures
        r@ == app_source(*candidate),
{
    let app = match first_of(&candidate.source_app, &candidate.source_app_id) {
        Some(app) => sanitize_preview(app, 80),
        None => sanitize_preview("Unknown app", 80),
    };
    let mut r: String = match candidate.source_attribution {
        AttributionQuality::ExactClient => "Exact source · ".to_owned(),
        AttributionQuality::FocusedWindowGuess => "Focused-window guess · ".to_owned(),
        AttributionQuality::CacheStaleFocusedWindowGuess => {
            "Focused-window guess (stale) · ".to_owned()
        },
        AttributionQuality::BrokerInjectedDebug => {
            return "Debug-injected source".to_owned();
        },
    };
    r.append(app.as_str());
    r
}

/// Whether a content type is that of a PNG image, parameters aside.
pub open spec fn is_png_type(content_type: Seq<char>) -> bool {
    text::before_first(content_type, ';') == "image/png"@
}

pub fn is_png(content_type: &str) -> (r: bool)
    ensures
        r == is_png_type(content_type@),
{
    let chars = text::chars_of(content_type);
    let end: usize = text::find_char(chars.as_slice(), ';');
    proof {
        text::first_place_is_first(chars@, ';');
    }
    let essence = text::slice_of(chars.as_slice(), 0, end);
    assert(essence@ =~= text::before_first(content_type@, ';'));
    text::same_text(text::text_of(essence.as_slice()).as_str(), "image/png")
}

/// What is shown of the content of an entry that has no thumbnail.
pub open spec fn preview_of(candidate: Candidate) -> Seq<char> {
    if is_png_type(candidate.content_type@) {
        match candidate.byte_count {
            Some(count) => "Image entry"@ + (" · "@ + text::decimal_digits(count as nat)
                + " bytes"@),
            None => "Image entry"@,
        }
    } else {
        match candidate.preview_text {
            Some(preview) => protocol::sanitized(preview@, 300),
            None => protocol::sanitized("No preview"@, 300),
        }
    }
}

pub fn preview_text(candidate: &Candidate) -> (r: String)
    ensures
        r@ == preview_of(*candidate),
{
    if is_png(candidate.content_type.as_str()) {
        let mut r: String = "Image entry".to_owned();
        if let Some(count) = candidate.byte_count {
            r.append(" · ");
            let digits = text::decimal(count);
            r.append(digits.as_str());
            r.append(" bytes");
            assert(r@ =~= "Image entry"@ + (" · "@ + text::decimal_digits(count as nat)
                + " bytes"@));
        }
        r
    } else {
        match &candidate.preview_text {
            Some(preview) => sanitize_preview(preview.as_str(), 300),
            None => sanitize_preview("No preview", 300),
        }
    }
}

/// How long ago something happened, in words, given its age in seconds.
pub open spec fn age_in_words(seconds: nat) -> Seq<char> {
    if seconds < 30 {
        "Just now"@
    } else if seconds < 3600 {
        text::decimal_digits(seconds / 60) + "m ago"@
    } else if seconds < 86_400 {
        text::decimal_digits(seconds / 3600) + "h ago"@
    } else {
        text::decimal_digits(seconds / 86_400) + "d ago"@
    }
}

/// The age of an entry. A time in the future counts as now, and so does every time while the
/// clock cannot be read.
pub open spec fn age_label(timestamp_ms: Option<u64>, now_ms: Option<u64>) -> Seq<char> {
    match timestamp_ms {
        None => "Unknown time"@,
        Some(then) => match now_ms {
            Some(now) if now > then => age_in_words(((now - then) / 1000) as nat),
            _ => age_in_words(0),
        },
    }
}

/// The age of an entry, where `now_ms` is what the clock shows.
pub fn format_timestamp(timestamp_ms: Option<u64>, now_ms: Option<u64>) -> (r: String)
    ensures
        r@ == age_label(timestamp_ms, now_ms),
{
    let then: u64 = match timestamp_ms {
        Some(then) => then,
        None => {
            return "Unknown time".to_owned();
        },
    };
    let now: u64 = match now_ms {
        Some(now) => now,
        None => then,
    };
    let diff: u64 = now.saturating_sub(then) / 1000;
    if diff < 30 {
        "Just now".to_owned()
    } else if diff < 3600 {
        text::decimal(diff / 60).concat("m ago")
    } else if diff < 86_400 {
        text::decimal(diff / 3600).concat("h ago")
    } else {
        text::decimal(diff / 86_400).concat("d ago")
    }
}

/// The warning is shown exactly where the provider or the isolation says that nothing isolates
/// the endpoint, whatever the other one says.
pub proof fn unisolated_endpoints_are_warned_of(
    p: EndpointPresentation,
    realm: Seq<char>,
    provider: PresentationProviderKind,
    isolation: PresentationIsolationPosture,
)
    requires
        presents(p, realm, provider, isolation),
    ensures
        p.warning is Some <==> provider is UnsafeLocal || isolation is UnsafeLocal,
        p.warning matches Some(warning) ==> warning@ == "unsafe-local · no isolation"@,
{
}

/// A provider and an isolation that are known are shown under their own labels, each whatever the
/// other is; one that is not known is not shown.
pub proof fn known_identity_is_shown(
    p: EndpointPresentation,
    realm: Seq<char>,
    provider: PresentationProviderKind,
    isolation: PresentationIsolationPosture,
)
    requires
        presents(p, realm, provider, isolation),
    ensures
        p.provider is Some <==> !(provider is Unknown),
        p.isolation is Some <==> !(isolation is Unknown),
        p.provider matches Some(label) ==> label@ == provider.spec_label(),
        p.isolation matches Some(label) ==> label@ == isolation.spec_label(),
        p.realm@.len() <= 80,
        shown_identity(provider, isolation) is None <==> provider is Unknown && isolation
            is Unknown,
        !(provider is Unknown) && isolation is Unknown ==> shown_identity(provider, isolation)
            == Some("provider "@ + provider.spec_label()),
        provider is Unknown && !(isolation is Unknown) ==> shown_identity(provider, isolation)
            == Some("isolation "@ + isolation.spec_label()),
        !(provider is Unknown) && !(isolation is Unknown) ==> shown_identity(provider, isolation)
            == Some(
            "provider "@ + provider.spec_label() + " · "@ + ("isolation "@
                + isolation.spec_label()),
        ),
{
    protocol::shown_text_is_safe(realm, 80);
    reveal_with_fuel(dotted, 3);
    let one = seq!["provider "@ + provider.spec_label()];
    let two = one.push("isolation "@ + isolation.spec_label());
    assert(two.drop_last() =~= one);
    let none: Seq<Seq<char>> = seq![];
    assert(none.push("isolation "@ + isolation.spec_label())[0] == "isolation "@
        + isolation.spec_label());
}

/// The heading names the realm that the entry goes to, and the application if something of it
/// can be shown: its name, or its id if it has no name.
pub proof fn heading_names_the_destination(destination: DestinationMetadata)
    ensures
        ({
            let start = "Paste into "@ + protocol::sanitized(destination.realm@, 80);
            let heading = destination_heading(destination);
            &&& heading.take(start.len() as int) == start
            &&& destination.application is None && destination.app_id is None ==> heading == start
            &&& destination.application matches Some(app) ==> {
                let shown = protocol::sanitized(app@, 80);
                &&& shown.len() > 0 ==> heading == start + " · "@ + shown
                &&& shown.len() == 0 ==> heading == start
            }
            &&& destination.app_id matches Some(id) ==> destination.application is None ==> {
                let shown = protocol::sanitized(id@, 80);
                &&& shown.len() > 0 ==> heading == start + " · "@ + shown
                &&& shown.len() == 0 ==> heading == start
            }
        }),
{
    let start = "Paste into "@ + protocol::sanitized(destination.realm@, 80);
    assert(destination_heading(destination).take(start.len() as int) =~= start);
}

/// The source of an entry is named after the application, or its id if it has no name, and says
/// how the application was found out. Of a source that was injected nothing else is said.
pub proof fn source_names_the_application(candidate: Candidate, app: Seq<char>)
    requires
        match candidate.source_app {
            Some(name) => name@ == app,
            None => match candidate.source_app_id {
                Some(id) => id@ == app,
                None => app == "Unknown app"@,
            },
        },
    ensures
        ({
            let source = app_source(candidate);
            let shown = protocol::sanitized(app, 80);
            &&& candidate.source_attribution is ExactClient ==> source == "Exact source · "@ + shown
            &&& candidate.source_attribution is FocusedWindowGuess ==> source
                == "Focused-window guess · "@ + shown
            &&& candidate.source_attribution is CacheStaleFocusedWindowGuess ==> source
                == "Focused-window guess (stale) · "@ + shown
            &&& candidate.source_attribution is BrokerInjectedDebug ==> source
                == "Debug-injected source"@
        }),
{
}

/// What is shown of an entry that is no image is the start of its preview, and nothing of the
/// preview of an image is shown.
pub proof fn previews_of_images_are_not_shown(one: Candidate, other: Candidate)
    ensures
        one.preview_text matches Some(preview) ==> !is_png_type(one.content_type@) ==> preview_of(one)
            == protocol::sanitized(preview@, 300),
        !is_png_type(one.content_type@) && one.preview_text is None ==> preview_of(one)
            == "No preview"@,
        is_png_type(one.content_type@) && one.byte_count is None ==> preview_of(one)
            == "Image entry"@,
        one.byte_count matches Some(count) ==> is_png_type(one.content_type@) ==> preview_of(one)
            == "Image entry · "@ + text::decimal_digits(count as nat) + " bytes"@,
        is_png_type(one.content_type@) && is_png_type(other.content_type@) && one.byte_count
            == other.byte_count ==> preview_of(one) == preview_of(other),
{
    reveal_strlit("Image entry");
    reveal_strlit(" · ");
    reveal_strlit("Image entry · ");
    reveal_strlit("No preview");
    protocol::plain_text_is_shown_unchanged("No preview"@, 300);
    assert("Image entry · "@ =~= "Image entry"@ + " · "@);
    if let Some(count) = one.byte_count {
        let digits = text::decimal_digits(count as nat);
        assert("Image entry"@ + (" · "@ + digits + " bytes"@) =~= "Image entry · "@ + digits
            + " bytes"@);
    }
}

/// A content type is that of a PNG image whatever parameters follow it, and no other is.
pub proof fn png_type_may_have_parameters(content_type: Seq<char>, parameters: Seq<char>)
    ensures
        is_png_type("image/png"@),
        is_png_type("image/png;"@ + parameters),
        is_png_type(content_type) ==> content_type == "image/png"@ || (content_type.len() >= 10
            && content_type.take(10) == "image/png;"@),
{
    reveal_strlit("image/png");
    reveal_strlit("image/png;");
    assert("image/png"@.len() == 9 && "image/png;"@.len() == 10);
    let plain = "image/png"@;
    text::first_place_is_first(plain, ';');
    assert(text::before_first(plain, ';') =~= plain) by {
        let place = text::first_place(plain, ';') as int;
        if place < 9 {
            assert(plain[place] == ';');
        }
    }
    let more = "image/png;"@ + parameters;
    text::first_place_is_first(more, ';');
    assert(more[9] == ';');
    assert(text::before_first(more, ';') =~= plain) by {
        let place = text::first_place(more, ';') as int;
        if place < 9 {
            assert(more[place] == "image/png;"@[place]);
        }
    }
    if is_png_type(content_type) {
        text::first_place_is_first(content_type, ';');
        let place = text::first_place(content_type, ';') as int;
        assert(place == 9);
        assert(content_type.take(9) =~= plain);
        if content_type.len() == 9 {
            assert(content_type =~= plain);
        } else {
            assert forall|i: int| 0 <= i < 9 implies content_type[i] == plain[i] by {
                assert(content_type[i] == content_type.take(9)[i]);
            }
            assert(content_type.take(10) =~= "image/png;"@);
        }
    }
}

/// An age is told in the largest unit of which one has passed, as the number of whole units that
/// have; below half a minute it is just now.
pub proof fn age_is_told_in_whole_units(then: u64, now: u64, seconds: nat, count: nat)
    requires
        now >= then,
        1000 * seconds <= now - then < 1000 * (seconds + 1),
    ensures
        ({
            let age = age_label(Some(then), Some(now));
            &&& seconds < 30 ==> age == "Just now"@
            &&& 30 <= seconds < 3600 && 60 * count <= seconds < 60 * (count + 1) ==> age
                == text::decimal_digits(count) + "m ago"@
            &&& 3600 <= seconds < 86_400 && 3600 * count <= seconds < 3600 * (count + 1) ==> age
                == text::decimal_digits(count) + "h ago"@
            &&& 86_400 <= seconds && 86_400 * count <= seconds < 86_400 * (count + 1) ==> age
                == text::decimal_digits(count) + "d ago"@
        }),
{
    assert(seconds == (now - then) / 1000);
}

/// A time that is not known has no age; one that is yet to come, or that no clock can be held
/// against, is just now.
pub proof fn ages_without_a_past(then: u64, now: u64)
    ensures
        age_label(None, Some(now)) == "Unknown time"@,
        age_label(None, None) == "Unknown time"@,
        age_label(Some(then), None) == "Just now"@,
        now <= then ==> age_label(Some(then), Some(now)) == "Just now"@,
{
}

/// A label of one part is that part, and each further part stands behind the others and a middle
/// dot.
pub proof fn parts_are_separated_by_dots(parts: Seq<Seq<char>>, part: Seq<char>)
    ensures
        dotted(seq![part]) == part,
        parts.len() > 0 ==> dotted(parts.push(part)) == dotted(parts) + " · "@ + part,
        parts.len() == 0 ==> dotted(parts).len() == 0,
{
    assert(parts.push(part).drop_last() =~= parts);
    assert(parts.push(part).last() == part);
}

/// Where an endpoint comes from is told by its realm, its provider and its isolation, the last two
/// as far as they are shown.
pub proof fn provenance_names_realm_provider_and_isolation(p: EndpointPresentation, r: String)
    requires
        call_ensures(EndpointPresentation::provenance_label, (&p,), r),
    ensures
        p.provider is None && p.isolation is None ==> r@ == "Realm "@ + p.realm@,
        p.provider matches Some(provider) ==> p.isolation is None ==> r@ == "Realm "@ + p.realm@
            + " · "@ + ("provider "@ + provider@),
        p.isolation matches Some(isolation) ==> p.provider is None ==> r@ == "Realm "@ + p.realm@
            + " · "@ + ("isolation "@ + isolation@),
        p.provider matches Some(provider) ==> p.isolation is Some ==> r@ == "Realm "@ + p.realm@
            + " · "@ + ("provider "@ + provider@) + " · "@ + ("isolation "@ + p.isolation->0@),
{
    let realm = seq!["Realm "@ + p.realm@];
    parts_are_separated_by_dots(realm, "Realm "@ + p.realm@);
    let identity = p.identity();
    if identity.len() == 0 {
        assert(realm + identity =~= realm);
    } else if identity.len() == 1 {
        assert(realm + identity =~= realm.push(identity[0]));
        parts_are_separated_by_dots(realm, identity[0]);
    } else {
        assert(realm + identity =~= realm.push(identity[0]).push(identity[1]));
        parts_are_separated_by_dots(realm, identity[0]);
        parts_are_separated_by_dots(realm.push(identity[0]), identity[1]);
    }
}

/// The content that is asked for is named as it is.
pub proof fn requested_content_is_named(request: OpenRequest, r: String)
    requires
        call_ensures(requested_label, (&request,), r),
    ensures
        text::occurs_in(request.requested_mime_type@, r@),
        r@.len() == "Requested "@.len() + request.requested_mime_type@.len()
            + " · type to filter"@.len(),
{
    text::inner_text_is_found(
        "Requested "@,
        request.requested_mime_type@,
        " · type to filter"@,
    );
}

} // verus!
