//! The list of entries: which are shown, in what order, and how the user moves through them.

use crate::presentation;
use crate::presentation::{
    app_source_label, candidate_presentation, format_timestamp, preview_text, source_label,
};
use crate::protocol;
use crate::protocol::{display_content_kind, Candidate};
use crate::text;
use crate::thumbnail;
use crate::thumbnail::safe_host_thumbnail;
use vstd::prelude::*;

verus! {

/// The text of an optional string, empty where there is none.
pub open spec fn text_or_empty(s: Option<String>) -> Seq<char> {
    match s {
        Some(t) => t@,
        None => Seq::empty(),
    }
}

/// What a search looks at: the realm, the application, its id, the content type and the preview
/// of an entry, with spaces between them.
pub open spec fn searched_text(candidate: Candidate) -> Seq<char> {
    candidate.source_realm@ + " "@ + text_or_empty(candidate.source_app) + " "@ + text_or_empty(
        candidate.source_app_id,
    ) + " "@ + candidate.content_type@ + " "@ + text_or_empty(candidate.preview_text)
}

/// Whether a query is found in a text, both in lower case. An empty query is found in any text.
pub open spec fn found_in(query: Seq<char>, haystack: Seq<char>) -> bool {
    query.len() == 0 || text::occurs_in(query, haystack)
}

/// Whether an entry is shown for a query in lower case.
pub open spec fn matches_query(candidate: Candidate, query: Seq<char>) -> bool {
    found_in(query, text::lowercased(searched_text(candidate)))
}

/// For each entry, whether it is shown for a query.
pub open spec fn shown_for(candidates: Seq<Candidate>, query: Seq<char>) -> Seq<bool> {
    Seq::new(
        candidates.len(),
        |i: int| matches_query(candidates[i], text::lowercased(query)),
    )
}

fn append_optional(s: &mut String, t: &Option<String>)
    ensures
        final(s)@ == old(s)@ + text_or_empty(*t),
{
    match t {
        Some(t) => s.append(t.as_str()),
        None => {},
    }
    assert(s@ =~= old(s)@ + text_or_empty(*t));
}

/// What a search looks at.
pub fn haystack(candidate: &Candidate) -> (r: String)
    ensures
        r@ == searched_text(*candidate),
{
    let mut r: String = candidate.source_realm.clone();
    r.append(" ");
    append_optional(&mut r, &candidate.source_app);
    r.append(" ");
    append_optional(&mut r, &candidate.source_app_id);
    r.append(" ");
    r.append(candidate.content_type.as_str());
    r.append(" ");
    append_optional(&mut r, &candidate.preview_text);
    r
}

/// Whether a query is found in a text, both in lower case.
pub fn query_is_found(haystack: &str, query: &str) -> (r: bool)
    ensures
        r == found_in(query@, haystack@),
{
    query.is_empty() || text::contains_text(haystack, query)
}

/// Whether an entry is shown for a query in lower case.
pub fn candidate_matches(candidate: &Candidate, query: &str) -> (r: bool)
    ensures
        r == matches_query(*candidate, query@),
{
    let searched = text::lowercase(haystack(candidate).as_str());
    query_is_found(searched.as_str(), query)
}

/// For each entry, whether it is shown for a query.
pub fn visible_candidates(candidates: &Vec<Candidate>, query: &str) -> (r: Vec<bool>)
    ensures
        r@ == shown_for(candidates@, query@),
        query@.len() == 0 ==> forall|i: int| 0 <= i < r@.len() ==> r@[i],
{
    let lower = text::lowercase(query);
    let mut r: Vec<bool> = Vec::new();
    let mut i: usize = 0;
    while i < candidates.len()
        invariant
            i <= candidates@.len(),
            lower@ == text::lowercased(query@),
            r@ == shown_for(candidates@, query@).take(i as int),
        decreases candidates@.len() - i,
    {
        r.push(candidate_matches(&candidates[i], lower.as_str()));
        i = i + 1;
        assert(r@ =~= shown_for(candidates@, query@).take(i as int));
    }
    assert(r@ =~= shown_for(candidates@, query@));
    r
}

/// Whether an entry comes from a realm and is shown.
pub open spec fn shown_in(
    candidates: Seq<Candidate>,
    shown: Seq<bool>,
    realm: Seq<char>,
    i: int,
) -> bool {
    shown[i] && candidates[i].source_realm@ == realm
}

/// The first place, from `from` on, of an entry that comes from a realm and is shown, or the
/// number of entries if there is none.
pub open spec fn first_shown(
    candidates: Seq<Candidate>,
    shown: Seq<bool>,
    realm: Seq<char>,
    from: int,
) -> int
    decreases candidates.len() - from,
{
    if from >= candidates.len() {
        candidates.len() as int
    } else if shown_in(candidates, shown, realm, from) {
        from
    } else {
        first_shown(candidates, shown, realm, from + 1)
    }
}

/// Where the group of an entry starts: the first entry that is shown and comes from the same
/// realm.
pub open spec fn group_start(candidates: Seq<Candidate>, shown: Seq<bool>, i: int) -> int {
    first_shown(candidates, shown, candidates[i].source_realm@, 0)
}

/// Whether one entry stands in the list before another: groups stand as their first entries do,
/// and entries of one group as they were supplied.
pub open spec fn stands_before(
    candidates: Seq<Candidate>,
    shown: Seq<bool>,
    i: int,
    j: int,
) -> bool {
    let a = group_start(candidates, shown, i);
    let b = group_start(candidates, shown, j);
    a < b || (a == b && i < j)
}

/// Whether `rows` is the list that is shown: the places of exactly the entries that are shown,
/// in their order.
pub open spec fn is_listing(
    candidates: Seq<Candidate>,
    shown: Seq<bool>,
    rows: Seq<usize>,
) -> bool {
    &&& forall|a: int|
        0 <= a < rows.len() ==> (#[trigger] rows[a]) < candidates.len() && shown[rows[a] as int]
    &&& forall|i: usize|
        i < candidates.len() && shown[i as int] ==> #[trigger] rows.contains(i)
    &&& forall|a: int, b: int|
        0 <= a < b < rows.len() ==> stands_before(
            candidates,
            shown,
            (#[trigger] rows[a]) as int,
            (#[trigger] rows[b]) as int,
        )
}

proof fn first_shown_is_first(
    candidates: Seq<Candidate>,
    shown: Seq<bool>,
    realm: Seq<char>,
    from: int,
)
    requires
        0 <= from <= candidates.len(),
    ensures
        from <= first_shown(candidates, shown, realm, from) <= candidates.len(),
        first_shown(candidates, shown, realm, from) < candidates.len() ==> shown_in(
            candidates,
            shown,
            realm,
            first_shown(candidates, shown, realm, from),
        ),
        forall|k: int|
            from <= k < first_shown(candidates, shown, realm, from) ==> !#[trigger] shown_in(
                candidates,
                shown,
                realm,
                k,
            ),
    decreases candidates.len() - from,
{
    if from < candidates.len() && !shown_in(candidates, shown, realm, from) {
        first_shown_is_first(candidates, shown, realm, from + 1);
    }
}

/// An entry that is shown stands in a group that starts no later, with an entry of its realm.
proof fn groups_start_with_their_realm(candidates: Seq<Candidate>, shown: Seq<bool>, i: int)
    requires
        0 <= i < candidates.len(),
        shown[i],
    ensures
        0 <= group_start(candidates, shown, i) <= i,
        shown[group_start(candidates, shown, i)],
        candidates[group_start(candidates, shown, i)].source_realm@ == candidates[i].source_realm@,
{
    let realm = candidates[i].source_realm@;
    first_shown_is_first(candidates, shown, realm, 0);
    assert(shown_in(candidates, shown, realm, i));
}

/// The part of a list up to the entries before `upto` of the group that starts at `leader`.
spec fn is_part(
    candidates: Seq<Candidate>,
    shown: Seq<bool>,
    rows: Seq<usize>,
    leader: int,
    upto: int,
) -> bool {
    &&& forall|a: int|
        0 <= a < rows.len() ==> (#[trigger] rows[a]) < candidates.len() && shown[rows[a] as int]
            && in_part(candidates, shown, leader, upto, rows[a] as int)
    &&& forall|i: usize|
        i < candidates.len() && shown[i as int] && in_part(
            candidates,
            shown,
            leader,
            upto,
            i as int,
        ) ==> #[trigger] rows.contains(i)
    &&& forall|a: int, b: int|
        0 <= a < b < rows.len() ==> stands_before(
            candidates,
            shown,
            (#[trigger] rows[a]) as int,
            (#[trigger] rows[b]) as int,
        )
}

spec fn in_part(
    candidates: Seq<Candidate>,
    shown: Seq<bool>,
    leader: int,
    upto: int,
    i: int,
) -> bool {
    let start = group_start(candidates, shown, i);
    start < leader || (start == leader && i < upto)
}

proof fn part_grows(
    candidates: Seq<Candidate>,
    shown: Seq<bool>,
    rows: Seq<usize>,
    leader: int,
    i: usize,
)
    requires
        i < candidates.len(),
        shown[i as int],
        group_start(candidates, shown, i as int) == leader,
        is_part(candidates, shown, rows, leader, i as int),
    ensures
        is_part(candidates, shown, rows.push(i), leader, i + 1),
{
    let after = rows.push(i);
    assert forall|k: usize|
        k < candidates.len() && shown[k as int] && in_part(
            candidates,
            shown,
            leader,
            i + 1,
            k as int,
        ) implies #[trigger] after.contains(k) by {
        if k == i {
            assert(after[rows.len() as int] == i);
        } else {
            assert(rows.contains(k));
            let p = choose|p: int| 0 <= p < rows.len() && rows[p] == k;
            assert(after[p] == k);
        }
    }
    assert forall|a: int, b: int| 0 <= a < b < after.len() implies stands_before(
        candidates,
        shown,
        (#[trigger] after[a]) as int,
        (#[trigger] after[b]) as int,
    ) by {
        assert(after[a] == rows[a]);
        if b < rows.len() {
            assert(after[b] == rows[b]);
        }
    }
}

/// Adds the group that starts at `leader`.
fn push_group(candidates: &Vec<Candidate>, shown: &Vec<bool>, leader: usize, rows: &mut Vec<usize>)
    requires
        shown@.len() == candidates@.len(),
        leader < candidates@.len(),
        shown@[leader as int],
        group_start(candidates@, shown@, leader as int) == leader,
        is_part(candidates@, shown@, old(rows)@, leader as int, leader as int),
    ensures
        is_part(candidates@, shown@, final(rows)@, leader as int, candidates@.len() as int),
{
    let mut i: usize = leader;
    while i < candidates.len()
        invariant
            leader <= i <= candidates@.len(),
            shown@.len() == candidates@.len(),
            leader < candidates@.len(),
            shown@[leader as int],
            group_start(candidates@, shown@, leader as int) == leader,
            is_part(candidates@, shown@, rows@, leader as int, i as int),
        decreases candidates@.len() - i,
    {
        let ghost before = rows@;
        if shown[i] && text::same_text(
            candidates[i].source_realm.as_str(),
            candidates[leader].source_realm.as_str(),
        ) {
            rows.push(i);
            proof {
                part_grows(candidates@, shown@, before, leader as int, i);
            }
        } else {
            proof {
                if shown@[i as int] {
                    groups_start_with_their_realm(candidates@, shown@, i as int);
                }
            }
        }
        i = i + 1;
    }
}

/// Whether an entry is the first that is shown of its realm.
fn starts_group(candidates: &Vec<Candidate>, shown: &Vec<bool>, i: usize) -> (r: bool)
    requires
        shown@.len() == candidates@.len(),
        i < candidates@.len(),
        shown@[i as int],
    ensures
        r == (group_start(candidates@, shown@, i as int) == i),
{
    let ghost realm = candidates@[i as int].source_realm@;
    proof {
        groups_start_with_their_realm(candidates@, shown@, i as int);
        first_shown_is_first(candidates@, shown@, realm, 0);
    }
    let mut k: usize = 0;
    while k < i
        invariant
            k <= i < candidates@.len(),
            shown@.len() == candidates@.len(),
            realm == candidates@[i as int].source_realm@,
            forall|m: int|
                0 <= m < group_start(candidates@, shown@, i as int) ==> !#[trigger] shown_in(
                    candidates@,
                    shown@,
                    realm,
                    m,
                ),
            k <= group_start(candidates@, shown@, i as int) <= i,
            shown_in(
                candidates@,
                shown@,
                realm,
                group_start(candidates@, shown@, i as int),
            ),
        decreases i - k,
    {
        if shown[k] && text::same_text(
            candidates[k].source_realm.as_str(),
            candidates[i].source_realm.as_str(),
        ) {
            assert(shown_in(candidates@, shown@, realm, k as int));
            return false;
        }
        assert(!shown_in(candidates@, shown@, realm, k as int));
        k = k + 1;
    }
    true
}

/// The list that is shown, given which entries are: their places, group by group.
pub fn grouped_rows(candidates: &Vec<Candidate>, shown: &Vec<bool>) -> (r: Vec<usize>)
    requires
        shown@.len() == candidates@.len(),
    ensures
        is_listing(candidates@, shown@, r@),
{
    let mut rows: Vec<usize> = Vec::new();
    let mut leader: usize = 0;
    proof {
        assert forall|i: usize|
            i < candidates@.len() && shown@[i as int] && in_part(
                candidates@,
                shown@,
                0,
                0,
                i as int,
            ) implies #[trigger] rows@.contains(i) by {
            groups_start_with_their_realm(candidates@, shown@, i as int);
        }
    }
    while leader < candidates.len()
        invariant
            leader <= candidates@.len(),
            shown@.len() == candidates@.len(),
            is_part(candidates@, shown@, rows@, leader as int, leader as int),
        decreases candidates@.len() - leader,
    {
        if shown[leader] && starts_group(candidates, shown, leader) {
            push_group(candidates, shown, leader, &mut rows);
        }
        proof {
            let n = candidates@.len() as int;
            assert forall|i: int| 0 <= i < n && #[trigger] shown@[i] implies (in_part(
                candidates@,
                shown@,
                leader as int,
                n,
                i,
            ) == in_part(candidates@, shown@, leader + 1, leader + 1, i)) && (group_start(
                candidates@,
                shown@,
                i,
            ) == leader ==> shown@[leader as int] && group_start(
                candidates@,
                shown@,
                leader as int,
            ) == leader) by {
                groups_start_with_their_realm(candidates@, shown@, i);
                if group_start(candidates@, shown@, i) == leader {
                    assert(candidates@[leader as int].source_realm@ == candidates@[i].source_realm@);
                }
            }
        }
        leader = leader + 1;
    }
    proof {
        assert forall|i: usize|
            i < candidates@.len() && shown@[i as int] implies #[trigger] rows@.contains(i) by {
            groups_start_with_their_realm(candidates@, shown@, i as int);
        }
    }
    rows
}

/// The list that is shown for a query: the places of its entries, group by group.
pub fn rebuild_grouped_rows(candidates: &Vec<Candidate>, query: &str) -> (r: Vec<usize>)
    ensures
        is_listing(candidates@, shown_for(candidates@, query@), r@),
        query@.len() == 0 ==> forall|i: usize|
            i < candidates@.len() ==> #[trigger] r@.contains(i),
{
    let shown = visible_candidates(candidates, query);
    grouped_rows(candidates, &shown)
}

/// Nothing is shown that the daemon did not supply, and nothing is shown twice.
pub proof fn listing_holds_supplied_entries_once(
    candidates: Seq<Candidate>,
    shown: Seq<bool>,
    rows: Seq<usize>,
)
    requires
        is_listing(candidates, shown, rows),
    ensures
        forall|a: int| 0 <= a < rows.len() ==> (#[trigger] rows[a]) < candidates.len(),
        rows.no_duplicates(),
{
}

/// Entries of one realm stand together.
pub proof fn realms_stand_together(
    candidates: Seq<Candidate>,
    shown: Seq<bool>,
    rows: Seq<usize>,
    a: int,
    b: int,
    c: int,
)
    requires
        is_listing(candidates, shown, rows),
        0 <= a <= b <= c < rows.len(),
        candidates[rows[a] as int].source_realm@ == candidates[rows[c] as int].source_realm@,
    ensures
        candidates[rows[b] as int].source_realm@ == candidates[rows[a] as int].source_realm@,
{
    if a < b && b < c {
        assert(stands_before(candidates, shown, rows[a] as int, rows[b] as int));
        assert(stands_before(candidates, shown, rows[b] as int, rows[c] as int));
        groups_start_with_their_realm(candidates, shown, rows[a] as int);
        groups_start_with_their_realm(candidates, shown, rows[b] as int);
    }
}

/// Entries of one realm stand in the order in which the daemon supplied them.
pub proof fn supplied_order_is_kept_in_a_realm(
    candidates: Seq<Candidate>,
    shown: Seq<bool>,
    rows: Seq<usize>,
    a: int,
    b: int,
)
    requires
        is_listing(candidates, shown, rows),
        0 <= a < b < rows.len(),
        candidates[rows[a] as int].source_realm@ == candidates[rows[b] as int].source_realm@,
    ensures
        rows[a] < rows[b],
{
    assert(stands_before(candidates, shown, rows[a] as int, rows[b] as int));
}

/// Which entries are shown decides the list.
pub proof fn listing_is_determined(
    candidates: Seq<Candidate>,
    shown: Seq<bool>,
    one: Seq<usize>,
    other: Seq<usize>,
)
    requires
        is_listing(candidates, shown, one),
        is_listing(candidates, shown, other),
    ensures
        one == other,
{
    listings_agree(candidates, shown, one, other, one.len() as int);
    listings_agree(candidates, shown, other, one, other.len() as int);
    assert(one =~= other);
}

/// Two lists of the same entries agree in as many rows as the first has.
proof fn listings_agree(
    candidates: Seq<Candidate>,
    shown: Seq<bool>,
    one: Seq<usize>,
    other: Seq<usize>,
    count: int,
)
    requires
        is_listing(candidates, shown, one),
        is_listing(candidates, shown, other),
        0 <= count <= one.len(),
    ensures
        count <= other.len(),
        forall|a: int| 0 <= a < count ==> one[a] == other[a],
    decreases count,
{
    if count > 0 {
        let k = count - 1;
        listings_agree(candidates, shown, one, other, k);
        let i = one[k];
        assert(other.contains(i));
        let p = choose|p: int| 0 <= p < other.len() && other[p] == i;
        if p < k {
            assert(one[p] == i);
            assert(stands_before(candidates, shown, one[p] as int, one[k] as int));
        }
        if p > k {
            let j = other[k];
            assert(stands_before(candidates, shown, j as int, i as int));
            assert(one.contains(j));
            let q = choose|q: int| 0 <= q < one.len() && one[q] == j;
            if q < k {
                assert(other[q] == j);
                assert(stands_before(candidates, shown, other[q] as int, other[k] as int));
            } else if q > k {
                assert(stands_before(candidates, shown, i as int, j as int));
            }
        }
    }
}

/// What the daemon says about providers, isolation, attribution, times or sizes has no influence
/// on a search: entries with the same realm, application, content type and preview are found by
/// the same queries.
pub proof fn only_visible_texts_are_searched(one: Candidate, other: Candidate, query: Seq<char>)
    requires
        one.source_realm@ == other.source_realm@,
        text_or_empty(one.source_app) == text_or_empty(other.source_app),
        text_or_empty(one.source_app_id) == text_or_empty(other.source_app_id),
        one.content_type@ == other.content_type@,
        text_or_empty(one.preview_text) == text_or_empty(other.preview_text),
    ensures
        matches_query(one, query) == matches_query(other, query),
{
}

/// The place, among the entries, of the first row with this entry id.
pub fn find_displayed(candidates: &Vec<Candidate>, rows: &Vec<usize>, entry_id: &str) -> (r: Option<
    usize,
>)
    requires
        forall|a: int| 0 <= a < rows@.len() ==> (#[trigger] rows@[a]) < candidates@.len(),
    ensures
        r matches Some(i) ==> exists|a: int|
            0 <= a < rows@.len() && (#[trigger] rows@[a]) == i && candidates@[i as int].entry_id@
                == entry_id@ && forall|b: int|
                0 <= b < a ==> candidates@[(#[trigger] rows@[b]) as int].entry_id@ != entry_id@,
        r is None ==> forall|a: int|
            0 <= a < rows@.len() ==> candidates@[(#[trigger] rows@[a]) as int].entry_id@
                != entry_id@,
{
    let mut a: usize = 0;
    while a < rows.len()
        invariant
            a <= rows@.len(),
            forall|b: int| 0 <= b < rows@.len() ==> (#[trigger] rows@[b]) < candidates@.len(),
            forall|b: int|
                0 <= b < a ==> candidates@[(#[trigger] rows@[b]) as int].entry_id@ != entry_id@,
        decreases rows@.len() - a,
    {
        let i: usize = rows[a];
        assert(rows@[a as int] == i);
        if text::same_text(candidates[i].entry_id.as_str(), entry_id) {
            return Some(i);
        }
        a = a + 1;
    }
    None
}

/// The first row that can be selected.
pub fn first_selectable(selectable: &Vec<bool>) -> (r: Option<usize>)
    ensures
        r matches Some(row) ==> row < selectable@.len() && selectable@[row as int] && forall|i: int|
            0 <= i < row ==> !selectable@[i],
        r is None ==> forall|i: int| 0 <= i < selectable@.len() ==> !selectable@[i],
{
    let mut row: usize = 0;
    while row < selectable.len()
        invariant
            row <= selectable@.len(),
            forall|i: int| 0 <= i < row ==> !selectable@[i],
        decreases selectable@.len() - row,
    {
        if selectable[row] {
            return Some(row);
        }
        row = row + 1;
    }
    None
}

/// A direction in which the user moves through the list.
#[derive(Debug, Clone, Copy, PartialEq, Eq, Structural)]
pub enum Step {
    Down,
    Up,
}

/// The nearest row in a direction that can be selected, if there is one. Where no row is
/// selected, the user starts at the first.
pub fn select_relative(selectable: &Vec<bool>, selected: Option<usize>, step: Step) -> (r: Option<
    usize,
>)
    requires
        selected matches Some(row) ==> row < selectable@.len(),
    ensures
        ({
            let current: int = match selected {
                Some(row) => row as int,
                None => 0,
            };
            match step {
                Step::Down => {
                    &&& r matches Some(row) ==> current < row < selectable@.len()
                        && selectable@[row as int] && forall|i: int|
                        current < i < row ==> !selectable@[i]
                    &&& r is None ==> forall|i: int|
                        current < i < selectable@.len() ==> !selectable@[i]
                },
                Step::Up => {
                    &&& r matches Some(row) ==> row < current && row < selectable@.len()
                        && selectable@[row as int] && forall|i: int|
                        row < i < current ==> !selectable@[i]
                    &&& r is None ==> forall|i: int| 0 <= i < current ==> !selectable@[i]
                },
            }
        }),
{
    let current: usize = match selected {
        Some(row) => row,
        None => 0,
    };
    match step {
        Step::Down => next_down(selectable, current),
        Step::Up => next_up(selectable, current),
    }
}

fn next_down(selectable: &Vec<bool>, current: usize) -> (r: Option<usize>)
    requires
        current < selectable@.len() || current == 0,
    ensures
        r matches Some(row) ==> current < row < selectable@.len() && selectable@[row as int]
            && forall|i: int| current < i < row ==> !selectable@[i],
        r is None ==> forall|i: int| current < i < selectable@.len() ==> !selectable@[i],
{
    let size: usize = selectable.len();
    let mut row: usize = current;
    while row < size
        invariant
            current <= row,
            size == selectable@.len(),
            row <= size || row == current,
            forall|i: int| current < i < row ==> !selectable@[i],
        decreases size - row,
    {
        if row > current && selectable[row] {
            return Some(row);
        }
        row = row + 1;
    }
    None
}

fn next_up(selectable: &Vec<bool>, current: usize) -> (r: Option<usize>)
    requires
        current <= selectable@.len(),
    ensures
        r matches Some(row) ==> row < current && selectable@[row as int] && forall|i: int|
            row < i < current ==> !selectable@[i],
        r is None ==> forall|i: int| 0 <= i < current ==> !selectable@[i],
{
    let mut row: usize = current;
    while row > 0
        invariant
            row <= current <= selectable@.len(),
            forall|i: int| row <= i < current ==> !selectable@[i],
        decreases row,
    {
        row = row - 1;
        if selectable[row] {
            return Some(row);
        }
    }
    None
}

/// What stands in the list where no entry is shown.
pub const NO_MATCHES: &'static str = "No matching clipboard entries";

/// What stands beside an entry that has to be selected twice.
pub const CONFIRMATION_REQUIRED: &'static str = "Confirmation required";

pub open spec fn search_heading(query: Seq<char>) -> Seq<char> {
    if query.len() == 0 {
        "Search…"@
    } else {
        "Search: "@ + query
    }
}

/// What stands in the search field.
pub fn search_label(query: &str) -> (r: String)
    ensures
        r@ == search_heading(query@),
{
    if query.is_empty() {
        "Search…".to_owned()
    } else {
        let mut r: String = "Search: ".to_owned();
        r.append(query);
        r
    }
}

/// What is shown of an entry.
pub struct CandidateRow {
    pub entry_id: String,
    pub css_class: Option<String>,
    pub kind: &'static str,
    pub icon: &'static str,
    pub realm: String,
    pub time: String,
    pub identity: Option<String>,
    pub warning: Option<&'static str>,
    pub app: String,
    /// The image that is shown, where it can be drawn.
    pub thumbnail: Option<Vec<u8>>,
    /// What is shown where no image is.
    pub preview: String,
    pub confirmation: Option<&'static str>,
}

/// What is shown of an entry whose realm has this style class, where `now_ms` is what the clock
/// shows.
pub fn candidate_row(candidate: &Candidate, css_class: Option<&str>, now_ms: Option<u64>) -> (r:
    CandidateRow)
    ensures
        r.entry_id@ == candidate.entry_id@,
        protocol::optional_text(r.css_class) == (match css_class {
            Some(class) => Some(class@),
            None => None,
        }),
        (r.kind@, r.icon@) == protocol::content_kind(candidate.content_type@),
        r.realm@ == protocol::sanitized(candidate.source_realm@, 48),
        r.time@ == presentation::age_label(candidate.timestamp_unix_ms, now_ms),
        protocol::optional_text(r.identity) == presentation::shown_identity(
            candidate.source_provider_kind,
            candidate.source_isolation_posture,
        ),
        presentation::label_text(r.warning) == presentation::shown_warning(
            candidate.source_provider_kind,
            candidate.source_isolation_posture,
        ),
        r.app@ == presentation::app_source(*candidate),
        candidate.thumbnail_png_base64 is None ==> r.thumbnail is None,
        candidate.thumbnail_png_base64 matches Some(encoded) ==> thumbnail::optional_bytes(
            r.thumbnail,
        ) == thumbnail::shown_thumbnail(*candidate, thumbnail::base64_decoded(encoded@)),
        r.preview@ == presentation::preview_of(*candidate),
        presentation::label_text(r.confirmation) == (if candidate.confirmation_required {
            Some(CONFIRMATION_REQUIRED@)
        } else {
            None
        }),
{
    let (kind, icon) = display_content_kind(candidate.content_type.as_str());
    let presentation = candidate_presentation(candidate);
    CandidateRow {
        entry_id: candidate.entry_id.clone(),
        css_class: match css_class {
            Some(class) => Some(class.to_owned()),
            None => None,
        },
        kind,
        icon,
        realm: source_label(candidate),
        time: format_timestamp(candidate.timestamp_unix_ms, now_ms),
        identity: presentation.identity_label(),
        warning: presentation.warning,
        app: app_source_label(candidate),
        thumbnail: safe_host_thumbnail(candidate),
        preview: preview_text(candidate),
        confirmation: if candidate.confirmation_required {
            Some(CONFIRMATION_REQUIRED)
        } else {
            None
        },
    }
}

/// Every text of an entry is searched, whole and in its place: the realm, the application, its
/// id, the content type and the preview, in this order, with one space between each two, and
/// nothing else.
pub proof fn every_text_is_searched(candidate: Candidate)
    ensures
        ({
            let searched = searched_text(candidate);
            let realm = candidate.source_realm@;
            let app = text_or_empty(candidate.source_app);
            let app_id = text_or_empty(candidate.source_app_id);
            let content_type = candidate.content_type@;
            let preview = text_or_empty(candidate.preview_text);
            let app_at: int = realm.len() as int + 1;
            let app_id_at: int = app_at + app.len() + 1;
            let type_at: int = app_id_at + app_id.len() + 1;
            let preview_at: int = type_at + content_type.len() + 1;
            &&& searched.take(realm.len() as int) == realm
            &&& searched.subrange(app_at, app_at + app.len()) == app
            &&& searched.subrange(app_id_at, app_id_at + app_id.len()) == app_id
            &&& searched.subrange(type_at, type_at + content_type.len()) == content_type
            &&& searched.skip(preview_at) == preview
            &&& searched.len() == preview_at + preview.len()
            &&& searched[app_at - 1] == ' '
            &&& searched[app_id_at - 1] == ' '
            &&& searched[type_at - 1] == ' '
            &&& searched[preview_at - 1] == ' '
        }),
        candidate.source_app matches Some(app) ==> text_or_empty(candidate.source_app) == app@,
        candidate.source_app_id matches Some(id) ==> text_or_empty(candidate.source_app_id) == id@,
        candidate.preview_text matches Some(preview) ==> text_or_empty(candidate.preview_text)
            == preview@,
{
    reveal_strlit(" ");
    let searched = searched_text(candidate);
    let realm = candidate.source_realm@;
    let app = text_or_empty(candidate.source_app);
    let app_id = text_or_empty(candidate.source_app_id);
    let content_type = candidate.content_type@;
    let preview = text_or_empty(candidate.preview_text);
    let app_at: int = realm.len() as int + 1;
    let app_id_at: int = app_at + app.len() + 1;
    let type_at: int = app_id_at + app_id.len() + 1;
    let preview_at: int = type_at + content_type.len() + 1;
    assert(" "@.len() == 1);
    assert(searched.take(realm.len() as int) =~= realm);
    assert(searched.subrange(app_at, app_at + app.len()) =~= app);
    assert(searched.subrange(app_id_at, app_id_at + app_id.len()) =~= app_id);
    assert(searched.subrange(type_at, type_at + content_type.len()) =~= content_type);
    assert(searched.skip(preview_at) =~= preview);
}

/// Any part of the realm, of the application, of its id, of the content type or of the preview of
/// an entry is found in what a search looks at.
pub proof fn any_part_of_a_text_is_searched(candidate: Candidate, part: Seq<char>)
    requires
        text::occurs_in(part, candidate.source_realm@) || (candidate.source_app matches Some(app)
            && text::occurs_in(part, app@)) || (candidate.source_app_id matches Some(id)
            && text::occurs_in(part, id@)) || text::occurs_in(part, candidate.content_type@) || (
        candidate.preview_text matches Some(preview) && text::occurs_in(part, preview@)),
    ensures
        text::occurs_in(part, searched_text(candidate)),
{
    every_text_is_searched(candidate);
    let searched = searched_text(candidate);
    let realm = candidate.source_realm@;
    let app = text_or_empty(candidate.source_app);
    let app_id = text_or_empty(candidate.source_app_id);
    let content_type = candidate.content_type@;
    let preview = text_or_empty(candidate.preview_text);
    let app_at: int = realm.len() as int + 1;
    let app_id_at: int = app_at + app.len() + 1;
    let type_at: int = app_id_at + app_id.len() + 1;
    let preview_at: int = type_at + content_type.len() + 1;
    if text::occurs_in(part, realm) {
        part_is_found(part, searched, 0, realm.len() as int);
    } else if text::occurs_in(part, app) {
        part_is_found(part, searched, app_at, app_at + app.len());
    } else if text::occurs_in(part, app_id) {
        part_is_found(part, searched, app_id_at, app_id_at + app_id.len());
    } else if text::occurs_in(part, content_type) {
        part_is_found(part, searched, type_at, type_at + content_type.len());
    } else {
        assert(searched.skip(preview_at) =~= searched.subrange(
            preview_at,
            searched.len() as int,
        ));
        part_is_found(part, searched, preview_at, searched.len() as int);
    }
}

proof fn part_is_found(part: Seq<char>, searched: Seq<char>, start: int, end: int)
    requires
        0 <= start <= end <= searched.len(),
        text::occurs_in(part, searched.subrange(start, end)),
    ensures
        text::occurs_in(part, searched),
{
    let before = searched.take(start);
    let after = searched.skip(end);
    text::found_text_stays_found(part, before, searched.subrange(start, end), after);
    assert(before + searched.subrange(start, end) + after =~= searched);
}

/// A query finds an entry exactly if it is empty or stands, in lower case, anywhere in what a
/// search looks at, in lower case.
pub proof fn queries_find_what_they_stand_in(candidate: Candidate, query: Seq<char>)
    ensures
        query.len() == 0 ==> matches_query(candidate, query),
        matches_query(candidate, query) && query.len() > 0 ==> exists|
            before: Seq<char>,
            after: Seq<char>,
        |
            text::lowercased(searched_text(candidate)) == #[trigger] (before + query + after),
        forall|before: Seq<char>, after: Seq<char>|
            text::lowercased(searched_text(candidate)) == #[trigger] (before + query + after)
                ==> matches_query(candidate, query),
{
    let searched = text::lowercased(searched_text(candidate));
    if matches_query(candidate, query) && query.len() > 0 {
        text::found_text_is_inner(query, searched);
    }
    assert forall|before: Seq<char>, after: Seq<char>|
        searched == #[trigger] (before + query + after) implies matches_query(candidate, query) by {
        text::inner_text_is_found(before, query, after);
    }
}

/// The list for a query holds exactly the entries that the query finds.
pub proof fn listing_holds_what_is_found(
    candidates: Seq<Candidate>,
    query: Seq<char>,
    rows: Seq<usize>,
    i: usize,
)
    requires
        is_listing(candidates, shown_for(candidates, query), rows),
        i < candidates.len(),
    ensures
        rows.contains(i) <==> text::lowercased(query).len() == 0 || text::occurs_in(
            text::lowercased(query),
            text::lowercased(searched_text(candidates[i as int])),
        ),
{
    let shown = shown_for(candidates, query);
    if rows.contains(i) {
        let a = choose|a: int| 0 <= a < rows.len() && rows[a] == i;
        assert(shown[rows[a] as int]);
    }
}

/// A list holds exactly the entries that are shown.
pub proof fn listing_holds_what_is_shown(
    candidates: Seq<Candidate>,
    shown: Seq<bool>,
    rows: Seq<usize>,
    i: usize,
)
    requires
        is_listing(candidates, shown, rows),
        i < candidates.len(),
    ensures
        rows.contains(i) <==> shown[i as int],
{
    if rows.contains(i) {
        let a = choose|a: int| 0 <= a < rows.len() && rows[a] == i;
        assert(shown[rows[a] as int]);
    }
}

/// Realms stand in the order of their first entries: of two rows of different realms, the first
/// belongs to the realm of which an entry was supplied before every entry of the other.
pub proof fn realms_stand_as_first_supplied(
    candidates: Seq<Candidate>,
    shown: Seq<bool>,
    rows: Seq<usize>,
    a: int,
    b: int,
)
    requires
        is_listing(candidates, shown, rows),
        0 <= a < b < rows.len(),
        candidates[rows[a] as int].source_realm@ != candidates[rows[b] as int].source_realm@,
    ensures
        exists|i: int|
            0 <= i < candidates.len() && #[trigger] shown[i] && candidates[i].source_realm@
                == candidates[rows[a] as int].source_realm@ && forall|j: int|
                0 <= j < candidates.len() && #[trigger] shown[j] && candidates[j].source_realm@
                    == candidates[rows[b] as int].source_realm@ ==> i < j,
{
    assert(stands_before(candidates, shown, rows[a] as int, rows[b] as int));
    groups_start_with_their_realm(candidates, shown, rows[a] as int);
    groups_start_with_their_realm(candidates, shown, rows[b] as int);
    let realm = candidates[rows[b] as int].source_realm@;
    first_shown_is_first(candidates, shown, realm, 0);
    let i = group_start(candidates, shown, rows[a] as int);
    assert forall|j: int|
        0 <= j < candidates.len() && #[trigger] shown[j] && candidates[j].source_realm@
            == realm implies i < j by {
        assert(shown_in(candidates, shown, realm, j));
    }
    assert(shown[i]);
}

/// What the user searches for stands in the search field, after a word that says so.
pub proof fn search_field_shows_the_query(query: Seq<char>)
    ensures
        query.len() > 0 ==> search_heading(query).skip(8) == query && search_heading(query).take(8)
            == "Search: "@,
        query.len() == 0 ==> search_heading(query) == "Search…"@,
{
    reveal_strlit("Search: ");
    assert("Search: "@.len() == 8);
    assert(("Search: "@ + query).skip(8) =~= query);
    assert(("Search: "@ + query).take(8) =~= "Search: "@);
}

/// What is shown of an entry is the entry's own, each part by itself.
pub proof fn rows_show_their_entry(
    candidate: Candidate,
    css_class: Option<&str>,
    now_ms: Option<u64>,
    r: CandidateRow,
)
    requires
        call_ensures(candidate_row, (&candidate, css_class, now_ms), r),
    ensures
        r.entry_id@ == candidate.entry_id@,
        r.confirmation is Some <==> candidate.confirmation_required,
        r.warning is Some <==> candidate.source_provider_kind is UnsafeLocal
            || candidate.source_isolation_posture is UnsafeLocal,
        r.identity is Some <==> !(candidate.source_provider_kind is Unknown)
            || !(candidate.source_isolation_posture is Unknown),
        r.css_class is Some <==> css_class is Some,
        css_class matches Some(class) ==> r.css_class->0@ == class@,
        candidate.thumbnail_png_base64 is None ==> r.thumbnail is None,
        candidate.timestamp_unix_ms is None ==> r.time@ == "Unknown time"@,
        r.realm@ == protocol::sanitized(candidate.source_realm@, 48),
{
}

} // verus!
