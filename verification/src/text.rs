//! Text as sequences of characters: the few string operations that the picker needs.

use vstd::prelude::*;

verus! {

/// `String::push`: the character is put behind the text.
pub assume_specification[ String::push ](s: &mut String, c: char)
    ensures
        final(s)@ == old(s)@.push(c),
;

/// `String::pop`: the last character leaves the text, if there is one.
pub assume_specification[ String::pop ](s: &mut String) -> (r: Option<char>)
    ensures
        old(s)@.len() == 0 ==> r is None && final(s)@ == old(s)@,
        old(s)@.len() > 0 ==> r == Some(old(s)@.last()) && final(s)@ == old(s)@.drop_last(),
;

/// What `str::to_lowercase` makes of a text.
pub uninterp spec fn lowercased(s: Seq<char>) -> Seq<char>;

/// Calls `str::to_lowercase`. The mapping is Unicode's and is named, not spelled out: equal
/// texts have equal lower-case forms. That of an empty text is empty.
#[verifier::external_body]
pub(crate) fn lowercase(s: &str) -> (r: String)
    ensures
        r@ == lowercased(s@),
        s@.len() == 0 ==> r@.len() == 0,
{
    s.to_lowercase()
}

/// Whether `c` is a control character (Unicode general category Cc).
pub open spec fn is_control_char(c: char) -> bool {
    c <= '\u{1f}' || '\u{7f}' <= c <= '\u{9f}'
}

pub fn is_control(c: char) -> (r: bool)
    ensures
        r == is_control_char(c),
{
    c <= '\u{1f}' || ('\u{7f}' <= c && c <= '\u{9f}')
}

/// Whether `c` has the Unicode property White_Space.
pub open spec fn is_space_char(c: char) -> bool {
    ||| '\u{9}' <= c <= '\u{d}'
    ||| c == ' '
    ||| c == '\u{85}'
    ||| c == '\u{a0}'
    ||| c == '\u{1680}'
    ||| '\u{2000}' <= c <= '\u{200a}'
    ||| c == '\u{2028}'
    ||| c == '\u{2029}'
    ||| c == '\u{202f}'
    ||| c == '\u{205f}'
    ||| c == '\u{3000}'
}

pub fn is_space(c: char) -> (r: bool)
    ensures
        r == is_space_char(c),
{
    ('\u{9}' <= c && c <= '\u{d}') || c == ' ' || c == '\u{85}' || c == '\u{a0}' || c == '\u{1680}'
        || ('\u{2000}' <= c && c <= '\u{200a}') || c == '\u{2028}' || c == '\u{2029}' || c
        == '\u{202f}' || c == '\u{205f}' || c == '\u{3000}'
}

/// The characters of a text, one by one.
pub fn chars_of(s: &str) -> (r: Vec<char>)
    ensures
        r@ == s@,
{
    let mut r: Vec<char> = Vec::new();
    for c in it: s.chars()
        invariant
            it.seq() == s@,
            r@ == s@.take(it.index() as int),
    {
        r.push(c);
        assert(s@.take(it.index() as int + 1) =~= s@.take(it.index() as int).push(c));
    }
    assert(s@.take(s@.len() as int) =~= s@);
    r
}

/// The text that some characters spell.
pub fn text_of(chars: &[char]) -> (r: String)
    ensures
        r@ == chars@,
{
    let mut r: String = String::new();
    let mut i: usize = 0;
    while i < chars.len()
        invariant
            i <= chars@.len(),
            r@ == chars@.take(i as int),
        decreases chars.len() - i,
    {
        r.push(chars[i]);
        i = i + 1;
        assert(chars@.take(i as int) =~= chars@.take(i - 1).push(chars@[i - 1]));
    }
    assert(chars@.take(chars@.len() as int) =~= chars@);
    r
}

/// Whether two byte strings are the same.
pub fn same_bytes(a: &[u8], b: &[u8]) -> (r: bool)
    ensures
        r == (a@ == b@),
{
    if a.len() != b.len() {
        return false;
    }
    let mut i: usize = 0;
    while i < a.len()
        invariant
            i <= a@.len(),
            a@.len() == b@.len(),
            forall|j: int| 0 <= j < i ==> a@[j] == b@[j],
        decreases a.len() - i,
    {
        if a[i] != b[i] {
            return false;
        }
        i = i + 1;
    }
    assert(a@ =~= b@);
    true
}

/// Whether two texts are the same.
pub fn same_text(a: &str, b: &str) -> (r: bool)
    ensures
        r == (a@ == b@),
{
    proof {
        vstd::utf8::encode_utf8_decode_utf8(a@);
        vstd::utf8::encode_utf8_decode_utf8(b@);
    }
    same_bytes(a.as_bytes(), b.as_bytes())
}

/// The characters from `start` up to, but not with, `end`.
pub fn slice_of(chars: &[char], start: usize, end: usize) -> (r: Vec<char>)
    requires
        start <= end <= chars@.len(),
    ensures
        r@ == chars@.subrange(start as int, end as int),
{
    let mut r: Vec<char> = Vec::new();
    let mut i: usize = start;
    while i < end
        invariant
            start <= i <= end <= chars@.len(),
            r@ == chars@.subrange(start as int, i as int),
        decreases end - i,
    {
        r.push(chars[i]);
        i = i + 1;
        assert(chars@.subrange(start as int, i as int) =~= chars@.subrange(
            start as int,
            i - 1,
        ).push(chars@[i - 1]));
    }
    r
}

/// The place of the first `c` in a text, or its length if `c` does not occur.
pub open spec fn first_place(s: Seq<char>, c: char) -> nat
    decreases s.len(),
{
    if s.len() == 0 || s[0] == c {
        0
    } else {
        1 + first_place(s.drop_first(), c)
    }
}

/// `first_place` is the one place that has `c` and no `c` before it, or else the end.
pub proof fn first_place_is_first(s: Seq<char>, c: char)
    ensures
        first_place(s, c) <= s.len(),
        first_place(s, c) < s.len() ==> s[first_place(s, c) as int] == c,
        forall|i: int| 0 <= i < first_place(s, c) ==> s[i] != c,
    decreases s.len(),
{
    if s.len() > 0 && s[0] != c {
        first_place_is_first(s.drop_first(), c);
        assert forall|i: int| 0 <= i < first_place(s, c) implies s[i] != c by {
            if i > 0 {
                assert(s.drop_first()[i - 1] == s[i]);
            }
        }
    }
}

/// Where the first `c` stands.
pub fn find_char(chars: &[char], c: char) -> (r: usize)
    ensures
        r == first_place(chars@, c),
{
    let mut i: usize = 0;
    proof {
        first_place_is_first(chars@, c);
    }
    while i < chars.len() && chars[i] != c
        invariant
            i <= chars@.len(),
            forall|j: int| 0 <= j < i ==> chars@[j] != c,
        decreases chars.len() - i,
    {
        i = i + 1;
    }
    i
}

/// A text up to, but not with, its first `c`.
pub open spec fn before_first(s: Seq<char>, c: char) -> Seq<char> {
    s.take(first_place(s, c) as int)
}

/// Whether `needle` occurs in `haystack`.
pub open spec fn occurs_in(needle: Seq<char>, haystack: Seq<char>) -> bool {
    exists|i: int|
        0 <= i <= haystack.len() - needle.len() && #[trigger] haystack.subrange(
            i,
            i + needle.len(),
        ) == needle
}

/// Whether `needle` stands in `haystack` at place `at`.
fn stands_at(needle: &[char], haystack: &[char], at: usize) -> (r: bool)
    requires
        at + needle@.len() <= haystack@.len(),
    ensures
        r == (haystack@.subrange(at as int, at + needle@.len()) == needle@),
{
    let size: usize = haystack.len();
    let mut i: usize = 0;
    while i < needle.len()
        invariant
            i <= needle@.len(),
            size == haystack@.len(),
            at + needle@.len() <= size,
            forall|j: int| 0 <= j < i ==> haystack@[at + j] == needle@[j],
        decreases needle.len() - i,
    {
        if haystack[at + i] != needle[i] {
            assert(haystack@.subrange(at as int, at + needle@.len())[i as int] != needle@[i as int]);
            return false;
        }
        i = i + 1;
    }
    assert(haystack@.subrange(at as int, at + needle@.len()) =~= needle@);
    true
}

/// Looks for `needle` in `haystack`.
pub fn contains_text(haystack: &str, needle: &str) -> (r: bool)
    ensures
        r == occurs_in(needle@, haystack@),
{
    let hay = chars_of(haystack);
    let pin = chars_of(needle);
    if pin.len() > hay.len() {
        return false;
    }
    let mut i: usize = 0;
    let last: usize = hay.len() - pin.len();
    loop
        invariant
            hay@ == haystack@,
            pin@ == needle@,
            pin@.len() <= hay@.len(),
            last == hay@.len() - pin@.len(),
            i <= last,
            forall|j: int|
                0 <= j < i ==> #[trigger] haystack@.subrange(j, j + needle@.len()) != needle@,
        decreases last - i,
    {
        if stands_at(pin.as_slice(), hay.as_slice(), i) {
            return true;
        }
        if i == last {
            return false;
        }
        i = i + 1;
    }
}

/// The decimal digits of a number, without leading zeros.
pub open spec fn decimal_digits(n: nat) -> Seq<char>
    decreases n,
{
    if n < 10 {
        seq![digit_char(n)]
    } else {
        decimal_digits(n / 10).push(digit_char(n % 10))
    }
}

/// The character of one decimal digit.
pub open spec fn digit_char(d: nat) -> char {
    (48 + d) as char
}

/// Writes a number in decimal.
pub fn decimal(n: u64) -> (r: String)
    ensures
        r@ == decimal_digits(n as nat),
    decreases n,
{
    if n < 10 {
        let mut r: String = String::new();
        r.push(digit(n as u8));
        assert(r@ =~= seq![digit_char(n as nat)]);
        r
    } else {
        let mut r: String = decimal(n / 10);
        r.push(digit((n % 10) as u8));
        r
    }
}

/// The digits of a number that may be negative.
pub open spec fn signed_digits(n: int) -> Seq<char> {
    if n < 0 {
        "-"@ + decimal_digits((-n) as nat)
    } else {
        decimal_digits(n as nat)
    }
}

/// Writes a number that may be negative in decimal.
pub fn signed_decimal(n: i32) -> (r: String)
    ensures
        r@ == signed_digits(n as int),
{
    if n < 0 {
        let mut r: String = "-".to_owned();
        let digits = decimal((-(n as i64)) as u64);
        r.append(digits.as_str());
        r
    } else {
        decimal(n as u64)
    }
}

fn digit(d: u8) -> (c: char)
    requires
        d < 10,
    ensures
        c == digit_char(d as nat),
{
    (48 + d) as char
}

/// A text without the white space at its start.
pub open spec fn without_leading_space(s: Seq<char>) -> Seq<char>
    decreases s.len(),
{
    if s.len() > 0 && is_space_char(s[0]) {
        without_leading_space(s.drop_first())
    } else {
        s
    }
}

/// A text without the white space at its end.
pub open spec fn without_trailing_space(s: Seq<char>) -> Seq<char>
    decreases s.len(),
{
    if s.len() > 0 && is_space_char(s.last()) {
        without_trailing_space(s.drop_last())
    } else {
        s
    }
}

/// A text without the white space around it.
pub open spec fn trimmed(s: Seq<char>) -> Seq<char> {
    without_trailing_space(without_leading_space(s))
}

/// What trimming takes away is white space: any other character is still there.
pub proof fn trimming_keeps_the_rest(s: Seq<char>, i: int)
    requires
        0 <= i < s.len(),
    ensures
        is_space_char(s[i]) || trimmed(s).contains(s[i]),
{
    lemma_leading_space(s, i);
    let rest = without_leading_space(s);
    if !is_space_char(s[i]) {
        let j = choose|j: int| 0 <= j < rest.len() && rest[j] == s[i];
        lemma_trailing_space(rest, j);
    }
}

proof fn lemma_leading_space(s: Seq<char>, i: int)
    requires
        0 <= i < s.len(),
    ensures
        is_space_char(s[i]) || without_leading_space(s).contains(s[i]),
    decreases s.len(),
{
    if is_space_char(s[0]) && i > 0 {
        assert(s.drop_first()[i - 1] == s[i]);
        lemma_leading_space(s.drop_first(), i - 1);
    }
}

proof fn lemma_trailing_space(s: Seq<char>, i: int)
    requires
        0 <= i < s.len(),
    ensures
        is_space_char(s[i]) || without_trailing_space(s).contains(s[i]),
    decreases s.len(),
{
    if is_space_char(s.last()) && i < s.len() - 1 {
        assert(s.drop_last()[i] == s[i]);
        lemma_trailing_space(s.drop_last(), i);
    }
}

/// Takes the white space around a text away.
pub fn trim(chars: &[char]) -> (r: Vec<char>)
    ensures
        r@ == trimmed(chars@),
{
    let mut start: usize = 0;
    assert(chars@.skip(0) =~= chars@);
    while start < chars.len() && is_space(chars[start])
        invariant
            start <= chars@.len(),
            without_leading_space(chars@) == without_leading_space(chars@.skip(start as int)),
        decreases chars.len() - start,
    {
        assert(chars@.skip(start as int).drop_first() =~= chars@.skip(start + 1));
        start = start + 1;
    }
    let ghost rest = chars@.skip(start as int);
    assert(without_leading_space(chars@) == rest);
    let mut end: usize = chars.len();
    assert(rest.take(end - start) =~= rest);
    while start < end && is_space(chars[end - 1])
        invariant
            start <= end <= chars@.len(),
            rest == chars@.skip(start as int),
            without_trailing_space(rest) == without_trailing_space(rest.take(end - start)),
        decreases end,
    {
        let ghost shown = rest.take(end - start);
        assert(shown.last() == chars@[end - 1]);
        assert(shown.drop_last() =~= rest.take(end - start - 1));
        end = end - 1;
    }
    assert(start < end ==> rest.take(end - start).last() == chars@[end - 1]);
    let r = slice_of(chars, start, end);
    assert(r@ =~= rest.take(end - start));
    r
}

/// A text is found between any two others.
pub proof fn inner_text_is_found(before: Seq<char>, needle: Seq<char>, after: Seq<char>)
    ensures
        occurs_in(needle, before + needle + after),
{
    let haystack = before + needle + after;
    let at = before.len() as int;
    assert(haystack.subrange(at, at + needle.len()) =~= needle);
}

/// Only a text that stands between two others is found.
pub proof fn found_text_is_inner(needle: Seq<char>, haystack: Seq<char>)
    requires
        occurs_in(needle, haystack),
    ensures
        exists|before: Seq<char>, after: Seq<char>|
            haystack == #[trigger] (before + needle + after),
{
    let at = choose|i: int|
        0 <= i <= haystack.len() - needle.len() && #[trigger] haystack.subrange(
            i,
            i + needle.len(),
        ) == needle;
    let before = haystack.take(at);
    let after = haystack.skip(at + needle.len());
    assert(haystack =~= before + haystack.subrange(at, at + needle.len()) + after);
}

/// What is found in a text is found in every text around it.
pub proof fn found_text_stays_found(
    needle: Seq<char>,
    before: Seq<char>,
    inner: Seq<char>,
    after: Seq<char>,
)
    requires
        occurs_in(needle, inner),
    ensures
        occurs_in(needle, before + inner + after),
{
    let haystack = before + inner + after;
    let at = choose|i: int|
        0 <= i <= inner.len() - needle.len() && #[trigger] inner.subrange(i, i + needle.len())
            == needle;
    let place = before.len() + at;
    assert(haystack.subrange(place, place + needle.len()) =~= inner.subrange(
        at,
        at + needle.len(),
    ));
}

/// The digits of a number below ten are one character, and every other digit goes behind the
/// digits of the number without it.
pub proof fn digits_are_written_from_the_highest(n: nat, d: nat)
    requires
        d < 10,
    ensures
        decimal_digits(0) == seq!['0'],
        decimal_digits(d).len() == 1,
        decimal_digits(d)[0] as int == 48 + d,
        n > 0 ==> decimal_digits(10 * n + d) == decimal_digits(n) + decimal_digits(d),
        signed_digits(n as int) == decimal_digits(n),
        n > 0 ==> signed_digits(-(n as int)) == "-"@ + decimal_digits(n),
{
    assert(decimal_digits(n) + decimal_digits(d) =~= decimal_digits(n).push(digit_char(d)));
    assert(decimal_digits(0) =~= seq!['0']);
}

/// A text is its trimmed form with white space on both sides, and the trimmed form neither starts
/// nor ends with white space.
pub proof fn trimming_takes_the_space_around(s: Seq<char>)
    ensures
        trimmed(s).len() > 0 ==> !is_space_char(trimmed(s)[0]) && !is_space_char(trimmed(s).last()),
        exists|before: Seq<char>, after: Seq<char>|
            {
                &&& s == #[trigger] (before + trimmed(s) + after)
                &&& forall|i: int| 0 <= i < before.len() ==> is_space_char(#[trigger] before[i])
                &&& forall|i: int| 0 <= i < after.len() ==> is_space_char(#[trigger] after[i])
            },
{
    let rest = without_leading_space(s);
    let before = lemma_leading_part(s);
    let after = lemma_trailing_part(rest);
    assert(s =~= before + trimmed(s) + after);
    if trimmed(s).len() > 0 {
        assert(trimmed(s)[0] == rest[0]);
    }
}

proof fn lemma_leading_part(s: Seq<char>) -> (before: Seq<char>)
    ensures
        s == before + without_leading_space(s),
        forall|i: int| 0 <= i < before.len() ==> is_space_char(#[trigger] before[i]),
        without_leading_space(s).len() > 0 ==> !is_space_char(without_leading_space(s)[0]),
    decreases s.len(),
{
    if s.len() > 0 && is_space_char(s[0]) {
        let shorter = lemma_leading_part(s.drop_first());
        let before = seq![s[0]] + shorter;
        assert(s =~= seq![s[0]] + s.drop_first());
        assert(seq![s[0]] + (shorter + without_leading_space(s)) =~= before
            + without_leading_space(s));
        assert(s =~= before + without_leading_space(s));
        assert forall|i: int| 0 <= i < before.len() implies is_space_char(#[trigger] before[i]) by {
            if i > 0 {
                assert(before[i] == shorter[i - 1]);
            }
        }
        before
    } else {
        let before = Seq::<char>::empty();
        assert(s =~= before + s);
        before
    }
}

proof fn lemma_trailing_part(s: Seq<char>) -> (after: Seq<char>)
    ensures
        s == without_trailing_space(s) + after,
        forall|i: int| 0 <= i < after.len() ==> is_space_char(#[trigger] after[i]),
        without_trailing_space(s).len() > 0 ==> !is_space_char(without_trailing_space(s).last()),
    decreases s.len(),
{
    if s.len() > 0 && is_space_char(s.last()) {
        let shorter = lemma_trailing_part(s.drop_last());
        let after = shorter.push(s.last());
        assert(s =~= s.drop_last().push(s.last()));
        assert((without_trailing_space(s) + shorter).push(s.last()) =~= without_trailing_space(s)
            + after);
        assert(s =~= without_trailing_space(s) + after);
        assert forall|i: int| 0 <= i < after.len() implies is_space_char(#[trigger] after[i]) by {
            if i < shorter.len() {
                assert(after[i] == shorter[i]);
            }
        }
        after
    } else {
        let after = Seq::<char>::empty();
        assert(s =~= s + after);
        after
    }
}

/// A character is a control character if it stands before the space or from the delete character
/// up to the no-break space; nothing from the space to the tilde is one.
pub proof fn printable_characters_are_no_controls(c: char)
    ensures
        is_control_char(c) <==> c < ' ' || '~' < c < '\u{a0}',
{
}

/// What stands before the first `c` holds no `c`; the text goes on with it, or ends there.
pub proof fn text_before_the_first(before: Seq<char>, after: Seq<char>, c: char)
    requires
        !before.contains(c),
    ensures
        before_first(before + seq![c] + after, c) == before,
        before_first(before, c) == before,
{
    let whole = before + seq![c] + after;
    first_place_is_first(whole, c);
    first_place_is_first(before, c);
    assert(whole[before.len() as int] == c);
    let place = first_place(whole, c) as int;
    if place < before.len() {
        assert(whole[place] == before[place]);
        assert(before.contains(before[place]));
    }
    let inner = first_place(before, c) as int;
    if inner < before.len() {
        assert(before.contains(before[inner]));
    }
    assert(whole.take(place) =~= before);
    assert(before.take(inner) =~= before);
}

/// White space is the characters from the tab to the carriage return, the space, the next-line
/// character, the no-break space, and the spaces and separators of Unicode.
pub proof fn white_space_is_that_of_unicode(c: char)
    ensures
        is_space_char(c) <==> {
            let n = c as int;
            ||| 9 <= n <= 13
            ||| n == 32
            ||| n == 133
            ||| n == 160
            ||| n == 5760
            ||| 8192 <= n <= 8202
            ||| n == 8232
            ||| n == 8233
            ||| n == 8239
            ||| n == 8287
            ||| n == 12288
        },
{
}

} // verus!
