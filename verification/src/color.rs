//! Colors that may be written into a style sheet.

use crate::opacity;
use crate::text;
use vstd::prelude::*;

verus! {

/// A hexadecimal digit, lower case if it is a letter.
pub open spec fn is_hex_char(c: char) -> bool {
    '0' <= c <= '9' || 'a' <= c <= 'f'
}

/// A color of the form `#rrggbb`.
pub open spec fn hex_color(s: Seq<char>) -> bool {
    &&& s.len() == 7
    &&& s[0] == '#'
    &&& forall|i: int| 1 <= i < 7 ==> is_hex_char(#[trigger] s[i])
}

/// What stands in the brackets of `alpha(...)`: a color, a comma and an opacity, with white
/// space around the two or without.
pub open spec fn alpha_arguments(inner: Seq<char>) -> bool {
    let comma = text::first_place(inner, ',') as int;
    let color = text::trimmed(inner.take(comma));
    let opacity = text::trimmed(inner.skip(comma + 1));
    &&& comma < inner.len()
    &&& color == "currentColor"@ || hex_color(color)
    &&& opacity::is_opacity(opacity)
}

/// A color of the form `alpha(#rrggbb, opacity)` or `alpha(currentColor, opacity)`.
pub open spec fn alpha_color(s: Seq<char>) -> bool {
    &&& s.len() >= 7
    &&& s.take(6) == "alpha("@
    &&& s.last() == ')'
    &&& alpha_arguments(s.subrange(6, s.len() - 1))
}

/// A color that may be written into a style sheet as it is.
pub open spec fn safe_css_color(s: Seq<char>) -> bool {
    hex_color(s) || alpha_color(s)
}

fn is_hex_digit(c: char) -> (r: bool)
    ensures
        r == is_hex_char(c),
{
    ('0' <= c && c <= '9') || ('a' <= c && c <= 'f')
}

fn hex_color_chars(chars: &[char]) -> (r: bool)
    ensures
        r == hex_color(chars@),
{
    chars.len() == 7 && chars[0] == '#' && is_hex_digit(chars[1]) && is_hex_digit(chars[2])
        && is_hex_digit(chars[3]) && is_hex_digit(chars[4]) && is_hex_digit(chars[5])
        && is_hex_digit(chars[6])
}

pub fn is_hex_color(value: &str) -> (r: bool)
    ensures
        r == hex_color(value@),
{
    hex_color_chars(text::chars_of(value).as_slice())
}

fn are_alpha_arguments(inner: &[char]) -> (r: bool)
    ensures
        r == alpha_arguments(inner@),
{
    let comma: usize = text::find_char(inner, ',');
    proof {
        text::first_place_is_first(inner@, ',');
    }
    if comma >= inner.len() {
        return false;
    }
    let before = text::slice_of(inner, 0, comma);
    let behind = text::slice_of(inner, comma + 1, inner.len());
    assert(before@ =~= inner@.take(comma as int));
    assert(behind@ =~= inner@.skip(comma + 1));
    let color = text::trim(before.as_slice());
    let opacity = text::trim(behind.as_slice());
    let spelled = text::text_of(color.as_slice());
    (text::same_text(spelled.as_str(), "currentColor") || hex_color_chars(color.as_slice()))
        && opacity::is_opacity_text(opacity.as_slice())
}

pub fn is_alpha_color(value: &str) -> (r: bool)
    ensures
        r == alpha_color(value@),
{
    let chars = text::chars_of(value);
    let size: usize = chars.len();
    proof {
        reveal_strlit("alpha(");
    }
    if size >= 7 && chars[0] == 'a' && chars[1] == 'l' && chars[2] == 'p' && chars[3] == 'h'
        && chars[4] == 'a' && chars[5] == '(' && chars[size - 1] == ')' {
        assert(chars@.take(6) =~= "alpha("@);
        let inner = text::slice_of(chars.as_slice(), 6, size - 1);
        are_alpha_arguments(inner.as_slice())
    } else {
        assert(size >= 7 && chars@.take(6) == "alpha("@ ==> {
            let start = chars@.take(6);
            &&& chars@[0] == start[0]
            &&& chars@[1] == start[1]
            &&& chars@[2] == start[2]
            &&& chars@[3] == start[3]
            &&& chars@[4] == start[4]
            &&& chars@[5] == start[5]
        });
        false
    }
}

/// Whether a color may be written into a style sheet as it is.
pub fn is_safe_css_color(value: &str) -> (r: bool)
    ensures
        r == safe_css_color(value@),
{
    is_hex_color(value) || is_alpha_color(value)
}

/// A color with an opacity of hundredths may be written into a style sheet.
pub proof fn alpha_of_hundredths_is_safe(color: Seq<char>, tenth: char, hundredth: char)
    requires
        color == "currentColor"@ || hex_color(color),
        opacity::is_digit_char(tenth),
        opacity::is_digit_char(hundredth),
    ensures
        safe_css_color("alpha("@ + color + seq![',', ' ', '0', '.', tenth, hundredth, ')']),
{
    reveal_strlit("alpha(");
    reveal_strlit("currentColor");
    let s = "alpha("@ + color + seq![',', ' ', '0', '.', tenth, hundredth, ')'];
    let inner = s.subrange(6, s.len() - 1);
    let number = seq!['0', '.', tenth, hundredth];
    assert(s.take(6) =~= "alpha("@);
    assert(inner =~= color + seq![',', ' '] + number);
    assert forall|i: int| 0 <= i < color.len() implies #[trigger] color[i] != ','
        && !text::is_space_char(color[i]) by {
        if hex_color(color) && i > 0 {
            assert(is_hex_char(color[i]));
        }
    }
    let comma = text::first_place(inner, ',') as int;
    text::first_place_is_first(inner, ',');
    assert(inner[color.len() as int] == ',');
    assert(comma <= color.len());
    assert(comma < color.len() ==> inner[comma] == color[comma]);
    assert(comma == color.len());
    assert(inner.take(comma) =~= color);
    assert(!text::is_space_char(color[0]) && !text::is_space_char(color.last()));
    assert(text::trimmed(color) == color);
    let behind = inner.skip(comma + 1);
    assert(behind =~= seq![' '] + number);
    assert(behind.drop_first() =~= number);
    assert(text::without_leading_space(number) == number);
    assert(text::trimmed(behind) == number);
    opacity::hundredths_are_opacities(tenth, hundredth);
}

/// The colors that a realm gets when none is configured for it.
pub open spec fn fallback_palette(i: int) -> Seq<char> {
    if i == 0 {
        "#7fc8ff"@
    } else if i == 1 {
        "#90d090"@
    } else if i == 2 {
        "#ffb347"@
    } else if i == 3 {
        "#c8a0e0"@
    } else if i == 4 {
        "#ff8080"@
    } else if i == 5 {
        "#40e0d0"@
    } else if i == 6 {
        "#ffd700"@
    } else if i == 7 {
        "#ff69b4"@
    } else if i == 8 {
        "#a0c8a0"@
    } else if i == 9 {
        "#d4a0ff"@
    } else if i == 10 {
        "#ffa07a"@
    } else {
        "#87ceeb"@
    }
}

fn palette_color(i: usize) -> (r: &'static str)
    requires
        i < 12,
    ensures
        r@ == fallback_palette(i as int),
{
    match i {
        0 => "#7fc8ff",
        1 => "#90d090",
        2 => "#ffb347",
        3 => "#c8a0e0",
        4 => "#ff8080",
        5 => "#40e0d0",
        6 => "#ffd700",
        7 => "#ff69b4",
        8 => "#a0c8a0",
        9 => "#d4a0ff",
        10 => "#ffa07a",
        _ => "#87ceeb",
    }
}

/// The 64-bit polynomial hash of a byte string, with the factor 31.
pub open spec fn accent_hash(bytes: Seq<u8>) -> u64
    decreases bytes.len(),
{
    if bytes.len() == 0 {
        0
    } else {
        ((accent_hash(bytes.drop_last()) * 31 + bytes.last()) % 0x1_0000_0000_0000_0000) as u64
    }
}

/// The color of a realm for which none is configured: a color of the palette that the name of
/// the realm alone decides.
pub open spec fn realm_fallback(realm: Seq<char>) -> Seq<char> {
    let hash = accent_hash(vstd::utf8::encode_utf8("d2b-env-accent-"@ + realm));
    fallback_palette((hash as usize) as int % 12)
}

pub fn fallback_realm_color(realm: &str) -> (r: String)
    ensures
        r@ == realm_fallback(realm@),
{
    let mut name: String = "d2b-env-accent-".to_owned();
    name.append(realm);
    let bytes = name.as_str().as_bytes();
    let mut hash: u64 = 0;
    let mut i: usize = 0;
    assert(bytes@.take(0).len() == 0);
    while i < bytes.len()
        invariant
            i <= bytes@.len(),
            hash == accent_hash(bytes@.take(i as int)),
        decreases bytes.len() - i,
    {
        assert(bytes@.take(i + 1).drop_last() =~= bytes@.take(i as int));
        hash = hash.wrapping_mul(31).wrapping_add(bytes[i] as u64);
        i = i + 1;
    }
    assert(bytes@.take(i as int) =~= bytes@);
    palette_color(hash as usize % 12).to_owned()
}

/// A character with which no text leaves the declaration that it stands in.
pub open spec fn stays_in_declaration(c: char) -> bool {
    c != ';' && c != ':' && c != '{' && c != '}' && c != '"' && c != '\'' && c != '\\' && c != '/'
        && c != '@'
}

/// The color that a realm falls back to may be written into a style sheet.
pub proof fn fallback_realm_color_is_safe(realm: Seq<char>)
    ensures
        hex_color(realm_fallback(realm)),
        safe_css_color(realm_fallback(realm)),
{
    reveal_strlit("#7fc8ff");
    reveal_strlit("#90d090");
    reveal_strlit("#ffb347");
    reveal_strlit("#c8a0e0");
    reveal_strlit("#ff8080");
    reveal_strlit("#40e0d0");
    reveal_strlit("#ffd700");
    reveal_strlit("#ff69b4");
    reveal_strlit("#a0c8a0");
    reveal_strlit("#d4a0ff");
    reveal_strlit("#ffa07a");
    reveal_strlit("#87ceeb");
}

/// The hash of a byte string goes on with one more byte.
proof fn hash_goes_on(bytes: Seq<u8>, byte: u8)
    ensures
        accent_hash(bytes.push(byte)) == (accent_hash(bytes) * 31 + byte) % 0x1_0000_0000_0000_0000,
{
    assert(bytes.push(byte).drop_last() =~= bytes);
}

/// The bytes that every accent name starts with.
spec fn accent_start() -> Seq<u8> {
    seq![0x64u8, 0x32, 0x62, 0x2d, 0x65, 0x6e, 0x76, 0x2d, 0x61, 0x63, 0x63, 0x65, 0x6e, 0x74, 0x2d]
}

proof fn accent_start_hash()
    ensures
        accent_hash(accent_start()) == 15427944417190839626,
{
    let s0 = Seq::<u8>::empty();
    hash_goes_on(s0, 0x64);
    let s1 = s0.push(0x64);
    assert(accent_hash(s1) == 100);
    hash_goes_on(s1, 0x32);
    let s2 = s1.push(0x32);
    assert(accent_hash(s2) == 3150);
    hash_goes_on(s2, 0x62);
    let s3 = s2.push(0x62);
    assert(accent_hash(s3) == 97748);
    hash_goes_on(s3, 0x2d);
    let s4 = s3.push(0x2d);
    assert(accent_hash(s4) == 3030233);
    hash_goes_on(s4, 0x65);
    let s5 = s4.push(0x65);
    assert(accent_hash(s5) == 93937324);
    hash_goes_on(s5, 0x6e);
    let s6 = s5.push(0x6e);
    assert(accent_hash(s6) == 2912057154);
    hash_goes_on(s6, 0x76);
    let s7 = s6.push(0x76);
    assert(accent_hash(s7) == 90273771892);
    hash_goes_on(s7, 0x2d);
    let s8 = s7.push(0x2d);
    assert(accent_hash(s8) == 2798486928697);
    hash_goes_on(s8, 0x61);
    let s9 = s8.push(0x61);
    assert(accent_hash(s9) == 86753094789704);
    hash_goes_on(s9, 0x63);
    let s10 = s9.push(0x63);
    assert(accent_hash(s10) == 2689345938480923);
    hash_goes_on(s10, 0x63);
    let s11 = s10.push(0x63);
    assert(accent_hash(s11) == 83369724092908712);
    hash_goes_on(s11, 0x65);
    let s12 = s11.push(0x65);
    assert(accent_hash(s12) == 2584461446880170173);
    hash_goes_on(s12, 0x6e);
    let s13 = s12.push(0x6e);
    assert(accent_hash(s13) == 6331328558447069009);
    hash_goes_on(s13, 0x74);
    let s14 = s13.push(0x74);
    assert(accent_hash(s14) == 11803744574763623235);
    hash_goes_on(s14, 0x2d);
    let s15 = s14.push(0x2d);
    assert(accent_hash(s15) == 15427944417190839626);
    assert(s15 =~= accent_start());
}

proof fn accent_name_bytes(realm: Seq<char>)
    requires
        vstd::utf8::is_ascii_chars(realm),
    ensures
        vstd::utf8::encode_utf8("d2b-env-accent-"@ + realm) == accent_start() + realm.map_values(
            |c: char| c as u8,
        ),
{
    reveal_strlit("d2b-env-accent-");
    let name = "d2b-env-accent-"@ + realm;
    assert(vstd::utf8::is_ascii_chars("d2b-env-accent-"@));
    assert(vstd::utf8::is_ascii_chars(name));
    vstd::utf8::is_ascii_chars_encode_utf8(name);
    let bytes = vstd::utf8::encode_utf8(name);
    let expected = accent_start() + realm.map_values(|c: char| c as u8);
    assert forall|i: int| 0 <= i < name.len() implies bytes[i] == expected[i] by {
        assert(name[i] as u8 == bytes[i]);
    }
    assert(bytes =~= expected);
}

/// Where addresses have 64 bits, the realms `work` and `dev` are told apart by their colors.
pub proof fn work_and_dev_have_different_colors()
    requires
        usize::BITS == 64,
    ensures
        realm_fallback("work"@) != realm_fallback("dev"@),
{
    let start = accent_start();
    accent_start_hash();
    hash_goes_on(start, 0x77);
    let w1 = start.push(0x77);
    assert(accent_hash(w1) == 17097675090177238125);
    hash_goes_on(w1, 0x6f);
    let w2 = w1.push(0x6f);
    assert(accent_hash(w2) == 13519093731626936738);
    hash_goes_on(w2, 0x72);
    let w3 = w2.push(0x72);
    assert(accent_hash(w3) == 13263536058824903440);
    hash_goes_on(w3, 0x6b);
    let w4 = w3.push(0x6b);
    assert(accent_hash(w4) == 5341248201961871195);
    hash_goes_on(start, 0x64);
    let d1 = start.push(0x64);
    assert(accent_hash(d1) == 17097675090177238106);
    hash_goes_on(d1, 0x65);
    let d2 = d1.push(0x65);
    assert(accent_hash(d2) == 13519093731626936139);
    hash_goes_on(d2, 0x76);
    let d3 = d2.push(0x76);
    assert(accent_hash(d3) == 13263536058824884875);
    reveal_strlit("work");
    reveal_strlit("dev");
    accent_name_bytes("work"@);
    accent_name_bytes("dev"@);
    assert(w4 =~= start + "work"@.map_values(|c: char| c as u8));
    assert(d3 =~= start + "dev"@.map_values(|c: char| c as u8));
    reveal_strlit("#87ceeb");
    reveal_strlit("#c8a0e0");
    assert("#87ceeb"@[1] != "#c8a0e0"@[1]);
}

/// A safe color cannot end the declaration that it is written into, nor open or close a block.
pub proof fn safe_color_stays_in_its_declaration(s: Seq<char>)
    requires
        safe_css_color(s),
    ensures
        forall|i: int| 0 <= i < s.len() ==> stays_in_declaration(#[trigger] s[i]),
{
    if hex_color(s) {
        assert forall|i: int| 0 <= i < s.len() implies stays_in_declaration(#[trigger] s[i]) by {
            assert(i == 0 || is_hex_char(s[i]));
        }
    } else {
        let inner = s.subrange(6, s.len() - 1);
        let comma = text::first_place(inner, ',') as int;
        let before = inner.take(comma);
        let behind = inner.skip(comma + 1);
        let color = text::trimmed(before);
        let opacity = text::trimmed(behind);
        text::first_place_is_first(inner, ',');
        opacity::opacity_chars(opacity);
        reveal_strlit("alpha(");
        reveal_strlit("currentColor");
        assert forall|c: char| #[trigger] color.contains(c) implies stays_in_declaration(c) by {
            let k = choose|k: int| 0 <= k < color.len() && color[k] == c;
            if hex_color(color) {
                assert(k == 0 || is_hex_char(color[k]));
            }
        }
        assert forall|i: int| 0 <= i < s.len() implies stays_in_declaration(#[trigger] s[i]) by {
            if i < 6 {
                assert(s[i] == "alpha("@[i]);
                assert(i == 0 || i == 1 || i == 2 || i == 3 || i == 4 || i == 5);
            } else if i < s.len() - 1 {
                let j = i - 6;
                assert(s[i] == inner[j]);
                if j < comma {
                    assert(before[j] == s[i]);
                    text::trimming_keeps_the_rest(before, j);
                } else if j > comma {
                    assert(behind[j - comma - 1] == s[i]);
                    text::trimming_keeps_the_rest(behind, j - comma - 1);
                }
            }
        }
    }
}

/// The colors of the form `#rrggbb` are exactly a number sign and six hexadecimal digits without
/// capitals.
pub proof fn hex_colors_have_six_digits(
    s: Seq<char>,
    a: char,
    b: char,
    c: char,
    d: char,
    e: char,
    f: char,
)
    ensures
        hex_color(seq!['#', a, b, c, d, e, f]) <==> forall|x: char|
            #![trigger is_hex_char(x)]
            x == a || x == b || x == c || x == d || x == e || x == f ==> ('0' <= x <= '9' || 'a'
                <= x <= 'f'),
        hex_color(s) ==> s.len() == 7 && s[0] == '#' && forall|i: int|
            1 <= i < 7 ==> ('0' <= #[trigger] s[i] <= '9' || 'a' <= s[i] <= 'f'),
{
    let color = seq!['#', a, b, c, d, e, f];
    assert(color[1] == a && color[2] == b && color[3] == c && color[4] == d && color[5] == e
        && color[6] == f);
    if hex_color(color) {
        assert(is_hex_char(color[1]) && is_hex_char(color[2]) && is_hex_char(color[3])
            && is_hex_char(color[4]) && is_hex_char(color[5]) && is_hex_char(color[6]));
    } else if forall|x: char|
        #![trigger is_hex_char(x)]
        x == a || x == b || x == c || x == d || x == e || x == f ==> ('0' <= x <= '9' || 'a' <= x
            <= 'f') {
        assert(is_hex_char(a) && is_hex_char(b) && is_hex_char(c) && is_hex_char(d) && is_hex_char(
            e,
        ) && is_hex_char(f));
        assert forall|i: int| 1 <= i < 7 implies is_hex_char(#[trigger] color[i]) by {}
    }
}

/// A color with an opacity is safe however much white space stands around the two.
pub proof fn alpha_may_be_spaced(
    color: Seq<char>,
    opacity: Seq<char>,
    color_part: Seq<char>,
    opacity_part: Seq<char>,
)
    requires
        color == "currentColor"@ || hex_color(color),
        opacity::is_opacity(opacity),
        text::trimmed(color_part) == color,
        text::trimmed(opacity_part) == opacity,
        !color_part.contains(','),
    ensures
        safe_css_color("alpha("@ + color_part + seq![','] + opacity_part + seq![')']),
{
    reveal_strlit("alpha(");
    let s = "alpha("@ + color_part + seq![','] + opacity_part + seq![')'];
    let inner = s.subrange(6, s.len() - 1);
    assert(s.take(6) =~= "alpha("@);
    assert(inner =~= color_part + seq![','] + opacity_part);
    let comma = text::first_place(inner, ',') as int;
    text::first_place_is_first(inner, ',');
    assert(inner[color_part.len() as int] == ',');
    assert(comma == color_part.len()) by {
        if comma < color_part.len() {
            assert(inner[comma] == color_part[comma]);
            assert(color_part.contains(color_part[comma]));
        }
    }
    assert(inner.take(comma) =~= color_part);
    assert(inner.skip(comma + 1) =~= opacity_part);
}

/// A safe color is one of the form `#rrggbb`, or one such color or `currentColor` with an
/// opacity, written as `alpha(color, opacity)`. Nothing else is.
pub proof fn safe_colors_are_plain_or_alpha(s: Seq<char>)
    requires
        safe_css_color(s),
    ensures
        hex_color(s) || exists|color_part: Seq<char>, opacity_part: Seq<char>|
            {
                &&& s == #[trigger] ("alpha("@ + color_part + seq![','] + opacity_part + seq![')'])
                &&& text::trimmed(color_part) == "currentColor"@ || hex_color(
                    text::trimmed(color_part),
                )
                &&& opacity::is_opacity(text::trimmed(opacity_part))
            },
{
    if !hex_color(s) {
        reveal_strlit("alpha(");
        let inner = s.subrange(6, s.len() - 1);
        let comma = text::first_place(inner, ',') as int;
        text::first_place_is_first(inner, ',');
        let color_part = inner.take(comma);
        let opacity_part = inner.skip(comma + 1);
        assert(inner =~= color_part + seq![','] + opacity_part);
        assert(s =~= s.take(6) + inner + seq![s.last()]);
        assert(s =~= "alpha("@ + color_part + seq![','] + opacity_part + seq![')']);
    }
}

/// The hash of nothing is zero, and each byte behind a byte string multiplies its hash by 31 and
/// adds itself, in 64 bits.
pub proof fn hash_is_polynomial(bytes: Seq<u8>, byte: u8)
    ensures
        accent_hash(Seq::empty()) == 0,
        exists|carry: int|
            accent_hash(bytes) * 31 + byte == accent_hash(bytes.push(byte)) + #[trigger] (carry
                * 0x1_0000_0000_0000_0000),
{
    hash_goes_on(bytes, byte);
    let sum = accent_hash(bytes) * 31 + byte;
    let carry = sum / 0x1_0000_0000_0000_0000;
    assert(sum == accent_hash(bytes.push(byte)) + carry * 0x1_0000_0000_0000_0000);
}

/// The palette has twelve colors, no two of them the same.
pub proof fn palette_colors_are_distinct(i: int, j: int)
    requires
        0 <= i < j < 12,
    ensures
        fallback_palette(i) != fallback_palette(j),
{
    reveal_strlit("#7fc8ff");
    reveal_strlit("#90d090");
    reveal_strlit("#ffb347");
    reveal_strlit("#c8a0e0");
    reveal_strlit("#ff8080");
    reveal_strlit("#40e0d0");
    reveal_strlit("#ffd700");
    reveal_strlit("#ff69b4");
    reveal_strlit("#a0c8a0");
    reveal_strlit("#d4a0ff");
    reveal_strlit("#ffa07a");
    reveal_strlit("#87ceeb");
    let a = fallback_palette(i);
    let b = fallback_palette(j);
    assert(a[1] != b[1] || a[2] != b[2] || a[3] != b[3] || a[4] != b[4] || a[5] != b[5] || a[6]
        != b[6]);
}

/// The name of a realm decides its fallback color through the hash of the name behind
/// `d2b-env-accent-`: names whose hashes leave the same remainder by twelve share a color, and
/// others do not.
pub proof fn hashes_decide_fallback_colors(one: Seq<char>, other: Seq<char>)
    requires
        usize::BITS == 64,
    ensures
        realm_fallback(one) == realm_fallback(other) <==> accent_hash(
            vstd::utf8::encode_utf8("d2b-env-accent-"@ + one),
        ) % 12 == accent_hash(vstd::utf8::encode_utf8("d2b-env-accent-"@ + other)) % 12,
{
    let a = accent_hash(vstd::utf8::encode_utf8("d2b-env-accent-"@ + one)) as int % 12;
    let b = accent_hash(vstd::utf8::encode_utf8("d2b-env-accent-"@ + other)) as int % 12;
    if a < b {
        palette_colors_are_distinct(a, b);
    } else if b < a {
        palette_colors_are_distinct(b, a);
    }
}

} // verus!
