//! The icon of the control that pins the picker: the one of the icon theme, or a drawn one.

use crate::color;
use vstd::prelude::*;

verus! {

/// The name of the icon in the icon theme.
pub const PIN_ICON_NAME: &'static str = "view-pin-symbolic";

pub const PIN_ICON_THEME: &'static str = "Adwaita";

/// The width and the height of the drawn icon, in pixels.
pub const PIN_ICON_SIDE: i32 = 16;

/// Where the icon comes from.
#[derive(Debug, Clone, Copy, PartialEq, Eq, Structural)]
pub enum PinIconSource {
    ThemeSymbolic,
    GeneratedMonochrome,
}

impl PinIconSource {
    /// The icon theme goes first, if it has the icon.
    pub fn choose_from(theme_has_icon: bool) -> (r: PinIconSource)
        ensures
            r == (if theme_has_icon {
                PinIconSource::ThemeSymbolic
            } else {
                PinIconSource::GeneratedMonochrome
            }),
    {
        if theme_has_icon {
            PinIconSource::ThemeSymbolic
        } else {
            PinIconSource::GeneratedMonochrome
        }
    }
}

/// The bytes of the rows of a mask, one row behind the other.
pub open spec fn mask_bytes(mask: Seq<&str>) -> Seq<u8>
    decreases mask.len(),
{
    if mask.len() == 0 {
        Seq::empty()
    } else {
        mask_bytes(mask.drop_last()) + vstd::utf8::encode_utf8(mask.last()@)
    }
}

/// Red, green, blue and opacity of a pixel: painted where the mask has a `#`, and else nothing.
pub open spec fn pixel(mark: u8, color: Seq<u8>) -> Seq<u8> {
    if mark == 0x23 {
        seq![color[0], color[1], color[2], 0xff]
    } else {
        seq![0u8, 0, 0, 0]
    }
}

/// The pixels of marks, four bytes for each.
pub open spec fn painted(marks: Seq<u8>, color: Seq<u8>) -> Seq<u8>
    decreases marks.len(),
{
    if marks.len() == 0 {
        Seq::empty()
    } else {
        painted(marks.drop_last(), color) + pixel(marks.last(), color)
    }
}

proof fn painting_goes_on(one: Seq<u8>, other: Seq<u8>, color: Seq<u8>)
    ensures
        painted(one + other, color) == painted(one, color) + painted(other, color),
    decreases other.len(),
{
    if other.len() == 0 {
        assert(one + other =~= one);
        assert(painted(other, color) =~= Seq::empty());
        assert(painted(one, color) + painted(other, color) =~= painted(one, color));
    } else {
        painting_goes_on(one, other.drop_last(), color);
        assert((one + other).drop_last() =~= one + other.drop_last());
        assert((one + other).last() == other.last());
        assert(painted(one + other, color) =~= painted(one, color) + painted(other, color));
    }
}

/// Paints the pixels of one row.
fn paint_row(row: &[u8], color: [u8; 3], pixels: &mut Vec<u8>)
    ensures
        final(pixels)@ == old(pixels)@ + painted(row@, color@),
{
    let mut i: usize = 0;
    let ghost start = pixels@;
    assert(row@.take(0).len() == 0);
    assert(start + painted(row@.take(0), color@) =~= start);
    while i < row.len()
        invariant
            i <= row@.len(),
            pixels@ == start + painted(row@.take(i as int), color@),
        decreases row@.len() - i,
    {
        let ghost before = pixels@;
        if row[i] == 0x23 {
            pixels.push(color[0]);
            pixels.push(color[1]);
            pixels.push(color[2]);
            pixels.push(0xff);
        } else {
            pixels.push(0);
            pixels.push(0);
            pixels.push(0);
            pixels.push(0);
        }
        proof {
            assert(pixels@ =~= before + pixel(row@[i as int], color@));
            let longer = row@.take(i + 1);
            assert(longer.drop_last() =~= row@.take(i as int));
            assert(longer.last() == row@[i as int]);
            assert(pixels@ =~= start + painted(longer, color@));
        }
        i = i + 1;
    }
    assert(row@.take(i as int) =~= row@);
}

/// Paints a mask.
pub fn generated_pin_pixels(mask: &[&str], color: [u8; 3]) -> (r: Vec<u8>)
    ensures
        r@ == painted(mask_bytes(mask@), color@),
{
    let mut pixels: Vec<u8> = Vec::new();
    let mut i: usize = 0;
    assert(mask@.take(0).len() == 0);
    while i < mask.len()
        invariant
            i <= mask@.len(),
            pixels@ == painted(mask_bytes(mask@.take(i as int)), color@),
        decreases mask@.len() - i,
    {
        paint_row(mask[i].as_bytes(), color, &mut pixels);
        proof {
            let longer = mask@.take(i + 1);
            assert(longer.drop_last() =~= mask@.take(i as int));
            assert(longer.last() == mask@[i as int]);
            painting_goes_on(
                mask_bytes(mask@.take(i as int)),
                vstd::utf8::encode_utf8(mask@[i as int]@),
                color@,
            );
        }
        i = i + 1;
    }
    assert(mask@.take(i as int) =~= mask@);
    pixels
}

/// The value of a hexadecimal digit.
pub open spec fn hex_digit(c: u8) -> Option<u8> {
    if 0x30 <= c <= 0x39 {
        Some((c - 0x30) as u8)
    } else if 0x41 <= c <= 0x46 {
        Some((c - 0x37) as u8)
    } else if 0x61 <= c <= 0x66 {
        Some((c - 0x57) as u8)
    } else {
        None
    }
}

fn digit_value(c: u8) -> (r: Option<u8>)
    ensures
        r == hex_digit(c),
        r matches Some(d) ==> d < 16,
{
    if 0x30 <= c && c <= 0x39 {
        Some(c - 0x30)
    } else if 0x41 <= c && c <= 0x46 {
        Some(c - 0x37)
    } else if 0x61 <= c && c <= 0x66 {
        Some(c - 0x57)
    } else {
        None
    }
}

/// The number that two characters spell in hexadecimal: two digits, or a plus and one digit.
pub open spec fn hex_pair(a: u8, b: u8) -> Option<u8> {
    match (hex_digit(a), hex_digit(b)) {
        (Some(high), Some(low)) => Some((high * 16 + low) as u8),
        (None, Some(low)) => if a == 0x2b {
            Some(low)
        } else {
            None
        },
        _ => None,
    }
}

fn pair_value(a: u8, b: u8) -> (r: Option<u8>)
    ensures
        r == hex_pair(a, b),
{
    match digit_value(b) {
        Some(low) => match digit_value(a) {
            Some(high) => Some(high * 16 + low),
            None => {
                if a == 0x2b {
                    Some(low)
                } else {
                    None
                }
            },
        },
        None => None,
    }
}

/// Whether a text has the length of a color and starts as one.
pub open spec fn looks_like_color(bytes: Seq<u8>) -> bool {
    bytes.len() == 7 && bytes[0] == 0x23
}

/// Whether a byte goes on with a character that an earlier byte began.
pub open spec fn is_continuation(byte: u8) -> bool {
    0x80 <= byte <= 0xbf
}

/// Whether a text, if it looks like a color, falls into pairs of bytes that hold whole characters.
pub open spec fn falls_into_pairs(bytes: Seq<u8>) -> bool {
    looks_like_color(bytes) ==> !is_continuation(bytes[3]) && !is_continuation(bytes[5])
}

/// The color that a text in hexadecimal gives, and a light one where it gives none.
pub open spec fn pin_color(bytes: Seq<u8>) -> Seq<u8> {
    if looks_like_color(bytes) {
        match (
            hex_pair(bytes[1], bytes[2]),
            hex_pair(bytes[3], bytes[4]),
            hex_pair(bytes[5], bytes[6]),
        ) {
            (Some(red), Some(green), Some(blue)) => seq![red, green, blue],
            _ => seq![0xf8u8, 0xf8, 0xf2],
        }
    } else {
        seq![0xf8u8, 0xf8, 0xf2]
    }
}

/// The color of the drawn icon, by the foreground of the theme.
pub fn parse_pin_color(foreground: &str) -> (r: [u8; 3])
    requires
        falls_into_pairs(vstd::utf8::encode_utf8(foreground@)),
    ensures
        r@ == pin_color(vstd::utf8::encode_utf8(foreground@)),
{
    let bytes = foreground.as_bytes();
    if bytes.len() == 7 && bytes[0] == 0x23 {
        if let Some(red) = pair_value(bytes[1], bytes[2]) {
            if let Some(green) = pair_value(bytes[3], bytes[4]) {
                if let Some(blue) = pair_value(bytes[5], bytes[6]) {
                    let r: [u8; 3] = [red, green, blue];
                    assert(r@ =~= seq![red, green, blue]);
                    return r;
                }
            }
        }
    }
    let r: [u8; 3] = [0xf8, 0xf8, 0xf2];
    assert(r@ =~= seq![0xf8u8, 0xf8, 0xf2]);
    r
}

/// Every color that a theme may have as its foreground can be parsed.
pub proof fn safe_colors_fall_into_pairs(foreground: Seq<char>)
    requires
        color::safe_css_color(foreground),
    ensures
        falls_into_pairs(vstd::utf8::encode_utf8(foreground)),
{
    let bytes = vstd::utf8::encode_utf8(foreground);
    if color::hex_color(foreground) {
        assert(vstd::utf8::is_ascii_chars(foreground)) by {
            assert forall|i: int| 0 <= i < foreground.len() implies '\0' <= #[trigger] foreground[i]
                <= '\u{7f}' by {
                if i > 0 {
                    assert(color::is_hex_char(foreground[i]));
                }
            }
        }
        vstd::utf8::is_ascii_chars_encode_utf8(foreground);
        assert(bytes[3] == foreground[3] as u8);
        assert(bytes[5] == foreground[5] as u8);
        assert(color::is_hex_char(foreground[3]));
        assert(color::is_hex_char(foreground[5]));
    } else {
        reveal_strlit("alpha(");
        assert(foreground[0] == foreground.take(6)[0]);
        let first = seq![foreground[0]];
        assert(vstd::utf8::is_ascii_chars(first));
        vstd::utf8::is_ascii_chars_encode_utf8(first);
        assert(first.drop_first().len() == 0);
        assert(vstd::utf8::encode_utf8(first) =~= vstd::utf8::encode_scalar(
            foreground[0] as u32,
        ));
        assert(bytes[0] == vstd::utf8::encode_scalar(foreground[0] as u32)[0]);
        assert(bytes[0] == 'a' as u8);
    }
}

/// The rows of the drawn icon.
pub open spec fn pin_rows() -> Seq<&'static str> {
    seq![
        "................",
        "....########....",
        ".....######.....",
        ".....######.....",
        ".....######.....",
        "....########....",
        "...##########...",
        ".......##.......",
        ".......##.......",
        ".......##.......",
        ".......##.......",
        ".......##.......",
        ".......##.......",
        ".......##.......",
        "................",
        "................",
    ]
}

/// The pixels of the drawn icon, in the foreground of the theme.
pub fn generated_pin_texture(foreground: &str) -> (r: Vec<u8>)
    requires
        falls_into_pairs(vstd::utf8::encode_utf8(foreground@)),
    ensures
        r@ == painted(mask_bytes(pin_rows()), pin_color(vstd::utf8::encode_utf8(foreground@))),
{
    let mask: [&'static str; 16] = [
        "................",
        "....########....",
        ".....######.....",
        ".....######.....",
        ".....######.....",
        "....########....",
        "...##########...",
        ".......##.......",
        ".......##.......",
        ".......##.......",
        ".......##.......",
        ".......##.......",
        ".......##.......",
        ".......##.......",
        "................",
        "................",
    ];
    assert(mask@ =~= pin_rows());
    generated_pin_pixels(mask.as_slice(), parse_pin_color(foreground))
}

/// A drawn icon has four bytes for each mark of its mask, and one color: each of its pixels is
/// either that color or nothing at all.
pub proof fn drawn_icon_is_monochrome(marks: Seq<u8>, color: Seq<u8>, i: int)
    requires
        0 <= i < marks.len(),
        color.len() == 3,
    ensures
        painted(marks, color).len() == 4 * marks.len(),
        painted(marks, color).subrange(4 * i, 4 * i + 4) == (if marks[i] == 0x23 {
            color.push(0xff)
        } else {
            seq![0u8, 0, 0, 0]
        }),
    decreases marks.len(),
{
    let shorter = painted(marks.drop_last(), color);
    let last = pixel(marks.last(), color);
    painting_has_four_bytes(marks.drop_last(), color);
    assert(painted(marks, color) == shorter + last);
    assert(last.len() == 4);
    if i < marks.len() - 1 {
        drawn_icon_is_monochrome(marks.drop_last(), color, i);
        part_of_the_front(shorter, last, 4 * i, 4 * i + 4);
    } else {
        assert((shorter + last).subrange(4 * i, 4 * i + 4) =~= last);
        assert(color.push(0xff) =~= seq![color[0], color[1], color[2], 0xffu8]);
    }
}

proof fn part_of_the_front(front: Seq<u8>, back: Seq<u8>, start: int, end: int)
    requires
        0 <= start <= end <= front.len(),
    ensures
        (front + back).subrange(start, end) == front.subrange(start, end),
{
    assert((front + back).subrange(start, end) =~= front.subrange(start, end));
}

proof fn painting_has_four_bytes(marks: Seq<u8>, color: Seq<u8>)
    ensures
        painted(marks, color).len() == 4 * marks.len(),
    decreases marks.len(),
{
    if marks.len() > 0 {
        painting_has_four_bytes(marks.drop_last(), color);
    }
}

/// Two hexadecimal digits, in either case, spell the number that they should, and a character that
/// is no digit spells none.
pub proof fn hex_digits_spell_numbers(high: u8, low: u8)
    requires
        high < 16,
        low < 16,
    ensures
        ({
            let small = |d: u8| (if d < 10 { 0x30 + d } else { 0x57 + d }) as u8;
            let large = |d: u8| (if d < 10 { 0x30 + d } else { 0x37 + d }) as u8;
            &&& hex_pair(small(high), small(low)) == Some((16 * high + low) as u8)
            &&& hex_pair(large(high), large(low)) == Some((16 * high + low) as u8)
            &&& hex_pair(small(high), large(low)) == Some((16 * high + low) as u8)
            &&& hex_pair(large(high), small(low)) == Some((16 * high + low) as u8)
            &&& hex_pair(0x2b, small(low)) == Some(low)
        }),
        forall|c: u8| #[trigger]
            hex_digit(c) is Some <==> (0x30 <= c <= 0x39 || 0x41 <= c <= 0x46 || 0x61 <= c <= 0x66),
{
}

/// A color in hexadecimal gives its three parts, red first. What does not look like a color, or
/// has a part that spells no number, gives the light color.
pub proof fn colors_give_red_green_and_blue(
    foreground: Seq<u8>,
    red: u8,
    green: u8,
    blue: u8,
)
    ensures
        foreground.len() == 7 && foreground[0] == 0x23 && hex_pair(foreground[1], foreground[2])
            == Some(red) && hex_pair(foreground[3], foreground[4]) == Some(green) && hex_pair(
            foreground[5],
            foreground[6],
        ) == Some(blue) ==> pin_color(foreground) == seq![red, green, blue],
        foreground.len() != 7 || foreground[0] != 0x23 ==> pin_color(foreground) == seq![
            0xf8u8,
            0xf8,
            0xf2,
        ],
        foreground.len() == 7 && (hex_pair(foreground[1], foreground[2]) is None || hex_pair(
            foreground[3],
            foreground[4],
        ) is None || hex_pair(foreground[5], foreground[6]) is None) ==> pin_color(foreground)
            == seq![0xf8u8, 0xf8, 0xf2],
        pin_color(foreground).len() == 3,
{
}

/// The bytes of a mask are those of its rows, one row behind the other.
pub proof fn mask_rows_stand_in_order(mask: Seq<&str>, row: &str)
    ensures
        mask.len() == 0 ==> mask_bytes(mask).len() == 0,
        mask_bytes(mask.push(row)) == mask_bytes(mask) + vstd::utf8::encode_utf8(row@),
{
    assert(mask.push(row).drop_last() =~= mask);
}

/// The icon is drawn only where the icon theme has none.
pub proof fn theme_icon_goes_first(theme_has_icon: bool, r: PinIconSource)
    requires
        call_ensures(PinIconSource::choose_from, (theme_has_icon,), r),
    ensures
        theme_has_icon <==> r is ThemeSymbolic,
{
}

} // verus!
