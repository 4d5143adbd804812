//! Thumbnails: which images that the daemon sends along are shown.

use crate::presentation;
use crate::presentation::is_png;
use crate::protocol::{Candidate, RealmKind};
use crate::text;
use vstd::prelude::*;

verus! {

/// The longest encoded thumbnail that is looked at, in bytes.
pub const MAX_ENCODED_BYTES: usize = 262_144;

/// The longest thumbnail that is shown, in bytes.
pub const MAX_DECODED_BYTES: usize = 196_608;

/// The greatest width and height of a thumbnail that is shown, in pixels.
pub const MAX_SIDE: u32 = 4096;

/// The greatest number of pixels of a thumbnail that is shown.
pub const MAX_PIXELS: u32 = 8_000_000;

/// What base64's `STANDARD` engine decodes a text to, if it decodes it.
pub uninterp spec fn base64_decoded(encoded: Seq<char>) -> Option<Seq<u8>>;

/// The bytes of an optional byte string.
pub open spec fn optional_bytes(bytes: Option<Vec<u8>>) -> Option<Seq<u8>> {
    match bytes {
        Some(b) => Some(b@),
        None => None,
    }
}

/// Calls `Engine::decode` of base64's `general_purpose::STANDARD`. What comes back, or that
/// nothing does, depends on the text alone; it is named, not spelled out.
#[verifier::external_body]
fn decode_base64(encoded: &str) -> (r: Option<Vec<u8>>)
    ensures
        optional_bytes(r) == base64_decoded(encoded@),
{
    base64::Engine::decode(&base64::engine::general_purpose::STANDARD, encoded).ok()
}

/// The bytes with which a PNG file starts.
pub open spec fn png_signature() -> Seq<u8> {
    seq![0x89u8, 0x50, 0x4e, 0x47, 0x0d, 0x0a, 0x1a, 0x0a]
}

/// The type of the chunk with which a PNG file goes on.
pub open spec fn png_header_type() -> Seq<u8> {
    seq![0x49u8, 0x48, 0x44, 0x52]
}

/// The number that the four bytes from `at` on spell, the highest byte first.
pub open spec fn word_at(bytes: Seq<u8>, at: int) -> u32 {
    (bytes[at] * 0x100_0000 + bytes[at + 1] * 0x1_0000 + bytes[at + 2] * 0x100 + bytes[at
        + 3]) as u32
}

/// The width and the height that a PNG file tells, if it starts as one.
pub open spec fn png_size(bytes: Seq<u8>) -> Option<(u32, u32)> {
    if bytes.len() >= 24 && bytes.take(8) == png_signature() && bytes.subrange(12, 16)
        == png_header_type() {
        Some((word_at(bytes, 16), word_at(bytes, 20)))
    } else {
        None
    }
}

fn read_word(bytes: &[u8], at: usize) -> (r: u32)
    requires
        at + 4 <= bytes@.len(),
    ensures
        r == word_at(bytes@, at as int),
{
    bytes[at] as u32 * 0x100_0000 + bytes[at + 1] as u32 * 0x1_0000 + bytes[at + 2] as u32 * 0x100
        + bytes[at + 3] as u32
}

pub fn png_dimensions(bytes: &[u8]) -> (r: Option<(u32, u32)>)
    ensures
        r == png_size(bytes@),
{
    if bytes.len() < 24 {
        return None;
    }
    let ghost start = bytes@.take(8);
    let ghost kind = bytes@.subrange(12, 16);
    assert(forall|i: int| 0 <= i < 8 ==> start[i] == bytes@[i]);
    assert(forall|i: int| 0 <= i < 4 ==> kind[i] == bytes@[12 + i]);
    let signed: bool = bytes[0] == 0x89 && bytes[1] == 0x50 && bytes[2] == 0x4e && bytes[3] == 0x47
        && bytes[4] == 0x0d && bytes[5] == 0x0a && bytes[6] == 0x1a && bytes[7] == 0x0a;
    assert(signed == (start == png_signature())) by {
        if signed {
            assert(start =~= png_signature());
        }
    }
    let headed: bool = bytes[12] == 0x49 && bytes[13] == 0x48 && bytes[14] == 0x44 && bytes[15]
        == 0x52;
    assert(headed == (kind == png_header_type())) by {
        if headed {
            assert(kind =~= png_header_type());
        }
    }
    if !signed || !headed {
        return None;
    }
    Some((read_word(bytes, 16), read_word(bytes, 20)))
}

/// Whether an image is small enough to be shown.
pub open spec fn is_small(bytes: Seq<u8>) -> bool {
    bytes.len() <= MAX_DECODED_BYTES && (png_size(bytes) matches Some((width, height)) && width
        <= MAX_SIDE && height <= MAX_SIDE && width * height <= MAX_PIXELS)
}

/// Lets an image through if it is a PNG and small enough to be shown.
pub fn small_image(decoded: Vec<u8>) -> (r: Option<Vec<u8>>)
    ensures
        r == (if is_small(decoded@) {
            Some(decoded)
        } else {
            None
        }),
{
    if decoded.len() > MAX_DECODED_BYTES {
        return None;
    }
    let (width, height) = match png_dimensions(decoded.as_slice()) {
        Some(size) => size,
        None => {
            return None;
        },
    };
    if width > MAX_SIDE || height > MAX_SIDE {
        return None;
    }
    assert(0 <= width * height <= 4096 * 4096) by (nonlinear_arith)
        requires
            0 <= width <= 4096,
            0 <= height <= 4096,
    ;
    if width * height > MAX_PIXELS {
        return None;
    }
    Some(decoded)
}

/// Whether an entry may have a thumbnail: it comes from the host, is a PNG image, and has one
/// that is not too long.
pub open spec fn may_have_thumbnail(candidate: Candidate) -> bool {
    candidate.source_realm_kind == RealmKind::Host && presentation::is_png_type(
        candidate.content_type@,
    ) && (candidate.thumbnail_png_base64 matches Some(encoded) && vstd::utf8::encode_utf8(
        encoded@,
    ).len() <= MAX_ENCODED_BYTES)
}

/// The thumbnail that is shown for an entry, given what its encoded one decodes to.
pub open spec fn shown_thumbnail(candidate: Candidate, decoded: Option<Seq<u8>>) -> Option<
    Seq<u8>,
> {
    if may_have_thumbnail(candidate) && (decoded matches Some(bytes) && is_small(bytes)) {
        decoded
    } else {
        None
    }
}

/// The encoded thumbnail of an entry, if the entry may have one.
pub fn encoded_thumbnail(candidate: &Candidate) -> (r: Option<&String>)
    ensures
        r is Some == may_have_thumbnail(*candidate),
        r matches Some(encoded) ==> candidate.thumbnail_png_base64 == Some(*encoded),
{
    if !matches!(candidate.source_realm_kind, RealmKind::Host) {
        return None;
    }
    if !is_png(candidate.content_type.as_str()) {
        return None;
    }
    match &candidate.thumbnail_png_base64 {
        Some(encoded) => {
            if encoded.as_str().as_bytes().len() > MAX_ENCODED_BYTES {
                None
            } else {
                Some(encoded)
            }
        },
        None => None,
    }
}

/// The thumbnail that is shown for an entry.
pub fn safe_host_thumbnail(candidate: &Candidate) -> (r: Option<Vec<u8>>)
    ensures
        candidate.thumbnail_png_base64 is None ==> r is None,
        candidate.thumbnail_png_base64 matches Some(encoded) ==> optional_bytes(r)
            == shown_thumbnail(*candidate, base64_decoded(encoded@)),
{
    match encoded_thumbnail(candidate) {
        Some(encoded) => match decode_base64(encoded.as_str()) {
            Some(decoded) => small_image(decoded),
            None => None,
        },
        None => None,
    }
}

/// Whatever the daemon sends, a thumbnail is shown only for an entry of the host, and only a PNG
/// image that is small in bytes and in pixels.
pub proof fn shown_thumbnails_are_small_host_images(candidate: Candidate, decoded: Option<Seq<u8>>)
    requires
        shown_thumbnail(candidate, decoded) is Some,
    ensures
        candidate.source_realm_kind == RealmKind::Host,
        shown_thumbnail(candidate, decoded) == decoded,
        decoded->0.len() <= MAX_DECODED_BYTES,
        decoded->0.take(8) == png_signature(),
        png_size(decoded->0) matches Some((width, height)) && width <= MAX_SIDE && height
            <= MAX_SIDE && width * height <= MAX_PIXELS,
{
}

/// Every small PNG image of the host is shown: an entry of the host whose content type is
/// `image/png`, with or without parameters, and whose encoded thumbnail takes at most 256 KiB has
/// what that decodes to shown, if it is at most 192 KiB long, starts as a PNG file, is at most
/// 4096 pixels wide and high, and has at most 8,000,000 pixels. Nothing else about the image
/// matters.
pub proof fn small_host_images_are_shown(
    candidate: Candidate,
    encoded: String,
    bytes: Seq<u8>,
    parameters: Seq<char>,
)
    requires
        candidate.source_realm_kind == RealmKind::Host,
        candidate.content_type@ == "image/png"@ || candidate.content_type@ == "image/png;"@
            + parameters,
        candidate.thumbnail_png_base64 == Some(encoded),
        vstd::utf8::encode_utf8(encoded@).len() <= 262_144,
        24 <= bytes.len() <= 196_608,
        bytes.take(8) == seq![0x89u8, 0x50, 0x4e, 0x47, 0x0d, 0x0a, 0x1a, 0x0a],
        bytes.subrange(12, 16) == seq![0x49u8, 0x48, 0x44, 0x52],
        ({
            let width = bytes[16] * 0x100_0000 + bytes[17] * 0x1_0000 + bytes[18] * 0x100
                + bytes[19];
            let height = bytes[20] * 0x100_0000 + bytes[21] * 0x1_0000 + bytes[22] * 0x100
                + bytes[23];
            width <= 4096 && height <= 4096 && width * height <= 8_000_000
        }),
    ensures
        shown_thumbnail(candidate, Some(bytes)) == Some(bytes),
{
    reveal_strlit("image/png");
    reveal_strlit("image/png;");
    let content_type = candidate.content_type@;
    assert("image/png"@.len() == 9 && "image/png;"@.len() == 10);
    assert("image/png;"@[9] == ';');
    assert(content_type.take(9) =~= "image/png"@);
    assert forall|i: int| 0 <= i < 9 implies content_type[i] != ';' by {
        assert(content_type[i] == content_type.take(9)[i]);
    }
    text::first_place_is_first(content_type, ';');
    let place = text::first_place(content_type, ';') as int;
    if content_type.len() > 9 {
        assert(content_type[9] == ';');
    }
    assert(place == 9) by {
        if place < 9 {
            assert(content_type[place] == ';');
        }
    }
    assert(text::before_first(content_type, ';') =~= "image/png"@);
    assert(is_small(bytes));
}

/// An image that is wider or higher than 4096 pixels, has more than 8,000,000 of them, or does
/// not start as a PNG file is not shown, nor is one that is longer than 192 KiB, one whose encoded
/// form is longer than 256 KiB, or one of an entry that is not the host's or no PNG image.
pub proof fn other_images_are_not_shown(candidate: Candidate, bytes: Seq<u8>)
    requires
        ({
            let width = bytes[16] * 0x100_0000 + bytes[17] * 0x1_0000 + bytes[18] * 0x100
                + bytes[19];
            let height = bytes[20] * 0x100_0000 + bytes[21] * 0x1_0000 + bytes[22] * 0x100
                + bytes[23];
            ||| candidate.source_realm_kind != RealmKind::Host
            ||| candidate.thumbnail_png_base64 is None
            ||| !presentation::is_png_type(candidate.content_type@)
            ||| vstd::utf8::encode_utf8(candidate.thumbnail_png_base64->0@).len() > 262_144
            ||| bytes.len() > 196_608
            ||| bytes.len() < 24
            ||| bytes.take(8) != seq![0x89u8, 0x50, 0x4e, 0x47, 0x0d, 0x0a, 0x1a, 0x0a]
            ||| bytes.subrange(12, 16) != seq![0x49u8, 0x48, 0x44, 0x52]
            ||| width > 4096
            ||| height > 4096
            ||| width * height > 8_000_000
        }),
    ensures
        shown_thumbnail(candidate, Some(bytes)) is None,
{
}

/// A PNG file tells its width before its height, each with the highest byte first.
pub proof fn png_tells_width_and_height(bytes: Seq<u8>, width: u32, height: u32)
    requires
        png_size(bytes) == Some((width, height)),
    ensures
        width == bytes[16] * 0x100_0000 + bytes[17] * 0x1_0000 + bytes[18] * 0x100 + bytes[19],
        height == bytes[20] * 0x100_0000 + bytes[21] * 0x1_0000 + bytes[22] * 0x100 + bytes[23],
{
}

/// An image is let through as it is or not at all.
pub proof fn images_are_not_changed(decoded: Vec<u8>, r: Option<Vec<u8>>)
    requires
        call_ensures(small_image, (decoded,), r),
    ensures
        r matches Some(image) ==> image@ == decoded@,
        r is Some <==> is_small(decoded@),
{
}

} // verus!
