//! The backend API paths the controllers talk to, and the percent-encoding
//! used when user-entered text is embedded into a query string.

use vstd::prelude::*;
use vstd::string::StringExecFns;

verus! {

/// The decimal digit `d` as a character.
pub open spec fn digit_char(d: int) -> char {
    if d == 0 {
        '0'
    } else if d == 1 {
        '1'
    } else if d == 2 {
        '2'
    } else if d == 3 {
        '3'
    } else if d == 4 {
        '4'
    } else if d == 5 {
        '5'
    } else if d == 6 {
        '6'
    } else if d == 7 {
        '7'
    } else if d == 8 {
        '8'
    } else {
        '9'
    }
}

/// The hexadecimal digit `d` as a character, upper case.
pub open spec fn hex_digit_char(d: int) -> char {
    if d < 10 {
        digit_char(d)
    } else if d == 10 {
        'A'
    } else if d == 11 {
        'B'
    } else if d == 12 {
        'C'
    } else if d == 13 {
        'D'
    } else if d == 14 {
        'E'
    } else {
        'F'
    }
}

/// A character of the URL fragment-percent-encode set: the C0 controls,
/// delete, space, double quote, angle brackets and backtick.
pub open spec fn is_fragment_escaped(c: char) -> bool {
    ||| (c as u32) < 0x20
    ||| (c as u32) == 0x7f
    ||| c == ' '
    ||| c == '"'
    ||| c == '<'
    ||| c == '>'
    ||| c == '`'
}

/// The UTF-8 encoding of a character.
pub open spec fn utf8_bytes_of(c: char) -> Seq<u8> {
    let n = c as u32 as int;
    if n < 0x80 {
        seq![n as u8]
    } else if n < 0x800 {
        seq![(0xc0 + n / 0x40) as u8, (0x80 + n % 0x40) as u8]
    } else if n < 0x10000 {
        seq![
            (0xe0 + n / 0x1000) as u8,
            (0x80 + (n / 0x40) % 0x40) as u8,
            (0x80 + n % 0x40) as u8,
        ]
    } else {
        seq![
            (0xf0 + n / 0x40000) as u8,
            (0x80 + (n / 0x1000) % 0x40) as u8,
            (0x80 + (n / 0x40) % 0x40) as u8,
            (0x80 + n % 0x40) as u8,
        ]
    }
}

/// One byte as its escape: a percent sign and two upper-case hexadecimal
/// digits.
pub open spec fn pct_escape_byte(b: u8) -> Seq<char> {
    seq!['%', hex_digit_char(b as int / 16), hex_digit_char(b as int % 16)]
}

/// All of `bs` escaped, in order.
pub open spec fn pct_escape_bytes(bs: Seq<u8>) -> Seq<char>
    decreases bs.len(),
{
    if bs.len() == 0 {
        Seq::<char>::empty()
    } else {
        pct_escape_byte(bs[0]) + pct_escape_bytes(bs.skip(1))
    }
}

/// One character percent-encoded under the fragment set: set members and
/// every non-ASCII character are escaped byte by byte, all other characters
/// pass through unchanged.
pub open spec fn char_encoded(c: char) -> Seq<char> {
    if is_fragment_escaped(c) || (c as u32) >= 0x80 {
        pct_escape_bytes(utf8_bytes_of(c))
    } else {
        seq![c]
    }
}

/// `s` percent-encoded under the fragment set, character by character.
pub open spec fn fragment_encoded(s: Seq<char>) -> Seq<char>
    decreases s.len(),
{
    if s.len() == 0 {
        Seq::<char>::empty()
    } else {
        char_encoded(s[0]) + fragment_encoded(s.skip(1))
    }
}

/// Relies on percent_encoding::utf8_percent_encode over the fragment set
/// built from percent_encoding::CONTROLS (the C0 controls and delete) plus
/// space, '"', '<', '>' and '`': each byte of the set, and each non-ASCII
/// byte, becomes a percent sign and two upper-case hexadecimal digits; every
/// other byte passes through.
#[verifier::external_body]
pub fn fragment_percent_encode(s: &str) -> (r: String)
    ensures
        r@ == fragment_encoded(s@),
{
    let set = percent_encoding::CONTROLS.add(b' ').add(b'"').add(b'<').add(b'>').add(b'`');
    percent_encoding::utf8_percent_encode(s, Box::leak(Box::new(set))).to_string()
}

/// Path that lists the filenames of the photos still without a tag.
pub fn unnamed_images_url() -> (r: String)
    ensures
        r@ == "/apis/unnamed_images"@,
{
    "/apis/unnamed_images".to_owned()
}

/// Path that lists the known tag vocabulary.
pub fn names_url() -> (r: String)
    ensures
        r@ == "/apis/names"@,
{
    "/apis/names".to_owned()
}

/// Path that assigns `tag` to `photo`, exactly as the backend expects it:
/// neither value is transformed on the way in.
pub fn name_image_url(photo: &str, tag: &str) -> (r: String)
    ensures
        r@ == "/apis/name_image?photo_filename="@ + photo@ + "&name="@ + tag@,
{
    let mut r = "/apis/name_image?photo_filename=".to_owned();
    r.append(photo);
    r.append("&name=");
    r.append(tag);
    r
}

/// Path that registers the comma-separated tag names in `names`, which are
/// user-entered text and therefore percent-encoded under the fragment set.
pub fn new_names_url(names: &str) -> (r: String)
    ensures
        r@ == "/apis/new_names?names="@ + fragment_encoded(names@),
{
    let mut r = "/apis/new_names?names=".to_owned();
    let enc = fragment_percent_encode(names);
    r.append(enc.as_str());
    r
}

} // verus!
