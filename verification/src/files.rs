//! The names under which uploaded pictures are kept.
//!
//! A picture is kept under the text of an identifier drawn at random, with
//! every character that is no letter and no digit escaped, in the directory
//! `media`, as a PNG file.

use crate::ids::{fresh_id, is_random_id};
use vstd::arithmetic::power::pow;
use vstd::prelude::*;
use vstd::string::{StringExecFns, StringSliceAdditionalSpecFns};
use vstd::utf8::encode_utf8;

verus! {

/// The `n`th of the 32 hexadecimal digits of `id`, counted from the highest.
pub open spec fn digit_of(id: u128, n: int) -> int {
    (id as int / pow(16, (31 - n) as nat)) % 16
}

/// How many hyphens stand before place `k` of the text of an identifier.
pub open spec fn hyphens_before(k: int) -> int {
    if k > 23 {
        4
    } else if k > 18 {
        3
    } else if k > 13 {
        2
    } else if k > 8 {
        1
    } else {
        0
    }
}

/// The text of an identifier: its 32 hexadecimal digits, the highest first,
/// with small letters, in groups of 8, 4, 4, 4 and 12 with a hyphen between
/// two groups.
pub open spec fn id_text(id: u128) -> Seq<char> {
    Seq::new(
        36,
        |k: int|
            if k == 8 || k == 13 || k == 18 || k == 23 {
                '-'
            } else {
                "0123456789abcdef"@[digit_of(id, k - hyphens_before(k))]
            },
    )
}

/// Whether `byte` is an ASCII letter or digit.
pub open spec fn is_letter_or_digit(byte: u8) -> bool {
    (0x30 <= byte <= 0x39) || (0x41 <= byte <= 0x5a) || (0x61 <= byte <= 0x7a)
}

/// `byte` escaped: itself where it is an ASCII letter or digit, else a
/// percent sign and its two hexadecimal digits, with capital letters.
pub open spec fn escaped_byte(byte: u8) -> Seq<char> {
    if is_letter_or_digit(byte) {
        seq![byte as char]
    } else {
        seq!['%', "0123456789ABCDEF"@[byte as int / 16], "0123456789ABCDEF"@[byte as int % 16]]
    }
}

/// `bytes` with each byte escaped.
pub open spec fn escaped(bytes: Seq<u8>) -> Seq<char>
    decreases bytes.len(),
{
    if bytes.len() == 0 {
        Seq::empty()
    } else {
        escaped(bytes.drop_last()) + escaped_byte(bytes.last())
    }
}

/// The name of the file that is kept under the identifier `id`.
pub open spec fn file_name(id: u128) -> Seq<char> {
    escaped(encode_utf8(id_text(id)))
}

/// Writes an identifier as text.
///
/// Calls `uuid::Uuid::from_u128` and then `to_string`, that is the `Display`
/// of `uuid::Uuid`. Not proved: that the text is `id_text(id)`, the
/// hyphenated form with small letters, which is what `Display` writes
/// whatever the formatter asks for.
#[verifier::external_body]
fn id_to_text(id: u128) -> (text: String)
    ensures
        text@ == id_text(id),
{
    uuid::Uuid::from_u128(id).to_string()
}

/// Escapes every byte of `text` that is no ASCII letter and no digit.
///
/// Calls `percent_encoding::utf8_percent_encode` with the set
/// `percent_encoding::NON_ALPHANUMERIC`, and `to_string` on what it gives.
/// Not proved: that the result is `escaped` of the bytes of `text`. The set
/// holds every ASCII byte that is no letter and no digit, and bytes beyond
/// ASCII are always escaped.
#[verifier::external_body]
fn percent_encoded(text: &str) -> (encoded: String)
    ensures
        encoded@ == escaped(text.spec_bytes()),
{
    percent_encoding::utf8_percent_encode(text, percent_encoding::NON_ALPHANUMERIC).to_string()
}

/// The name of the file that is kept under the identifier `id`.
pub fn file_name_of(id: u128) -> (name: String)
    ensures
        name@ == file_name(id),
{
    let text = id_to_text(id);
    percent_encoded(text.as_str())
}

/// A name for a new file: that of an identifier drawn at random.
pub fn get_random_file_name() -> (name: String)
    ensures
        exists|id: u128| is_random_id(id) && name@ == #[trigger] file_name(id),
{
    let id = fresh_id();
    file_name_of(id)
}

/// Where the file called `file_name` is kept.
pub fn media_path(file_name: &str) -> (path: String)
    ensures
        path@ == "media/"@ + file_name@ + ".png"@,
{
    let mut path = "media/".to_string();
    path.append(file_name);
    path.append(".png");
    path
}

} // verus!
