//! The digest by which a configuration is recognised when it comes again.
use vstd::prelude::*;

verus! {

/// Whether a character is a lowercase hexadecimal digit.
pub open spec fn is_lower_hex_digit(c: char) -> bool {
    ('0' <= c && c <= '9') || ('a' <= c && c <= 'f')
}

/// The MD5 digest of the UTF-8 bytes of a text, as `md5` computes it,
/// written in lowercase hexadecimal.
pub uninterp spec fn md5_hex(text: Seq<char>) -> Seq<char>;

/// `md5::compute` on the bytes of the text, written with `{:x}`. Claimed:
/// the result is `md5_hex` of the text, and, as the crate writes each of the
/// sixteen bytes of the digest with `{:02x}`, it is 32 lowercase
/// hexadecimal digits.
#[verifier::external_body]
fn md5_lower_hex(text: &str) -> (r: String)
    ensures
        r@ == md5_hex(text@),
        r@.len() == 32,
        forall|i: int| 0 <= i < r@.len() ==> is_lower_hex_digit(#[trigger] r@[i]),
{
    format!("{:x}", md5::compute(text.as_bytes()))
}

/// The digest of a configuration's raw content.
pub fn digest(content: &str) -> (r: String)
    ensures
        r@ == md5_hex(content@),
        r@.len() == 32,
        forall|i: int| 0 <= i < r@.len() ==> is_lower_hex_digit(#[trigger] r@[i]),
{
    md5_lower_hex(content)
}

} // verus!
