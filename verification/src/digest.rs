//! MD5 digests of text, as lower-case hexadecimal.

use vstd::prelude::*;

verus! {

/// The MD5 digest of the UTF-8 bytes of a text, written as lower-case
/// hexadecimal digits.
pub uninterp spec fn md5_hex_of(data: Seq<char>) -> Seq<char>;

/// `md5::compute` on the bytes of `data`, formatted by the digest's
/// `LowerHex`: the same text always gives the same digits.
#[verifier::external_body]
pub(crate) fn md5_hex(data: &str) -> (r: String)
    ensures
        r@ == md5_hex_of(data@),
{
    format!("{:x}", md5::compute(data.as_bytes()))
}

} // verus!
