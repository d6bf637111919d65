use vstd::prelude::*;

verus! {

/// The SHA-256 digest of the UTF-8 bytes of a text, written as lowercase hexadecimal.
pub uninterp spec fn sha256_hex(data: Seq<char>) -> Seq<char>;

pub open spec fn is_lower_hex_digit(c: char) -> bool {
    ('0' <= c && c <= '9') || ('a' <= c && c <= 'f')
}

/// Relies on `sha2::Sha256::digest` (through `digest::Digest`) for the 32-byte digest,
/// and on the `LowerHex` impl of `generic_array::GenericArray<u8, _>`, which writes each
/// byte as two lowercase hexadecimal digits.
#[verifier::external_body]
pub fn hash(data: &str) -> (r: String)
    ensures
        r@ == sha256_hex(data@),
        r@.len() == 64,
        forall|i: int| 0 <= i < r@.len() ==> is_lower_hex_digit(#[trigger] r@[i]),
{
    format!("{:x}", <sha2::Sha256 as sha2::Digest>::digest(data.as_bytes()))
}

} // verus!
