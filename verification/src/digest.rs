//! Content hashes of served files.
use crate::text::{hex_lower, hex_text};
use vstd::prelude::*;

verus! {

/// The 16-byte MD5 digest that `md5::compute` gives for `data`.
pub uninterp spec fn md5_digest(data: Seq<u8>) -> Seq<u8>;

/// `md5::compute` (md5 crate): the digest of `data`, named by `md5_digest`;
/// it is 16 bytes long, as the crate's `Digest([u8; 16])` is.
#[verifier::external_body]
fn md5_compute(data: &[u8]) -> (r: Vec<u8>)
    ensures
        r@ == md5_digest(data@),
        r@.len() == 16,
{
    md5::compute(data).0.to_vec()
}

/// The MD5 hash of `data` as 32 lowercase hexadecimal digits, the text that
/// the file list carries for a regular file.
pub fn md5_hex(data: &[u8]) -> (r: String)
    ensures
        r@ == hex_text(md5_digest(data@)),
        r@.len() == 32,
{
    let d = md5_compute(data);
    let s = hex_lower(d.as_slice());
    proof {
        lemma_hex_text_len(d@);
    }
    s
}

/// Hex text is two characters per byte.
pub proof fn lemma_hex_text_len(bytes: Seq<u8>)
    ensures
        hex_text(bytes).len() == 2 * bytes.len(),
    decreases bytes.len(),
{
    if bytes.len() > 0 {
        lemma_hex_text_len(bytes.drop_last());
    }
}

} // verus!
