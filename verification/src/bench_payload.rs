//! The input and digest of the SHA-256 throughput benchmark: a buffer of one
//! repeated byte, hashed with SHA-256.

use sha2::Digest;
use vstd::prelude::*;

verus! {

/// Length in bytes of the buffer that the throughput benchmark hashes.
pub const PAYLOAD_LEN: usize = 9728;

/// The byte that fills that buffer, the ASCII digit one.
pub const PAYLOAD_BYTE: u8 = 0x31;

/// The SHA-256 digest of a byte string, as computed by the `sha2` crate.
pub uninterp spec fn sha256(data: Seq<u8>) -> Seq<u8>;

/// Calls `<sha2::Sha256 as sha2::Digest>::digest` on `data` and copies the
/// result out. The contract names the result as the SHA-256 digest of the
/// input bytes and states its length, 32 bytes, which is the output size
/// `sha2` declares for SHA-256; the digest algorithm itself is not stated.
#[verifier::external_body]
pub(crate) fn sha256_digest(data: &[u8]) -> (res: Vec<u8>)
    ensures
        res@ == sha256(data@),
        res@.len() == 32,
{
    sha2::Sha256::digest(data).to_vec()
}

/// The buffer of `len` copies of `byte`.
pub open spec fn spec_filled(len: nat, byte: u8) -> Seq<u8> {
    Seq::new(len, |i: int| byte)
}

/// A buffer of `len` bytes, each equal to `byte`.
pub fn filled_payload(len: usize, byte: u8) -> (res: Vec<u8>)
    ensures
        res@ == spec_filled(len as nat, byte),
{
    let mut data: Vec<u8> = Vec::new();
    let mut i: usize = 0;
    while i < len
        invariant
            i <= len,
            data@ == spec_filled(i as nat, byte),
        decreases len - i,
    {
        data.push(byte);
        i = i + 1;
        assert(data@ =~= spec_filled(i as nat, byte));
    }
    data
}

/// The SHA-256 digest of `len` copies of `byte`.
pub fn payload_digest(len: usize, byte: u8) -> (res: Vec<u8>)
    ensures
        res@ == sha256(spec_filled(len as nat, byte)),
        res@.len() == 32,
{
    let data = filled_payload(len, byte);
    sha256_digest(data.as_slice())
}

} // verus!
