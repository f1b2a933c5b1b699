//! Hashing through the Soroban host, and the byte encodings hashed.
use vstd::prelude::*;
use soroban_sdk::{Bytes, Env};

verus! {

/// The Soroban host environment, carried through to the host's hash function.
#[verifier::external_type_specification]
#[verifier::external_body]
pub struct ExEnv(Env);

/// SHA-256 digest of a byte string.
pub uninterp spec fn sha256_digest(data: Seq<u8>) -> Seq<u8>;

/// SHA-256 of `data`, computed by the host (`env.crypto().sha256` on
/// `Bytes::from_slice(env, data)`): the digest of exactly the given bytes,
/// whatever the environment. The host aborts the whole invocation when its
/// resource budget runs out; nothing is stated of that case.
#[verifier::external_body]
pub(crate) fn sha256(env: &Env, data: &[u8]) -> (digest: [u8; 32])
    ensures
        digest@ == sha256_digest(data@),
{
    env.crypto().sha256(&Bytes::from_slice(env, data)).to_array()
}

/// Big-endian encoding of a `u64`: eight bytes, most significant first.
pub open spec fn be_bytes_u64(x: u64) -> Seq<u8> {
    Seq::new(8, |k: int| ((x >> ((56 - 8 * k) as u64)) & 0xff) as u8)
}

/// Append the big-endian encoding of `x` to `out`.
pub fn push_be_u64(out: &mut Vec<u8>, x: u64)
    ensures
        final(out)@ == old(out)@ + be_bytes_u64(x),
{
    let mut k: u64 = 0;
    while k < 8
        invariant
            0 <= k <= 8,
            out@ == old(out)@ + be_bytes_u64(x).subrange(0, k as int),
        decreases 8 - k,
    {
        let byte = ((x >> (56 - 8 * k)) & 0xff) as u8;
        out.push(byte);
        proof {
            assert(be_bytes_u64(x).subrange(0, k + 1) =~= be_bytes_u64(x).subrange(0, k as int).push(
                byte,
            ));
        }
        k = k + 1;
    }
    proof {
        assert(be_bytes_u64(x).subrange(0, 8) =~= be_bytes_u64(x));
    }
}

/// Append `bytes` to `out`.
pub fn push_bytes(out: &mut Vec<u8>, bytes: &[u8])
    ensures
        final(out)@ == old(out)@ + bytes@,
{
    let mut i: usize = 0;
    while i < bytes.len()
        invariant
            0 <= i <= bytes@.len(),
            out@ == old(out)@ + bytes@.subrange(0, i as int),
        decreases bytes@.len() - i,
    {
        out.push(bytes[i]);
        proof {
            assert(bytes@.subrange(0, i + 1) =~= bytes@.subrange(0, i as int).push(bytes@[i as int]));
        }
        i = i + 1;
    }
    proof {
        assert(bytes@.subrange(0, bytes@.len() as int) =~= bytes@);
    }
}

} // verus!
