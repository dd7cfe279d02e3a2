//! The hash engine: a deterministic pseudo-random 64-bit value derived from a
//! salt and four identifying strings.
//!
//! The five strings are joined with `:` separators, the joined bytes are run
//! through SHA-1, and the first 8 of the digest's first 16 bytes are read as a
//! big-endian unsigned 64-bit integer.

use vstd::prelude::*;
use vstd::utf8::encode_utf8;

verus! {

/// The byte that separates the joined hash-input strings.
pub const SEPARATOR: u8 = 58;

/// The first 8 bytes of `s`, read as a big-endian unsigned 64-bit integer.
pub open spec fn be_u64_of(s: Seq<u8>) -> u64
    recommends
        s.len() >= 8,
{
    ((s[0] as int) * 0x100_0000_0000_0000 + (s[1] as int) * 0x1_0000_0000_0000
        + (s[2] as int) * 0x100_0000_0000 + (s[3] as int) * 0x1_0000_0000
        + (s[4] as int) * 0x100_0000 + (s[5] as int) * 0x1_0000 + (s[6] as int) * 0x100
        + (s[7] as int)) as u64
}

/// The SHA-1 digest of a byte sequence; 20 bytes, a function of the input
/// bytes alone.
pub uninterp spec fn sha1_of(data: Seq<u8>) -> Seq<u8>;

/// Relies on `sha1::Digest::digest` for `sha1::Sha1`: the 20-byte SHA-1
/// digest of the input, a function of the input bytes alone.
#[verifier::external_body]
fn sha1_digest(data: &[u8]) -> (r: Vec<u8>)
    ensures
        r@ == sha1_of(data@),
        r@.len() == 20,
{
    <sha1::Sha1 as sha1::Digest>::digest(data).to_vec()
}

/// Relies on `byteorder::BigEndian::read_u64`: the first 8 bytes of the
/// buffer read as a big-endian unsigned 64-bit integer. It panics when the
/// buffer holds fewer than 8 bytes, so that case is excluded here.
#[verifier::external_body]
fn read_u64_be(buf: &[u8]) -> (r: u64)
    requires
        buf@.len() >= 8,
    ensures
        r == be_u64_of(buf@),
{
    <byteorder::BigEndian as byteorder::ByteOrder>::read_u64(buf)
}

/// The UTF-8 bytes of the five identifying strings, joined with `:`.
pub open spec fn hash_input(
    salt: Seq<char>,
    namespace: Seq<char>,
    experiment_name: Seq<char>,
    param_name: Seq<char>,
    user_id: Seq<char>,
) -> Seq<u8> {
    encode_utf8(salt) + seq![SEPARATOR] + encode_utf8(namespace) + seq![SEPARATOR]
        + encode_utf8(experiment_name) + seq![SEPARATOR] + encode_utf8(param_name)
        + seq![SEPARATOR] + encode_utf8(user_id)
}

/// The hash engine's value: the first 8 bytes of the SHA-1 digest of the
/// joined strings, read big-endian.
pub open spec fn spec_hash(
    salt: Seq<char>,
    namespace: Seq<char>,
    experiment_name: Seq<char>,
    param_name: Seq<char>,
    user_id: Seq<char>,
) -> u64 {
    be_u64_of(sha1_of(hash_input(salt, namespace, experiment_name, param_name, user_id)))
}

/// Appends the UTF-8 bytes of `s` to `out`.
fn push_str_bytes(out: &mut Vec<u8>, s: &str)
    ensures
        final(out)@ == old(out)@ + encode_utf8(s@),
{
    let bytes: &[u8] = s.as_bytes();
    let mut i: usize = 0;
    while i < bytes.len()
        invariant
            i <= bytes@.len(),
            bytes@ == encode_utf8(s@),
            out@ == old(out)@ + bytes@.take(i as int),
        decreases bytes@.len() - i,
    {
        out.push(bytes[i]);
        i = i + 1;
    }
    assert(out@ =~= old(out)@ + encode_utf8(s@));
}

/// Produces the deterministic pseudo-random value used to evaluate
/// experiments: the SHA-1 digest of the supplied strings separated by
/// colons, sliced to its first 16 bytes, whose first 8 bytes are read as a
/// big-endian unsigned 64-bit integer.
pub fn hash(
    salt: &str,
    namespace: &str,
    experiment_name: &str,
    param_name: &str,
    user_id: &str,
) -> (r: u64)
    ensures
        r == spec_hash(salt@, namespace@, experiment_name@, param_name@, user_id@),
{
    let mut buf: Vec<u8> = Vec::new();
    push_str_bytes(&mut buf, salt);
    buf.push(SEPARATOR);
    push_str_bytes(&mut buf, namespace);
    buf.push(SEPARATOR);
    push_str_bytes(&mut buf, experiment_name);
    buf.push(SEPARATOR);
    push_str_bytes(&mut buf, param_name);
    buf.push(SEPARATOR);
    push_str_bytes(&mut buf, user_id);
    proof {
        assert(buf@ =~= hash_input(salt@, namespace@, experiment_name@, param_name@, user_id@));
    }
    let digest = sha1_digest(buf.as_slice());
    let sliced = vstd::slice::slice_subrange(digest.as_slice(), 0, 16);
    proof {
        assert(be_u64_of(sliced@) == be_u64_of(digest@));
    }
    read_u64_be(sliced)
}

/// Determinism of the hash engine: the value is a function of the five
/// strings, so any two computations over the same strings agree.
pub proof fn lemma_hash_deterministic(
    salt: Seq<char>,
    namespace: Seq<char>,
    experiment_name: Seq<char>,
    param_name: Seq<char>,
    user_id: Seq<char>,
    r1: u64,
    r2: u64,
)
    requires
        r1 == spec_hash(salt, namespace, experiment_name, param_name, user_id),
        r2 == spec_hash(salt, namespace, experiment_name, param_name, user_id),
    ensures
        r1 == r2,
{
}

} // verus!
