use highway::{HighwayHash, HighwayHasher, Key};
use vstd::prelude::*;

verus! {

/// The 128-bit HighwayHash of `data` under `key`, as its two 64-bit halves.
pub uninterp spec fn highway128(key: Seq<u64>, data: Seq<u8>) -> (u64, u64);

/// The key of the content digest. It doubles as the digest's version: a new
/// key changes every digest, so every earlier sidecar compares unequal.
pub open spec fn hash_key_spec() -> Seq<u64> {
    seq![2024u64, 4u64, 6u64, 1u64]
}

/// The lowercase hexadecimal digits.
pub open spec fn hex_char(d: int) -> char {
    "0123456789abcdef"@[d]
}

/// The `n` lowest hexadecimal digits of `x`, most significant first.
pub open spec fn hex_width(x: nat, n: nat) -> Seq<char>
    decreases n,
{
    if n == 0 {
        seq![]
    } else {
        hex_width(x / 16, (n - 1) as nat).push(hex_char((x % 16) as int))
    }
}

/// A 64-bit word as sixteen hexadecimal digits, zero padded.
pub open spec fn hex_u64(x: u64) -> Seq<char> {
    hex_width(x as nat, 16)
}

/// The textual content digest of `data`: both halves of its keyed
/// HighwayHash in hexadecimal, high-index half last.
pub open spec fn digest(data: Seq<u8>) -> Seq<char> {
    let h = highway128(hash_key_spec(), data);
    hex_u64(h.0) + hex_u64(h.1)
}

/// The key that the content digest is computed with.
pub fn hash_key() -> (r: [u64; 4])
    ensures
        r@ == hash_key_spec(),
{
    let r: [u64; 4] = [2024u64, 4u64, 6u64, 1u64];
    assert(r@ =~= hash_key_spec());
    r
}

/// Relies on highway's `HighwayHasher::new(Key(key)).hash128(data)`: the
/// 128-bit HighwayHash, which depends on the key and the bytes alone (the
/// portable and SIMD implementations agree).
#[verifier::external_body]
fn highway_hash128(key: [u64; 4], data: &[u8]) -> (r: (u64, u64))
    ensures
        r == highway128(key@, data@),
{
    let h = HighwayHasher::new(Key(key)).hash128(data);
    (h[0], h[1])
}

/// Appends the `n` lowest hexadecimal digits of `x` to `s`.
fn push_hex(s: &mut String, x: u64, n: usize)
    ensures
        final(s)@ == old(s)@ + hex_width(x as nat, n as nat),
    decreases n,
{
    if n > 0 {
        push_hex(s, x / 16, n - 1);
        let d: usize = (x % 16) as usize;
        let digits: &str = "0123456789abcdef";
        proof {
            reveal_strlit("0123456789abcdef");
        }
        let one = digits.substring_char(d, d + 1);
        s.append(one);
        assert(one@ =~= seq![hex_char(d as int)]);
        assert(s@ =~= old(s)@ + hex_width(x as nat, n as nat));
    }
}

/// The content digest of `data`, as 32 lowercase hexadecimal digits.
pub fn hash(data: &[u8]) -> (r: String)
    ensures
        r@ == digest(data@),
{
    let h = highway_hash128(hash_key(), data);
    let mut s = String::new();
    push_hex(&mut s, h.0, 16);
    push_hex(&mut s, h.1, 16);
    assert(s@ =~= digest(data@));
    s
}

} // verus!
