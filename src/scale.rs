//! Little-endian integer encoding, as the SCALE codec writes and reads
//! fixed-width integers, and the calls into `parity-scale-codec` that do it.
use vstd::prelude::*;

verus! {

/// The `n` least significant bytes of `x`, least significant first.
pub open spec fn le_bytes(x: nat, n: nat) -> Seq<u8>
    decreases n,
{
    if n == 0 {
        Seq::empty()
    } else {
        seq![(x % 256) as u8] + le_bytes(x / 256, (n - 1) as nat)
    }
}

/// The number that a byte string denotes when read least significant byte first.
pub open spec fn le_value(s: Seq<u8>) -> nat
    decreases s.len(),
{
    if s.len() == 0 {
        0
    } else {
        s[0] as nat + 256 * le_value(s.drop_first())
    }
}

pub proof fn lemma_le_bytes_len(x: nat, n: nat)
    ensures
        le_bytes(x, n).len() == n,
    decreases n,
{
    if n > 0 {
        lemma_le_bytes_len(x / 256, (n - 1) as nat);
    }
}

/// `256^n`: the count of numbers that `n` bytes can hold.
pub open spec fn byte_capacity(n: nat) -> nat
    decreases n,
{
    if n == 0 {
        1
    } else {
        256 * byte_capacity((n - 1) as nat)
    }
}

/// Reading back the `n` bytes written for `x` gives `x` when it fits.
pub proof fn lemma_le_value_of_bytes(x: nat, n: nat)
    requires
        x < byte_capacity(n),
    ensures
        le_value(le_bytes(x, n)) == x,
    decreases n,
{
    lemma_le_bytes_len(x, n);
    if n > 0 {
        let s = le_bytes(x, n);
        let c = byte_capacity((n - 1) as nat);
        assert(s.drop_first() =~= le_bytes(x / 256, (n - 1) as nat));
        assert(x / 256 < c) by (nonlinear_arith)
            requires
                x < 256 * c,
        ;
        lemma_le_value_of_bytes(x / 256, (n - 1) as nat);
        assert(x == 256 * (x / 256) + x % 256) by (nonlinear_arith);
    }
}

/// A byte string is the encoding of the number it denotes.
pub proof fn lemma_bytes_of_le_value(s: Seq<u8>)
    ensures
        le_bytes(le_value(s), s.len()) == s,
    decreases s.len(),
{
    if s.len() > 0 {
        let v = le_value(s);
        let rest = le_value(s.drop_first());
        assert(v % 256 == s[0] as nat) by {
            vstd::arithmetic::div_mod::lemma_fundamental_div_mod_converse(
                v as int, 256, rest as int, s[0] as int);
        }
        assert(v / 256 == rest) by {
            vstd::arithmetic::div_mod::lemma_fundamental_div_mod_converse(
                v as int, 256, rest as int, s[0] as int);
        }
        lemma_bytes_of_le_value(s.drop_first());
        assert(le_bytes(v, s.len()) =~= s);
    }
}

/// Relies on `<u32 as parity_scale_codec::Encode>::encode`, which writes
/// `u32::to_le_bytes`.
#[verifier::external_body]
pub(crate) fn encode_u32(x: u32) -> (r: Vec<u8>)
    ensures
        r@ == le_bytes(x as nat, 4),
{
    parity_scale_codec::Encode::encode(&x)
}

/// Relies on `<u64 as parity_scale_codec::Encode>::encode`, which writes
/// `u64::to_le_bytes`.
#[verifier::external_body]
pub(crate) fn encode_u64(x: u64) -> (r: Vec<u8>)
    ensures
        r@ == le_bytes(x as nat, 8),
{
    parity_scale_codec::Encode::encode(&x)
}

/// Relies on `<u32 as parity_scale_codec::Decode>::decode` over a byte
/// slice, with its error dropped: it fails when fewer than four bytes are left, and otherwise takes
/// the next four bytes as a little-endian number and moves past them.
#[verifier::external_body]
pub(crate) fn decode_u32(cursor: &mut &[u8]) -> (r: Option<u32>)
    ensures
        r is Some <==> old(cursor)@.len() >= 4,
        r matches Some(v) ==> v as nat == le_value(old(cursor)@.take(4))
            && final(cursor)@ == old(cursor)@.skip(4),
{
    <u32 as parity_scale_codec::Decode>::decode(cursor).ok()
}

/// Relies on `<u64 as parity_scale_codec::Decode>::decode` over a byte
/// slice, with its error dropped: it fails when fewer than eight bytes are left, and otherwise takes
/// the next eight bytes as a little-endian number and moves past them.
#[verifier::external_body]
pub(crate) fn decode_u64(cursor: &mut &[u8]) -> (r: Option<u64>)
    ensures
        r is Some <==> old(cursor)@.len() >= 8,
        r matches Some(v) ==> v as nat == le_value(old(cursor)@.take(8))
            && final(cursor)@ == old(cursor)@.skip(8),
{
    <u64 as parity_scale_codec::Decode>::decode(cursor).ok()
}

} // verus!
