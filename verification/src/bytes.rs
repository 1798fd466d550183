//! Little-endian byte encoding of unsigned integers, and the flat payload a
//! sequence of 64-bit sample bit patterns encodes to.

use vstd::prelude::*;

verus! {

/// The little-endian encoding of `x` in `n` bytes: least significant byte
/// first. Exact for `0 <= x < pow256(n)`; higher bits are dropped.
pub open spec fn le_bytes(x: int, n: nat) -> Seq<u8>
    decreases n,
{
    if n == 0 {
        Seq::empty()
    } else {
        seq![(x % 256) as u8] + le_bytes(x / 256, (n - 1) as nat)
    }
}

/// The integer a little-endian byte sequence encodes.
pub open spec fn le_val(b: Seq<u8>) -> int
    decreases b.len(),
{
    if b.len() == 0 {
        0
    } else {
        b[0] + 256 * le_val(b.skip(1))
    }
}

/// 256 raised to `n`: the number of values `n` bytes can hold.
pub open spec fn pow256(n: nat) -> int
    decreases n,
{
    if n == 0 {
        1
    } else {
        256 * pow256((n - 1) as nat)
    }
}

pub proof fn lemma_le_bytes_len(x: int, n: nat)
    ensures
        le_bytes(x, n).len() == n,
    decreases n,
{
    if n > 0 {
        lemma_le_bytes_len(x / 256, (n - 1) as nat);
    }
}

/// Encoding then decoding is the identity: the `n`-byte little-endian
/// encoding of any `x` below `pow256(n)` decodes back to `x`.
pub proof fn lemma_le_round_trip(x: int, n: nat)
    requires
        0 <= x < pow256(n),
    ensures
        le_val(le_bytes(x, n)) == x,
    decreases n,
{
    if n > 0 {
        assert(x == 256 * (x / 256) + x % 256) by {
            vstd::arithmetic::div_mod::lemma_fundamental_div_mod(x, 256);
        }
        assert(0 <= x / 256 < pow256((n - 1) as nat));
        lemma_le_round_trip(x / 256, (n - 1) as nat);
        assert(le_bytes(x, n).skip(1) =~= le_bytes(x / 256, (n - 1) as nat));
    }
}

/// The byte payload for a sequence of 64-bit sample bit patterns: each
/// sample as 8 little-endian bytes, samples concatenated in input order.
pub open spec fn encode_payload(samples: Seq<u64>) -> Seq<u8>
    decreases samples.len(),
{
    if samples.len() == 0 {
        Seq::empty()
    } else {
        le_bytes(samples[0] as int, 8) + encode_payload(samples.skip(1))
    }
}

/// The payload is always exactly eight bytes per sample.
pub proof fn lemma_encode_payload_len(samples: Seq<u64>)
    ensures
        encode_payload(samples).len() == 8 * samples.len(),
    decreases samples.len(),
{
    if samples.len() > 0 {
        lemma_le_bytes_len(samples[0] as int, 8);
        lemma_encode_payload_len(samples.skip(1));
    }
}

pub proof fn lemma_encode_payload_push(samples: Seq<u64>, x: u64)
    ensures
        encode_payload(samples.push(x)) == encode_payload(samples) + le_bytes(x as int, 8),
    decreases samples.len(),
{
    if samples.len() == 0 {
        assert(samples.push(x)[0] == x);
        assert(samples.push(x).skip(1) =~= Seq::<u64>::empty());
        assert(encode_payload(samples.push(x)) == le_bytes(x as int, 8) + encode_payload(
            Seq::<u64>::empty(),
        ));
        assert(le_bytes(x as int, 8) + Seq::<u8>::empty() =~= le_bytes(x as int, 8));
        assert(encode_payload(samples) + le_bytes(x as int, 8) =~= le_bytes(x as int, 8));
    } else {
        assert(samples.push(x).skip(1) =~= samples.skip(1).push(x));
        lemma_encode_payload_push(samples.skip(1), x);
        assert(le_bytes(samples[0] as int, 8) + (encode_payload(samples.skip(1)) + le_bytes(
            x as int,
            8,
        )) =~= (le_bytes(samples[0] as int, 8) + encode_payload(samples.skip(1))) + le_bytes(
            x as int,
            8,
        ));
    }
}

/// The sample bit patterns a payload encodes, read back 8 bytes at a time,
/// least significant byte first.
pub open spec fn decode_payload(bytes: Seq<u8>) -> Seq<u64>
    decreases bytes.len(),
{
    if bytes.len() < 8 {
        Seq::empty()
    } else {
        seq![le_val(bytes.subrange(0, 8)) as u64] + decode_payload(bytes.skip(8))
    }
}

/// Round trip: decoding an encoded payload gives back the samples, for every
/// sample sequence.
pub proof fn lemma_payload_round_trip(samples: Seq<u64>)
    ensures
        decode_payload(encode_payload(samples)) == samples,
    decreases samples.len(),
{
    if samples.len() > 0 {
        let head = le_bytes(samples[0] as int, 8);
        let enc = encode_payload(samples);
        lemma_le_bytes_len(samples[0] as int, 8);
        lemma_encode_payload_len(samples);
        assert(enc.subrange(0, 8) =~= head);
        assert(enc.skip(8) =~= encode_payload(samples.skip(1)));
        assert(samples[0] < pow256(8)) by {
            reveal_with_fuel(pow256, 9);
        }
        lemma_le_round_trip(samples[0] as int, 8);
        lemma_payload_round_trip(samples.skip(1));
        assert(decode_payload(enc) =~= samples);
    }
}

/// Append the `n`-byte little-endian encoding of `x` to `out`.
pub fn push_le_bytes(out: &mut Vec<u8>, x: u64, n: usize)
    ensures
        final(out)@ == old(out)@ + le_bytes(x as int, n as nat),
{
    let mut cur: u64 = x;
    let mut i: usize = 0;
    while i < n
        invariant
            i <= n,
            out@ + le_bytes(cur as int, (n - i) as nat) == old(out)@ + le_bytes(
                x as int,
                n as nat,
            ),
        decreases n - i,
    {
        proof {
            assert((out@ + seq![(cur as int % 256) as u8]) + le_bytes(
                cur as int / 256,
                (n - i - 1) as nat,
            ) =~= out@ + (seq![(cur as int % 256) as u8] + le_bytes(
                cur as int / 256,
                (n - i - 1) as nat,
            )));
        }
        out.push((cur % 256) as u8);
        cur = cur / 256;
        i = i + 1;
    }
    proof {
        assert(out@ + Seq::<u8>::empty() =~= out@);
    }
}

/// Encode sample bit patterns into the flat little-endian byte payload:
/// eight bytes per sample, in input order.
pub fn encode_samples(raw: &[u64]) -> (payload: Vec<u8>)
    ensures
        payload@ == encode_payload(raw@),
        payload@.len() == 8 * raw@.len(),
{
    let mut payload: Vec<u8> = Vec::new();
    let mut i: usize = 0;
    while i < raw.len()
        invariant
            i <= raw@.len(),
            payload@ == encode_payload(raw@.subrange(0, i as int)),
        decreases raw@.len() - i,
    {
        proof {
            lemma_encode_payload_push(raw@.subrange(0, i as int), raw@[i as int]);
            assert(raw@.subrange(0, i as int).push(raw@[i as int]) =~= raw@.subrange(
                0,
                i as int + 1,
            ));
        }
        push_le_bytes(&mut payload, raw[i], 8);
        i = i + 1;
    }
    proof {
        assert(raw@.subrange(0, raw@.len() as int) =~= raw@);
        lemma_encode_payload_len(raw@);
    }
    payload
}

} // verus!
