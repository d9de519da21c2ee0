//! Base-128 variable-length integers, the primitive of the wire format: each
//! byte carries seven value bits, and the high bit is set on every byte but
//! the last.

use vstd::prelude::*;

verus! {

/// The bytes that encode `v`, least significant group first.
pub open spec fn varint_bytes(v: nat) -> Seq<u8>
    decreases v,
{
    if v < 128 {
        seq![v as u8]
    } else {
        seq![(v % 128 + 128) as u8] + varint_bytes(v / 128)
    }
}

/// Decodes one varint from `s` inside the window `[i, end)`; yields the value
/// and the position just past its last byte, or `None` when the bytes run out
/// of the window or the value does not fit in 64 bits.
pub open spec fn spec_decode_varint(s: Seq<u8>, i: int, end: int) -> Option<(u64, int)>
    decreases end - i,
{
    if i < 0 || i >= end || end > s.len() {
        None
    } else if s[i] < 128 {
        Some((s[i] as u64, i + 1))
    } else {
        let g = (s[i] - 128) as u64;
        match spec_decode_varint(s, i + 1, end) {
            None => None,
            Some((rest, j)) => if rest <= (u64::MAX - g) / 128 {
                Some(((g + 128 * rest) as u64, j))
            } else {
                None
            },
        }
    }
}

/// A decoded varint consumes at least one byte and stays inside the window.
pub proof fn lemma_decode_varint_bounds(s: Seq<u8>, i: int, end: int)
    ensures
        spec_decode_varint(s, i, end) matches Some((v, j)) ==> i < j <= end,
    decreases end - i,
{
    if 0 <= i && i < end && end <= s.len() && s[i] >= 128 {
        lemma_decode_varint_bounds(s, i + 1, end);
    }
}

/// The encoding of any value decodes back to that value, wherever it sits
/// inside the decoding window.
pub proof fn lemma_varint_round_trip(s: Seq<u8>, i: int, end: int, v: u64)
    requires
        0 <= i,
        end <= s.len(),
        i + varint_bytes(v as nat).len() <= end,
        forall|k: int|
            0 <= k < varint_bytes(v as nat).len() ==> s[i + k] == varint_bytes(v as nat)[k],
    ensures
        spec_decode_varint(s, i, end) == Some((v, i + varint_bytes(v as nat).len() as int)),
    decreases v,
{
    let bs = varint_bytes(v as nat);
    if v < 128 {
        assert(s[i] == bs[0]);
    } else {
        assert(s[i] == bs[0]);
        let rest = (v as nat / 128) as u64;
        let bs2 = varint_bytes(rest as nat);
        assert(bs == seq![(v as nat % 128 + 128) as u8] + bs2);
        assert(forall|k: int| 0 <= k < bs2.len() ==> s[i + 1 + k] == bs2[k]) by {
            assert(forall|k: int| 0 <= k < bs2.len() ==> bs[k + 1] == bs2[k]);
        }
        lemma_varint_round_trip(s, i + 1, end, rest);
        let g = (s[i] - 128) as u64;
        assert(g == v as nat % 128);
        assert(128 * (v as int / 128) + v as int % 128 == v as int);
        assert(rest <= (u64::MAX - g) / 128);
        assert(g + 128 * rest == v);
    }
}

/// Appends the varint encoding of `v` to `out`.
pub fn encode_varint(v: u64, out: &mut Vec<u8>)
    ensures
        final(out)@ == old(out)@ + varint_bytes(v as nat),
    decreases v,
{
    if v < 128 {
        out.push(v as u8);
        assert(out@ =~= old(out)@ + varint_bytes(v as nat));
    } else {
        let ghost before = out@;
        out.push((v % 128 + 128) as u8);
        encode_varint(v / 128, out);
        assert(out@ =~= before + varint_bytes(v as nat));
    }
}

/// Decodes one varint from `s` inside `[i, end)`, exactly as
/// `spec_decode_varint` describes.
pub fn decode_varint(s: &Vec<u8>, i: usize, end: usize) -> (r: Option<(u64, usize)>)
    requires
        end <= s.len(),
    ensures
        r matches Some(p) ==> spec_decode_varint(s@, i as int, end as int)
            == Some((p.0, p.1 as int)),
        r is None ==> spec_decode_varint(s@, i as int, end as int) is None,
    decreases end - i,
{
    if i >= end {
        return None;
    }
    let b = s[i];
    if b < 128 {
        Some((b as u64, i + 1))
    } else {
        let g = (b - 128) as u64;
        match decode_varint(s, i + 1, end) {
            None => None,
            Some((rest, j)) => {
                if rest <= (u64::MAX - g) / 128 {
                    assert(128 * rest <= u64::MAX - g);
                    Some((g + 128 * rest, j))
                } else {
                    None
                }
            },
        }
    }
}

} // verus!
