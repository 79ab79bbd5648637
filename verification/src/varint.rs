//! The variable-length unsigned integer encoding: little-endian base 128,
//! seven payload bits per byte, the high bit of each byte flagging a
//! continuation.  A 32-bit value takes at most five bytes, and a fifth byte
//! may only carry the four value bits left below bit 32.

use vstd::prelude::*;

use crate::error::DecodeError;

verus! {

/// A complete varint for a 32-bit value starts at `pos`: a run of at most
/// four continuation bytes, then a final byte, all inside the buffer.  A
/// fifth byte must keep its continuation bit clear and its bits at or above
/// bit 32 zero, so it must be below 0x10.
pub open spec fn varint_good_at(b: Seq<u8>, pos: int) -> bool {
    &&& 0 <= pos
    &&& {
        ||| (pos + 1 <= b.len() && b[pos] < 0x80)
        ||| (pos + 2 <= b.len() && b[pos] >= 0x80 && b[pos + 1] < 0x80)
        ||| (pos + 3 <= b.len() && b[pos] >= 0x80 && b[pos + 1] >= 0x80 && b[pos + 2] < 0x80)
        ||| (pos + 4 <= b.len() && b[pos] >= 0x80 && b[pos + 1] >= 0x80 && b[pos + 2] >= 0x80
            && b[pos + 3] < 0x80)
        ||| (pos + 5 <= b.len() && b[pos] >= 0x80 && b[pos + 1] >= 0x80 && b[pos + 2] >= 0x80
            && b[pos + 3] >= 0x80 && b[pos + 4] < 0x10)
    }
}

/// How many bytes the varint at `pos` spans: the first byte without its
/// continuation bit ends it.  Meaningful where `varint_good_at` holds.
pub open spec fn varint_good_len(b: Seq<u8>, pos: int) -> int
    recommends
        varint_good_at(b, pos),
{
    if b[pos] < 0x80 {
        1
    } else if b[pos + 1] < 0x80 {
        2
    } else if b[pos + 2] < 0x80 {
        3
    } else if b[pos + 3] < 0x80 {
        4
    } else {
        5
    }
}

/// Four continuation bytes and then a fifth byte that still has bits at or
/// above bit 32 set (its continuation bit included): the encoding of a value
/// wider than 32 bits, which the decoder rejects.
pub open spec fn varint_invalid_at(b: Seq<u8>, pos: int) -> bool {
    &&& 0 <= pos
    &&& pos + 5 <= b.len()
    &&& b[pos] >= 0x80
    &&& b[pos + 1] >= 0x80
    &&& b[pos + 2] >= 0x80
    &&& b[pos + 3] >= 0x80
    &&& b[pos + 4] >= 0x10
}

/// The value of `n` base-128 digits starting at `pos`, least significant
/// digit first; each digit is the low seven bits of its byte.
pub open spec fn varint_val(b: Seq<u8>, pos: int, n: int) -> int
    decreases n,
{
    if n <= 0 {
        0
    } else {
        (b[pos] % 0x80) + 0x80 * varint_val(b, pos + 1, n - 1)
    }
}

/// A varint's digits never evaluate below zero.
pub proof fn lemma_val_nonneg(b: Seq<u8>, pos: int, n: int)
    ensures
        varint_val(b, pos, n) >= 0,
    decreases n,
{
    if n > 0 {
        lemma_val_nonneg(b, pos + 1, n - 1);
    }
}

/// The outcome of decoding one 32-bit varint at `pos`: its value and the
/// position just past it; `InvalidVarint` where the encoding does not fit in
/// 32 bits; `OutOfBounds` where the buffer ends inside the encoding.
pub open spec fn spec_varint(b: Seq<u8>, pos: int) -> Result<(int, int), DecodeError> {
    if varint_good_at(b, pos) {
        Ok((varint_val(b, pos, varint_good_len(b, pos)), pos + varint_good_len(b, pos)))
    } else if varint_invalid_at(b, pos) {
        Err(DecodeError::InvalidVarint)
    } else {
        Err(DecodeError::OutOfBounds)
    }
}

/// The canonical encoding of `v`: low seven bits first, the continuation bit
/// set on every byte but the last.
pub open spec fn varint_enc(v: u32) -> Seq<u8>
    decreases v,
{
    if v < 0x80 {
        seq![v as u8]
    } else {
        seq![(0x80 + v % 0x80) as u8] + varint_enc(v / 0x80)
    }
}

/// 128 raised to `k`, the weight of the `k`-th base-128 digit.
pub open spec fn pow128(k: nat) -> int
    decreases k,
{
    if k == 0 {
        1
    } else {
        0x80 * pow128((k - 1) as nat)
    }
}

/// Two buffers that agree on a window of `n` bytes give those bytes the same
/// value.
proof fn lemma_val_eq(a: Seq<u8>, b: Seq<u8>, pa: int, pb: int, n: int)
    requires
        forall|i: int| pa <= i < pa + n ==> a[i] == b[pb + (i - pa)],
    ensures
        varint_val(a, pa, n) == varint_val(b, pb, n),
    decreases n,
{
    if n > 0 {
        assert(a[pa] == b[pb]);
        lemma_val_eq(a, b, pa + 1, pb + 1, n - 1);
    }
}

/// The shape of a canonical encoding: one to five bytes, continuation bits
/// on all but the last, a fifth byte below 0x10, one byte exactly for values
/// below 0x80, and base-128 digits that evaluate back to `v`.
pub proof fn lemma_enc_shape(v: u32)
    ensures
        1 <= varint_enc(v).len() <= 5,
        v < 0x80 <==> varint_enc(v).len() == 1,
        forall|i: int| 0 <= i < varint_enc(v).len() - 1 ==> #[trigger] varint_enc(v)[i] >= 0x80,
        varint_enc(v)[varint_enc(v).len() - 1] < 0x80,
        varint_enc(v).len() == 5 ==> varint_enc(v)[4] < 0x10,
        varint_enc(v).len() >= 2 ==> varint_enc(v)[varint_enc(v).len() - 1] >= 1,
        varint_enc(v)[varint_enc(v).len() - 1] * pow128((varint_enc(v).len() - 1) as nat) <= v,
        varint_val(varint_enc(v), 0, varint_enc(v).len() as int) == v,
    decreases v,
{
    let e = varint_enc(v);
    if v < 0x80 {
        assert(e =~= seq![v as u8]);
        assert(varint_val(e, 0, 1) == (e[0] % 0x80) + 0x80 * varint_val(e, 1, 0));
        assert(varint_val(e, 0, 1) == v);
    } else {
        let w = v / 0x80;
        let t = varint_enc(w);
        lemma_enc_shape(w);
        let n = e.len() as int;
        assert(e == seq![(0x80 + v % 0x80) as u8] + t);
        assert(n == 1 + t.len());
        assert(forall|i: int| 0 <= i < t.len() ==> e[i + 1] == t[i]);
        // The last byte of e is the last byte of the tail.
        assert(e[n - 1] == t[t.len() - 1]);
        // Continuation bits: byte 0 by construction, the rest from the tail.
        assert(forall|i: int| 0 <= i < n - 1 ==> #[trigger] e[i] >= 0x80) by {
            assert(e[0] == (0x80 + v % 0x80) as u8);
            assert(forall|i: int| 1 <= i < n - 1 ==> #[trigger] e[i] == t[i - 1] && t[i - 1]
                >= 0x80);
        }
        // The last byte is at least 1: either the tail is the single byte w,
        // with w == v / 0x80 >= 1, or the tail's own last byte is.
        assert(e[n - 1] >= 1);
        // The weight bound for the last byte.
        assert(e[n - 1] * pow128((n - 1) as nat) <= v) by {
            let d = t[t.len() - 1] as int;
            let p = pow128((t.len() - 1) as nat);
            assert(d * p <= w);
            assert(pow128((n - 1) as nat) == 0x80 * p);
            assert(d * (0x80 * p) == 0x80 * (d * p)) by (nonlinear_arith);
            assert(0x80 * (d * p) <= 0x80 * w) by (nonlinear_arith)
                requires
                    d * p <= w,
            ;
            assert(0x80 * w <= v) by {
                vstd::arithmetic::div_mod::lemma_fundamental_div_mod(v as int, 0x80);
            }
        }
        // At most five bytes: a five-byte tail would need v / 0x80 >= 128^4,
        // which no u32 divided by 128 reaches.
        assert(t.len() <= 4) by {
            if t.len() == 5 {
                assert(t[4] * pow128(4) <= w);
                assert(pow128(4) == 0x10000000) by {
                    reveal_with_fuel(pow128, 5);
                }
                assert(t[4] >= 1);
                assert(t[4] * 0x10000000 >= 0x10000000) by (nonlinear_arith)
                    requires
                        t[4] >= 1,
                ;
                assert(w < 0x2000000);
            }
        }
        // A fifth byte of e is the fourth digit of the tail, whose weight
        // 128^3 bounds it below 16 because w < 2^25.
        if n == 5 {
            assert(t.len() == 4);
            assert(t[3] * pow128(3) <= w);
            assert(pow128(3) == 0x200000) by {
                reveal_with_fuel(pow128, 4);
            }
            assert(w < 0x2000000);
            assert(t[3] < 0x10) by (nonlinear_arith)
                requires
                    t[3] * 0x200000 <= w,
                    w < 0x2000000,
            ;
            assert(e[4] == t[3]);
        }
        // The digits evaluate back to v.
        assert(varint_val(e, 0, n) == v) by {
            lemma_val_eq(e, t, 1, 0, t.len() as int);
            assert(varint_val(e, 1, n - 1) == w);
            assert(varint_val(e, 0, n) == (e[0] % 0x80) + 0x80 * varint_val(e, 1, n - 1));
            assert(e[0] == (0x80 + v % 0x80) as u8);
            assert(e[0] % 0x80 == v % 0x80);
            vstd::arithmetic::div_mod::lemma_fundamental_div_mod(v as int, 0x80);
        }
    }
}

/// Encode `v` as a varint, least significant seven bits first.
pub fn encode_var_u32(v: u32) -> (r: Vec<u8>)
    ensures
        r@ == varint_enc(v),
{
    let mut out: Vec<u8> = Vec::new();
    let mut x: u32 = v;
    while x >= 0x80
        invariant
            varint_enc(v) == out@ + varint_enc(x),
        decreases x,
    {
        let digit: u8 = 0x80 + (x % 0x80) as u8;
        let ghost prev = out@;
        let ghost px = x;
        out.push(digit);
        x = x / 0x80;
        proof {
            assert(varint_enc(px) == seq![digit] + varint_enc(x));
            assert(out@ + varint_enc(x) =~= prev + (seq![digit] + varint_enc(x)));
        }
    }
    let ghost prev = out@;
    out.push(x as u8);
    proof {
        assert(varint_enc(x) =~= seq![x as u8]);
        assert(out@ =~= prev + varint_enc(x));
    }
    out
}

/// Round trip: wherever the bytes of `varint_enc(v)` sit in a buffer, the
/// decoder accepts exactly them and returns `v`.  Together with
/// `lemma_enc_shape` this holds for every 32-bit value, and a value below
/// 0x80 both encodes and decodes as a single byte.
pub proof fn lemma_varint_round_trip(b: Seq<u8>, pos: int, v: u32)
    requires
        0 <= pos,
        pos + varint_enc(v).len() <= b.len(),
        forall|i: int| pos <= i < pos + varint_enc(v).len() ==> b[i] == varint_enc(v)[i - pos],
    ensures
        spec_varint(b, pos) == Ok::<(int, int), DecodeError>(
            (v as int, pos + varint_enc(v).len()),
        ),
{
    let e = varint_enc(v);
    let n = e.len() as int;
    lemma_enc_shape(v);
    lemma_val_eq(b, e, pos, 0, n);
    assert(forall|i: int| 0 <= i < n ==> b[pos + i] == e[i]) by {
        assert(forall|i: int| 0 <= i < n ==> #[trigger] b[pos + i] == e[(pos + i) - pos]);
    }
    assert(varint_good_at(b, pos));
    assert(varint_good_len(b, pos) == n);
}

} // verus!
