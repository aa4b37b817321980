//! Wire codec for the framed binary event stream.
//!
//! A frame is the byte-destuffed encoding of a payload followed by one
//! reserved delimiter byte `0x00`; destuffing guarantees that the payload
//! bytes on the wire are never `0x00`, so the delimiter is unambiguous.
//! A payload is five fields in fixed order: timestamp seconds (`u64`),
//! timestamp nanoseconds (`u32`), event type (`u16`), code (`u16`) and
//! value (`i32`); unsigned fields are base-128 continuation-bit varints,
//! the signed field is sign-folded to an unsigned value first.

use vstd::prelude::*;
use vstd::arithmetic::div_mod::{lemma_fundamental_div_mod, lemma_multiply_divide_lt};
use crate::input::{InputEventWrapper, Timestamp};

verus! {

/// Why a frame failed to decode. A decode failure discards the frame
/// only; the surrounding stream stays usable.
#[derive(Clone, Copy, Debug, PartialEq, Eq, Structural)]
pub enum DecodeError {
    /// The bytes do not end in the delimiter: a truncated final frame.
    MissingDelimiter,
    /// The frame is a bare delimiter, with no payload at all.
    EmptyFrame,
    /// A destuffing length code was zero or ran past the end of the
    /// frame.
    Stuffing,
    /// A varint's continuation bits run past the end of the payload, or
    /// its value does not fit in 64 bits.
    BadVarint,
    /// A field's value does not fit its field width.
    FieldOverflow,
    /// Bytes follow the last field of the payload.
    TrailingBytes,
}

/// The base-128 little-endian varint encoding of `n`: seven value bits
/// per byte, least significant group first, continuation bit `0x80` on
/// every byte but the last.
pub open spec fn varint(n: nat) -> Seq<u8>
    decreases n,
{
    if n < 128 {
        seq![n as u8]
    } else {
        seq![(128 + n % 128) as u8] + varint(n / 128)
    }
}

/// Parse one varint from the front of `s`: the decoded value and the
/// number of bytes consumed, or `None` if the continuation bits run past
/// the end of `s`.
pub open spec fn parse_varint(s: Seq<u8>) -> Option<(nat, int)>
    decreases s.len(),
{
    if s.len() == 0 {
        None
    } else if s[0] < 128 {
        Some((s[0] as nat, 1))
    } else {
        match parse_varint(s.skip(1)) {
            None => None,
            Some((v, k)) => Some(((s[0] - 128 + 128 * v) as nat, k + 1)),
        }
    }
}

/// Parsing inverts encoding, whatever bytes follow the varint.
proof fn lemma_parse_varint_of_encoding(n: nat, rest: Seq<u8>)
    ensures
        parse_varint(varint(n) + rest) == Some((n, varint(n).len() as int)),
        varint(n).len() >= 1,
    decreases n,
{
    if n < 128 {
        assert((varint(n) + rest)[0] == n as u8);
    } else {
        let b = (128 + n % 128) as u8;
        let s = varint(n) + rest;
        assert(s =~= seq![b] + (varint(n / 128) + rest));
        assert(s.skip(1) =~= varint(n / 128) + rest);
        lemma_parse_varint_of_encoding(n / 128, rest);
        lemma_fundamental_div_mod(n as int, 128);
        assert(s[0] - 128 + 128 * (n / 128) == n);
    }
}

/// `128^k`, the number of values a `k`-byte varint can carry.
spec fn pow128(k: nat) -> nat
    decreases k,
{
    if k == 0 {
        1
    } else {
        128 * pow128((k - 1) as nat)
    }
}

/// A value below `128^k` encodes in at most `k` bytes.
proof fn lemma_varint_len(n: nat, k: nat)
    requires
        1 <= k,
        n < pow128(k),
    ensures
        varint(n).len() <= k,
    decreases n,
{
    if n >= 128 {
        if k == 1 {
            assert(pow128(0) == 1);
            assert(pow128(1) == 128);
        }
        assert(pow128(k) == 128 * pow128((k - 1) as nat));
        lemma_multiply_divide_lt(n as int, 128, pow128((k - 1) as nat) as int);
        lemma_varint_len(n / 128, (k - 1) as nat);
    }
}

/// Varint lengths of the field widths in a payload: at most 10 bytes for
/// a `u64`, 5 for a `u32`, 3 for a `u16`.
proof fn lemma_varint_len_fields(n: nat)
    ensures
        n <= u64::MAX ==> varint(n).len() <= 10,
        n <= u32::MAX ==> varint(n).len() <= 5,
        n <= u16::MAX ==> varint(n).len() <= 3,
{
    assert(pow128(0) == 1);
    assert(pow128(1) == 0x80);
    assert(pow128(2) == 0x4000);
    assert(pow128(3) == 0x200000);
    assert(pow128(4) == 0x10000000);
    assert(pow128(5) == 0x800000000);
    assert(pow128(6) == 0x40000000000);
    assert(pow128(7) == 0x2000000000000);
    assert(pow128(8) == 0x100000000000000);
    assert(pow128(9) == 0x8000000000000000);
    assert(pow128(10) == 0x400000000000000000);
    if n <= u64::MAX {
        lemma_varint_len(n, 10);
    }
    if n <= u32::MAX {
        lemma_varint_len(n, 5);
    }
    if n <= u16::MAX {
        lemma_varint_len(n, 3);
    }
}

/// Append the varint encoding of `n` to `out`.
fn write_varint(n: u64, out: &mut Vec<u8>)
    ensures
        final(out)@ == old(out)@ + varint(n as nat),
    decreases n,
{
    if n < 128 {
        out.push(n as u8);
        proof {
            assert(out@ =~= old(out)@ + varint(n as nat));
        }
    } else {
        let b: u8 = 128 + (n % 128) as u8;
        out.push(b);
        write_varint(n / 128, out);
        proof {
            assert(out@ =~= old(out)@ + varint(n as nat));
        }
    }
}

/// Read one varint from `bytes` starting at `pos`: the value and the
/// position just past it. `None` when the varint is malformed: its
/// continuation bits run past the end of `bytes`, or its value does not
/// fit in a `u64`.
fn read_varint(bytes: &Vec<u8>, pos: usize) -> (r: Option<(u64, usize)>)
    requires
        pos <= bytes.len(),
    ensures
        match (r, parse_varint(bytes@.skip(pos as int))) {
            (Some(pair), Some(q)) => q.0 <= u64::MAX && pair.0 as nat == q.0 && pos + q.1
                == pair.1 && pos < pair.1 <= bytes.len(),
            (None, Some(q)) => q.0 > u64::MAX,
            (None, None) => true,
            (Some(_), None) => false,
        },
    decreases bytes.len() - pos,
{
    let ghost s = bytes@.skip(pos as int);
    if pos == bytes.len() {
        return None;
    }
    let b = bytes[pos];
    assert(s[0] == b);
    if b < 128 {
        Some((b as u64, pos + 1))
    } else {
        assert(s.skip(1) =~= bytes@.skip(pos + 1));
        match read_varint(bytes, pos + 1) {
            None => None,
            Some((v, newpos)) => {
                let wide: u128 = (b - 128) as u128 + 128u128 * (v as u128);
                if wide > u64::MAX as u128 {
                    None
                } else {
                    Some((wide as u64, newpos))
                }
            },
        }
    }
}

/// Sign-fold `v` to an unsigned value: non-negative values map to the
/// even numbers, negative values to the odd ones, small magnitudes first.
pub open spec fn zigzag(v: int) -> nat {
    if v >= 0 {
        (2 * v) as nat
    } else {
        (-2 * v - 1) as nat
    }
}

/// Undo `zigzag`.
pub open spec fn unzigzag(u: nat) -> int {
    if u % 2 == 0 {
        (u / 2) as int
    } else {
        -(((u + 1) / 2) as int)
    }
}

/// Sign-folding round-trips, and an `i32` always folds into a `u32`.
proof fn lemma_zigzag_roundtrip(v: int)
    ensures
        unzigzag(zigzag(v)) == v,
        i32::MIN <= v <= i32::MAX ==> zigzag(v) <= u32::MAX,
{
}

/// Sign-fold an `i32` into a `u32`.
fn zigzag_encode(v: i32) -> (r: u32)
    ensures
        r as nat == zigzag(v as int),
{
    if v >= 0 {
        (v as u32) * 2
    } else {
        let m: u64 = (-(v as i64)) as u64;
        let w: u64 = 2 * m - 1;
        assert(w <= u32::MAX);
        w as u32
    }
}

/// Undo `zigzag_encode`.
fn zigzag_decode(u: u32) -> (r: i32)
    ensures
        r as int == unzigzag(u as nat),
{
    if u % 2 == 0 {
        (u / 2) as i32
    } else {
        let h: u64 = (u as u64 + 1) / 2;
        assert(1 <= h <= 0x8000_0000);
        (-(h as i64)) as i32
    }
}

/// Does `s` contain the delimiter byte?
pub open spec fn has_zero(s: Seq<u8>) -> bool {
    exists|j: int| 0 <= j < s.len() && s[j] == 0
}

/// Index of the first `0x00` in `s`, or `s.len()` if there is none.
pub open spec fn first_zero(s: Seq<u8>) -> int
    decreases s.len(),
{
    if s.len() == 0 {
        0
    } else if s[0] == 0 {
        0
    } else {
        1 + first_zero(s.skip(1))
    }
}

/// `first_zero` finds the first delimiter: nothing before it is zero,
/// and it points at a zero unless there is none.
proof fn lemma_first_zero(s: Seq<u8>)
    ensures
        0 <= first_zero(s) <= s.len(),
        forall|j: int| 0 <= j < first_zero(s) ==> s[j] != 0,
        first_zero(s) < s.len() ==> s[first_zero(s)] == 0,
        has_zero(s) <==> first_zero(s) < s.len(),
    decreases s.len(),
{
    if s.len() == 0 {
    } else if s[0] == 0 {
    } else {
        let t = s.skip(1);
        lemma_first_zero(t);
        let i = first_zero(s);
        assert forall|j: int| 0 <= j < i implies s[j] != 0 by {
            if j > 0 {
                assert(t[j - 1] == s[j]);
            }
        }
        if i < s.len() {
            assert(t[i - 1] == s[i]);
        }
        if has_zero(s) {
            let j = choose|j: int| 0 <= j < s.len() && s[j] == 0;
            assert(t[j - 1] == s[j]);
            assert(has_zero(t));
        }
        if has_zero(t) {
            let j = choose|j: int| 0 <= j < t.len() && t[j] == 0;
            assert(s[j + 1] == t[j]);
        }
    }
}

/// A scan that stopped at `k` found the first delimiter.
proof fn lemma_first_zero_is(s: Seq<u8>, k: int)
    requires
        0 <= k <= s.len(),
        forall|j: int| 0 <= j < k ==> s[j] != 0,
        k < s.len() ==> s[k] == 0,
    ensures
        first_zero(s) == k,
{
    lemma_first_zero(s);
    if first_zero(s) < k {
        assert(s[first_zero(s)] != 0);
    }
    if first_zero(s) > k {
        assert(s[k] != 0);
    }
}

#[via_fn]
proof fn stuff_decreases(p: Seq<u8>) {
    lemma_first_zero(p);
}

/// Byte-destuff `p` so that it contains no `0x00`: each run of non-zero
/// bytes up to the next delimiter becomes a one-byte length code (the
/// run length plus one) followed by the run itself, and the delimiter
/// that ended the run is dropped. Meaningful for payloads of at most 254
/// bytes, where every length code fits in one byte.
pub open spec fn stuff(p: Seq<u8>) -> Seq<u8>
    decreases p.len(),
    via stuff_decreases
{
    let i = first_zero(p);
    if i < p.len() {
        seq![(i + 1) as u8] + p.take(i) + stuff(p.skip(i + 1))
    } else {
        seq![(p.len() + 1) as u8] + p
    }
}

/// Undo `stuff`: read a length code, copy the run that follows, and put
/// a delimiter back after every run whose code is below 255 and is not
/// the last. `None` when a code is zero or runs past the end of `s`.
pub open spec fn unstuff(s: Seq<u8>) -> Option<Seq<u8>>
    decreases s.len(),
{
    if s.len() == 0 {
        None
    } else if s[0] == 0 {
        None
    } else if s.len() < s[0] as int {
        None
    } else {
        let c = s[0] as int;
        let data = s.subrange(1, c);
        let rest = s.skip(c);
        if rest.len() == 0 {
            Some(data)
        } else {
            match unstuff(rest) {
                None => None,
                Some(q) => if s[0] == 255 {
                    Some(data + q)
                } else {
                    Some(data + seq![0u8] + q)
                },
            }
        }
    }
}

/// Destuffing round-trips, and the stuffed bytes are non-empty and free
/// of the delimiter.
pub proof fn lemma_unstuff_stuff(p: Seq<u8>)
    requires
        p.len() <= 254,
    ensures
        unstuff(stuff(p)) == Some(p),
        stuff(p).len() >= 1,
        forall|j: int| 0 <= j < stuff(p).len() ==> stuff(p)[j] != 0,
    decreases p.len(),
{
    lemma_first_zero(p);
    let i = first_zero(p);
    let s = stuff(p);
    if i < p.len() {
        let code = (i + 1) as u8;
        let tail = stuff(p.skip(i + 1));
        lemma_unstuff_stuff(p.skip(i + 1));
        assert(s =~= seq![code] + p.take(i) + tail);
        assert forall|j: int| 0 <= j < s.len() implies s[j] != 0 by {
            if 1 <= j <= i {
                assert(s[j] == p[j - 1]);
            } else if j > i {
                assert(s[j] == tail[j - i - 1]);
            }
        }
        assert(s.subrange(1, code as int) =~= p.take(i));
        assert(s.skip(code as int) =~= tail);
        assert(unstuff(s) == Some(p.take(i) + seq![0u8] + p.skip(i + 1)));
        assert(p.take(i) + seq![0u8] + p.skip(i + 1) =~= p);
    } else {
        let code = (p.len() + 1) as u8;
        assert(s =~= seq![code] + p);
        assert forall|j: int| 0 <= j < s.len() implies s[j] != 0 by {
            if j > 0 {
                assert(s[j] == p[j - 1]);
            }
        }
        assert(s.skip(code as int).len() == 0);
        assert(s.subrange(1, code as int) =~= p);
    }
}

/// Scan `bytes` for the first delimiter at or after `from`.
fn find_zero(bytes: &Vec<u8>, from: usize) -> (r: Option<usize>)
    requires
        from <= bytes.len(),
    ensures
        match r {
            Some(i) => from <= i < bytes.len() && first_zero(bytes@.skip(from as int)) == i - from,
            None => first_zero(bytes@.skip(from as int)) == bytes.len() - from,
        },
{
    let ghost s = bytes@.skip(from as int);
    let mut j = from;
    while j < bytes.len()
        invariant
            from <= j <= bytes.len(),
            s == bytes@.skip(from as int),
            forall|k: int| from <= k < j ==> bytes@[k] != 0,
        decreases bytes.len() - j,
    {
        if bytes[j] == 0 {
            proof {
                assert forall|k: int| 0 <= k < j - from implies s[k] != 0 by {
                    assert(s[k] == bytes@[k + from]);
                }
                assert(s[j - from] == bytes@[j as int]);
                lemma_first_zero_is(s, j - from);
            }
            return Some(j);
        }
        j = j + 1;
    }
    proof {
        assert forall|k: int| 0 <= k < s.len() implies s[k] != 0 by {
            assert(s[k] == bytes@[k + from]);
        }
        lemma_first_zero_is(s, s.len() as int);
    }
    None
}

/// Byte-destuff `p` from position `from` on, as `stuff` describes.
fn stuff_tail(p: &Vec<u8>, from: usize) -> (out: Vec<u8>)
    requires
        from <= p.len(),
        p.len() - from <= 254,
    ensures
        out@ == stuff(p@.skip(from as int)),
    decreases p.len() - from,
{
    let ghost s = p@.skip(from as int);
    proof {
        lemma_first_zero(s);
    }
    let mut out: Vec<u8> = Vec::new();
    match find_zero(p, from) {
        Some(i) => {
            out.push((i - from + 1) as u8);
            let mut j = from;
            while j < i
                invariant
                    from <= j <= i < p.len(),
                    out@ == seq![(i - from + 1) as u8] + p@.subrange(from as int, j as int),
                decreases i - j,
            {
                let b = p[j];
                out.push(b);
                proof {
                    assert(out@ =~= seq![(i - from + 1) as u8] + p@.subrange(
                        from as int,
                        j + 1,
                    ));
                }
                j = j + 1;
            }
            let mut rest = stuff_tail(p, i + 1);
            out.append(&mut rest);
            proof {
                assert(s.take(i - from) =~= p@.subrange(from as int, i as int));
                assert(s.skip(i - from + 1) =~= p@.skip(i + 1));
                assert(out@ =~= stuff(s));
            }
        },
        None => {
            out.push((p.len() - from + 1) as u8);
            let mut j = from;
            while j < p.len()
                invariant
                    from <= j <= p.len(),
                    p.len() - from <= 254,
                    out@ == seq![(p.len() - from + 1) as u8] + p@.subrange(from as int, j as int),
                decreases p.len() - j,
            {
                let b = p[j];
                out.push(b);
                proof {
                    assert(out@ =~= seq![(p.len() - from + 1) as u8] + p@.subrange(
                        from as int,
                        j + 1,
                    ));
                }
                j = j + 1;
            }
            proof {
                assert(p@.subrange(from as int, p.len() as int) =~= s);
                assert(out@ =~= stuff(s));
            }
        },
    }
    out
}

/// Undo the byte-destuffing of `s` from position `from` on, as
/// `unstuff` describes.
fn unstuff_tail(s: &Vec<u8>, from: usize) -> (r: Option<Vec<u8>>)
    requires
        from <= s.len(),
    ensures
        ({
            let q = unstuff(s@.skip(from as int));
            match r {
                Some(v) => q == Some(v@),
                None => q is None,
            }
        }),
    decreases s.len() - from,
{
    let ghost sub = s@.skip(from as int);
    if from == s.len() {
        return None;
    }
    let c = s[from];
    assert(sub[0] == c);
    if c == 0 {
        return None;
    }
    let run: usize = c as usize;
    if s.len() - from < run {
        return None;
    }
    let mut data: Vec<u8> = Vec::new();
    let mut j = from + 1;
    while j < from + run
        invariant
            from + 1 <= j <= from + run <= s.len(),
            data@ == s@.subrange(from + 1, j as int),
        decreases from + run - j,
    {
        let b = s[j];
        data.push(b);
        proof {
            assert(data@ =~= s@.subrange(from + 1, j + 1));
        }
        j = j + 1;
    }
    proof {
        assert(sub.subrange(1, run as int) =~= s@.subrange(from + 1, from + run));
    }
    let restpos = from + run;
    if restpos == s.len() {
        proof {
            assert(sub.skip(run as int).len() == 0);
        }
        Some(data)
    } else {
        proof {
            assert(sub.skip(run as int) =~= s@.skip(restpos as int));
        }
        match unstuff_tail(s, restpos) {
            None => None,
            Some(mut q) => {
                let ghost q0 = q@;
                if c < 255 {
                    data.push(0);
                }
                data.append(&mut q);
                proof {
                    if c < 255 {
                        assert(data@ =~= sub.subrange(1, run as int) + seq![0u8] + q0);
                    } else {
                        assert(data@ =~= sub.subrange(1, run as int) + q0);
                    }
                }
                Some(data)
            },
        }
    }
}

/// The payload encoding of a record: five varints in declaration order,
/// the signed value sign-folded first.
pub open spec fn encode_record(r: InputEventWrapper) -> Seq<u8> {
    varint(r.timestamp.secs as nat) + varint(r.timestamp.nanos as nat) + varint(
        r.event_type as nat,
    ) + varint(r.code as nat) + varint(zigzag(r.value as int))
}

/// An encoded payload is short: at most 26 bytes.
pub proof fn lemma_encode_record_len(r: InputEventWrapper)
    ensures
        encode_record(r).len() <= 26,
{
    lemma_varint_len_fields(r.timestamp.secs as nat);
    lemma_varint_len_fields(r.timestamp.nanos as nat);
    lemma_varint_len_fields(r.event_type as nat);
    lemma_varint_len_fields(r.code as nat);
    lemma_varint_len_fields(zigzag(r.value as int));
}

/// Parse one unsigned field from the front of `s`: its value, which
/// must fit in 64 bits and be at most `max`, and the bytes that follow
/// it.
pub open spec fn parse_field(s: Seq<u8>, max: nat) -> Result<(nat, Seq<u8>), DecodeError> {
    match parse_varint(s) {
        None => Err(DecodeError::BadVarint),
        Some((v, k)) => if v > u64::MAX {
            Err(DecodeError::BadVarint)
        } else if v > max {
            Err(DecodeError::FieldOverflow)
        } else {
            Ok((v, s.skip(k)))
        },
    }
}

/// The record a destuffed payload decodes to, or why it does not: the
/// five fields are parsed in order, each must fit its width, and no
/// bytes may be left over.
pub open spec fn decoded_payload(p: Seq<u8>) -> Result<InputEventWrapper, DecodeError> {
    match parse_field(p, u64::MAX as nat) {
        Err(e) => Err(e),
        Ok((secs, p1)) => match parse_field(p1, u32::MAX as nat) {
            Err(e) => Err(e),
            Ok((nanos, p2)) => match parse_field(p2, u16::MAX as nat) {
                Err(e) => Err(e),
                Ok((et, p3)) => match parse_field(p3, u16::MAX as nat) {
                    Err(e) => Err(e),
                    Ok((code, p4)) => match parse_field(p4, u32::MAX as nat) {
                        Err(e) => Err(e),
                        Ok((zz, p5)) => if p5.len() > 0 {
                            Err(DecodeError::TrailingBytes)
                        } else {
                            Ok(
                                (InputEventWrapper {
                                    timestamp: (Timestamp {
                                        secs: secs as u64,
                                        nanos: nanos as u32,
                                    }),
                                    event_type: et as u16,
                                    code: code as u16,
                                    value: unzigzag(zz) as i32,
                                }),
                            )
                        },
                    },
                },
            },
        },
    }
}

/// A field parse inverts a varint encoding of a value in range.
proof fn lemma_parse_field_of_encoding(n: nat, max: nat, rest: Seq<u8>)
    requires
        n <= max,
        max <= u64::MAX,
    ensures
        parse_field(varint(n) + rest, max) == Ok::<(nat, Seq<u8>), DecodeError>((n, rest)),
{
    lemma_parse_varint_of_encoding(n, rest);
    assert((varint(n) + rest).skip(varint(n).len() as int) =~= rest);
}

/// One frame of the wire stream: the destuffed payload followed by the
/// delimiter.
pub open spec fn frame(p: Seq<u8>) -> Seq<u8> {
    stuff(p) + seq![0u8]
}

/// The record one frame (delimiter included) decodes to, or why it does
/// not.
pub open spec fn decoded_frame(f: Seq<u8>) -> Result<InputEventWrapper, DecodeError> {
    if f.len() == 0 || f[f.len() - 1] != 0 {
        Err(DecodeError::MissingDelimiter)
    } else if f.len() == 1 {
        Err(DecodeError::EmptyFrame)
    } else {
        match unstuff(f.take(f.len() - 1)) {
            None => Err(DecodeError::Stuffing),
            Some(p) => decoded_payload(p),
        }
    }
}

/// Decoding inverts encoding on the payload level.
pub proof fn lemma_payload_round_trip(r: InputEventWrapper)
    ensures
        decoded_payload(encode_record(r)) == Ok::<InputEventWrapper, DecodeError>(r),
{
    let v1 = varint(r.timestamp.secs as nat);
    let v2 = varint(r.timestamp.nanos as nat);
    let v3 = varint(r.event_type as nat);
    let v4 = varint(r.code as nat);
    let v5 = varint(zigzag(r.value as int));
    let p = encode_record(r);

    let r2 = v2 + v3 + v4 + v5;
    let r3 = v3 + v4 + v5;
    let r4 = v4 + v5;
    let r5 = v5;
    assert(p =~= v1 + r2);
    assert(r2 =~= v2 + r3);
    assert(r3 =~= v3 + r4);
    assert(r4 =~= v4 + r5);
    assert(r5 =~= v5 + Seq::<u8>::empty());

    lemma_parse_field_of_encoding(r.timestamp.secs as nat, u64::MAX as nat, r2);
    lemma_parse_field_of_encoding(r.timestamp.nanos as nat, u32::MAX as nat, r3);
    lemma_parse_field_of_encoding(r.event_type as nat, u16::MAX as nat, r4);
    lemma_parse_field_of_encoding(r.code as nat, u16::MAX as nat, r5);
    lemma_zigzag_roundtrip(r.value as int);
    lemma_parse_field_of_encoding(zigzag(r.value as int), u32::MAX as nat, Seq::<u8>::empty());
}

/// Framing an encoded record and decoding the frame gives the record
/// back; and such a frame carries the delimiter exactly once, at its
/// end.
pub proof fn lemma_frame_round_trip(r: InputEventWrapper)
    ensures
        decoded_frame(frame(encode_record(r))) == Ok::<InputEventWrapper, DecodeError>(r),
        frame(encode_record(r)).len() >= 2,
        frame(encode_record(r))[frame(encode_record(r)).len() - 1] == 0,
        forall|j: int|
            0 <= j < frame(encode_record(r)).len() - 1 ==> frame(encode_record(r))[j] != 0,
{
    let p = encode_record(r);
    lemma_encode_record_len(r);
    lemma_unstuff_stuff(p);
    let f = frame(p);
    assert(f[f.len() - 1] == 0);
    assert(f.take(f.len() - 1) =~= stuff(p));
    lemma_payload_round_trip(r);
}

/// Append the varint payload encoding of `record` to a fresh buffer.
pub fn encode(record: &InputEventWrapper) -> (r: Vec<u8>)
    ensures
        r@ == encode_record(*record),
        r@.len() <= 26,
{
    let mut out: Vec<u8> = Vec::new();
    write_varint(record.timestamp.secs, &mut out);
    write_varint(record.timestamp.nanos as u64, &mut out);
    write_varint(record.event_type as u64, &mut out);
    write_varint(record.code as u64, &mut out);
    let zz = zigzag_encode(record.value);
    write_varint(zz as u64, &mut out);
    proof {
        assert(out@ =~= encode_record(*record));
        lemma_encode_record_len(*record);
    }
    out
}

/// Destuff `payload` and append the delimiter: one frame, ready for the
/// wire.
pub fn frame_of(payload: &Vec<u8>) -> (r: Vec<u8>)
    requires
        payload.len() <= 254,
    ensures
        r@ == frame(payload@),
{
    proof {
        assert(payload@.skip(0) =~= payload@);
    }
    let mut out = stuff_tail(payload, 0);
    out.push(0);
    proof {
        assert(out@ =~= frame(payload@));
    }
    out
}

/// Read one field from `bytes` at `pos`, as `parse_field` describes:
/// the value and the position just past it.
fn read_field(bytes: &Vec<u8>, pos: usize, max: u64) -> (r: Result<(u64, usize), DecodeError>)
    requires
        pos <= bytes.len(),
    ensures
        match (r, parse_field(bytes@.skip(pos as int), max as nat)) {
            (Ok(pair), Ok(q)) => pair.0 as nat == q.0 && pair.1 <= bytes.len() && q.1
                == bytes@.skip(pair.1 as int),
            (Err(e1), Err(e2)) => e1 == e2,
            _ => false,
        },
{
    match read_varint(bytes, pos) {
        None => Err(DecodeError::BadVarint),
        Some((v, newpos)) => {
            proof {
                let s = bytes@.skip(pos as int);
                let k = parse_varint(s)->Some_0.1;
                assert(s.skip(k) =~= bytes@.skip(newpos as int));
            }
            if v > max {
                Err(DecodeError::FieldOverflow)
            } else {
                Ok((v, newpos))
            }
        },
    }
}

/// Decode one destuffed payload into a record, as `decoded_payload`
/// describes.
fn read_record(p: &Vec<u8>) -> (r: Result<InputEventWrapper, DecodeError>)
    ensures
        r == decoded_payload(p@),
{
    proof {
        assert(p@.skip(0) =~= p@);
    }
    let (secs, pos1) = match read_field(p, 0, u64::MAX) {
        Err(e) => {
            return Err(e);
        },
        Ok(x) => x,
    };
    let (nanos, pos2) = match read_field(p, pos1, u32::MAX as u64) {
        Err(e) => {
            return Err(e);
        },
        Ok(x) => x,
    };
    let (et, pos3) = match read_field(p, pos2, u16::MAX as u64) {
        Err(e) => {
            return Err(e);
        },
        Ok(x) => x,
    };
    let (code, pos4) = match read_field(p, pos3, u16::MAX as u64) {
        Err(e) => {
            return Err(e);
        },
        Ok(x) => x,
    };
    let (zz, pos5) = match read_field(p, pos4, u32::MAX as u64) {
        Err(e) => {
            return Err(e);
        },
        Ok(x) => x,
    };
    if pos5 != p.len() {
        return Err(DecodeError::TrailingBytes);
    }
    let value = zigzag_decode(zz as u32);
    Ok(
        InputEventWrapper {
            timestamp: Timestamp { secs, nanos: nanos as u32 },
            event_type: et as u16,
            code: code as u16,
            value,
        },
    )
}

/// Decode one frame (delimiter included) into a record, as
/// `decoded_frame` describes.
pub fn decode(frame_bytes: &Vec<u8>) -> (r: Result<InputEventWrapper, DecodeError>)
    ensures
        r == decoded_frame(frame_bytes@),
{
    let n = frame_bytes.len();
    if n == 0 {
        return Err(DecodeError::MissingDelimiter);
    }
    if frame_bytes[n - 1] != 0 {
        return Err(DecodeError::MissingDelimiter);
    }
    if n == 1 {
        return Err(DecodeError::EmptyFrame);
    }
    let mut body: Vec<u8> = Vec::new();
    let mut j: usize = 0;
    while j < n - 1
        invariant
            0 <= j <= n - 1,
            n == frame_bytes.len(),
            body@ == frame_bytes@.subrange(0, j as int),
        decreases n - 1 - j,
    {
        let b = frame_bytes[j];
        body.push(b);
        proof {
            assert(body@ =~= frame_bytes@.subrange(0, j + 1));
        }
        j = j + 1;
    }
    proof {
        assert(body@ =~= frame_bytes@.take(n - 1));
        assert(body@.skip(0) =~= body@);
    }
    match unstuff_tail(&body, 0) {
        None => Err(DecodeError::Stuffing),
        Some(payload) => read_record(&payload),
    }
}

#[via_fn]
proof fn stream_records_decreases(s: Seq<u8>) {
    lemma_first_zero(s);
}

/// The records a raw byte stream yields: split it at each delimiter,
/// decode each frame (delimiter included), keep the records of the
/// frames that decode and drop the frames that do not. A trailing
/// remnant with no delimiter yields nothing.
pub open spec fn stream_records(s: Seq<u8>) -> Seq<InputEventWrapper>
    decreases s.len(),
    via stream_records_decreases
{
    let i = first_zero(s);
    if i < s.len() {
        let rest = stream_records(s.skip(i + 1));
        match decoded_frame(s.take(i + 1)) {
            Ok(r) => seq![r] + rest,
            Err(_) => rest,
        }
    } else {
        seq![]
    }
}

/// Decode every complete frame of `bytes` from position `from` on.
fn decode_stream_tail(bytes: &Vec<u8>, from: usize) -> (r: Vec<InputEventWrapper>)
    requires
        from <= bytes.len(),
    ensures
        r@ == stream_records(bytes@.skip(from as int)),
    decreases bytes.len() - from,
{
    let ghost s = bytes@.skip(from as int);
    match find_zero(bytes, from) {
        None => Vec::new(),
        Some(i) => {
            let mut fr: Vec<u8> = Vec::new();
            let mut j = from;
            while j < i + 1
                invariant
                    from <= j <= i + 1,
                    i < bytes.len(),
                    fr@ == bytes@.subrange(from as int, j as int),
                decreases i + 1 - j,
            {
                let b = bytes[j];
                fr.push(b);
                proof {
                    assert(fr@ =~= bytes@.subrange(from as int, j + 1));
                }
                j = j + 1;
            }
            let rec = decode(&fr);
            let mut rest = decode_stream_tail(bytes, i + 1);
            proof {
                assert(s.take(i - from + 1) =~= bytes@.subrange(from as int, i + 1));
                assert(s.skip(i - from + 1) =~= bytes@.skip(i + 1));
            }
            match rec {
                Ok(ev) => {
                    rest.insert(0, ev);
                    proof {
                        assert(rest@ =~= seq![ev] + stream_records(bytes@.skip(i + 1)));
                    }
                    rest
                },
                Err(_) => rest,
            }
        },
    }
}

/// Decode every complete frame of `bytes`, as `stream_records`
/// describes: one record per well-formed frame, in stream order,
/// malformed frames and a trailing undelimited remnant dropped.
pub fn decode_stream(bytes: &Vec<u8>) -> (r: Vec<InputEventWrapper>)
    ensures
        r@ == stream_records(bytes@),
{
    proof {
        assert(bytes@.skip(0) =~= bytes@);
    }
    decode_stream_tail(bytes, 0)
}

/// The wire image of a sequence of records: one frame each, in order.
pub open spec fn wire_of(rs: Seq<InputEventWrapper>) -> Seq<u8>
    decreases rs.len(),
{
    if rs.len() == 0 {
        seq![]
    } else {
        frame(encode_record(rs[0])) + wire_of(rs.skip(1))
    }
}

/// Concatenating any number of well-formed frames, followed by any
/// truncated (undelimited) remnant, decodes to exactly the framed
/// records, in order: none is lost, duplicated or reordered, and the
/// remnant yields nothing rather than an error.
pub proof fn lemma_stream_round_trip(rs: Seq<InputEventWrapper>, tail: Seq<u8>)
    requires
        !has_zero(tail),
    ensures
        stream_records(wire_of(rs) + tail) == rs,
    decreases rs.len(),
{
    lemma_first_zero(tail);
    if rs.len() == 0 {
        assert(wire_of(rs) + tail =~= tail);
    } else {
        let r0 = rs[0];
        let f = frame(encode_record(r0));
        lemma_frame_round_trip(r0);
        let s = wire_of(rs) + tail;
        let rest = wire_of(rs.skip(1)) + tail;
        assert(s =~= f + rest);
        assert forall|j: int| 0 <= j < f.len() - 1 implies s[j] != 0 by {
            assert(s[j] == f[j]);
        }
        assert(s[f.len() - 1] == f[f.len() - 1]);
        lemma_first_zero_is(s, f.len() - 1);
        assert(s.take(f.len() as int) =~= f);
        assert(s.skip(f.len() as int) =~= rest);
        lemma_stream_round_trip(rs.skip(1), tail);
        assert(seq![r0] + rs.skip(1) =~= rs);
    }
}

/// A corrupted frame in the middle of a stream costs only itself: the
/// two good frames around it still decode, in their original order.
pub proof fn lemma_corrupt_frame_skipped(
    r1: InputEventWrapper,
    bad: Seq<u8>,
    r3: InputEventWrapper,
)
    requires
        !has_zero(bad),
        decoded_frame(bad + seq![0u8]) is Err,
    ensures
        stream_records(
            frame(encode_record(r1)) + (bad + seq![0u8]) + frame(encode_record(r3)),
        ) == seq![r1, r3],
{
    let f1 = frame(encode_record(r1));
    let f3 = frame(encode_record(r3));
    let b = bad + seq![0u8];
    lemma_frame_round_trip(r1);
    lemma_frame_round_trip(r3);
    let s = f1 + b + f3;

    assert forall|j: int| 0 <= j < f1.len() - 1 implies s[j] != 0 by {
        assert(s[j] == f1[j]);
    }
    assert(s[f1.len() - 1] == f1[f1.len() - 1]);
    lemma_first_zero_is(s, f1.len() - 1);
    assert(s.take(f1.len() as int) =~= f1);
    let s2 = b + f3;
    assert(s.skip(f1.len() as int) =~= s2);

    assert forall|j: int| 0 <= j < bad.len() implies s2[j] != 0 by {
        assert(s2[j] == bad[j]);
    }
    assert(s2[bad.len() as int] == 0);
    lemma_first_zero_is(s2, bad.len() as int);
    assert(s2.take(bad.len() as int + 1) =~= b);
    assert(s2.skip(bad.len() as int + 1) =~= f3);

    lemma_stream_round_trip(seq![r3], Seq::<u8>::empty());
    assert(wire_of(seq![r3]) =~= f3 + Seq::<u8>::empty()) by {
        assert(seq![r3].skip(1) =~= Seq::<InputEventWrapper>::empty());
        assert(wire_of(seq![r3].skip(1)) == Seq::<u8>::empty());
    }
    assert(f3 =~= wire_of(seq![r3]) + Seq::<u8>::empty());
    assert(stream_records(f3) == seq![r3]);
    assert(stream_records(s2) == seq![r3]);
    assert(stream_records(s) == seq![r1] + stream_records(s2));
    assert(seq![r1] + seq![r3] =~= seq![r1, r3]);
    assert(stream_records(s) == seq![r1, r3]);
}

} // verus!
