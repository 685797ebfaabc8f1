use crate::types::{DataBuffer, Iou, COT};
use vstd::prelude::*;

verus! {

/// `mask` where `b` holds, zero where it does not.
pub open spec fn spec_flag(b: bool, mask: u8) -> u8 {
    if b {
        mask
    } else {
        0
    }
}

/// `mask` where `b` holds, zero where it does not.
pub(crate) fn flag(b: bool, mask: u8) -> (r: u8)
    ensures
        r == spec_flag(b, mask),
{
    if b {
        mask
    } else {
        0
    }
}

/// The object-count byte: the count in bits 0 to 6, the sequential flag in bit 7.
pub open spec fn spec_count_byte(n: nat, sequential: bool) -> u8 {
    (n as u8) | spec_flag(sequential, 0x80)
}

/// The cause byte: the cause's code in bits 0 to 5, the negative flag in bit 6, the test flag
/// in bit 7.
pub open spec fn spec_cot_byte(cot: COT, test: bool, negative: bool) -> u8 {
    cot.spec_code() | spec_flag(negative, 0x40) | spec_flag(test, 0x80)
}

proof fn lemma_flag_bits(low: u8, b6: bool, b7: bool)
    by (bit_vector)
    requires
        low < 64,
    ensures
        ((low | (if b6 { 0x40u8 } else { 0u8 }) | (if b7 { 0x80u8 } else { 0u8 })) & 0x3f) == low,
        ((low | (if b6 { 0x40u8 } else { 0u8 }) | (if b7 { 0x80u8 } else { 0u8 })) & 0x40 != 0)
            == b6,
        ((low | (if b6 { 0x40u8 } else { 0u8 }) | (if b7 { 0x80u8 } else { 0u8 })) & 0x80 != 0)
            == b7,
{
}

proof fn lemma_count_bits(n: u8, b7: bool)
    by (bit_vector)
    requires
        n < 128,
    ensures
        ((n | (if b7 { 0x80u8 } else { 0u8 })) & 0x7f) == n,
        ((n | (if b7 { 0x80u8 } else { 0u8 })) & 0x80 != 0) == b7,
{
}

/// The cause byte gives back the cause's code and both flags.
pub proof fn lemma_cot_byte(cot: COT, test: bool, negative: bool)
    ensures
        spec_cot_byte(cot, test, negative) & 0x3f == cot.spec_code(),
        (spec_cot_byte(cot, test, negative) & 0x40 != 0) == negative,
        (spec_cot_byte(cot, test, negative) & 0x80 != 0) == test,
{
    cot.lemma_code_round_trip();
    lemma_flag_bits(cot.spec_code(), negative, test);
}

/// The object-count byte gives back a count below 128 and the sequential flag.
pub proof fn lemma_count_byte(n: nat, sequential: bool)
    requires
        n < 128,
    ensures
        spec_count_byte(n, sequential) & 0x7f == n,
        (spec_count_byte(n, sequential) & 0x80 != 0) == sequential,
{
    lemma_count_bits(n as u8, sequential);
}

/// What the masks of the count, cause and control bytes leave is below their limits.
pub proof fn lemma_masked(b: u8)
    by (bit_vector)
    ensures
        b & 0x3f < 64,
        b & 0x7f < 128,
        b & 0x0f < 16,
{
}

/// The 8-bit wrapping sum of a byte sequence.
pub open spec fn spec_checksum(s: Seq<u8>) -> u8
    decreases s.len(),
{
    if s.len() == 0 {
        0
    } else {
        ((spec_checksum(s.drop_last()) + s.last()) % 256) as u8
    }
}

/// Sums the bytes of `buf`, wrapping at 256.
pub fn buf_checksum(buf: &[u8]) -> (r: u8)
    ensures
        r == spec_checksum(buf@),
{
    let mut acc: u8 = 0;
    let mut i: usize = 0;
    while i < buf.len()
        invariant
            i <= buf@.len(),
            acc == spec_checksum(buf@.take(i as int)),
        decreases buf@.len() - i,
    {
        proof {
            assert(buf@.take(i + 1).drop_last() =~= buf@.take(i as int));
        }
        acc = ((acc as u16 + buf[i] as u16) % 256) as u8;
        i += 1;
    }
    proof {
        assert(buf@.take(i as int) =~= buf@);
    }
    acc
}

/// Byte `i` of `v`, counted from the least significant one.
pub open spec fn spec_le_byte(v: u32, i: int) -> u8 {
    if i == 0 {
        (v & 0xff) as u8
    } else if i == 1 {
        ((v >> 8) & 0xff) as u8
    } else if i == 2 {
        ((v >> 16) & 0xff) as u8
    } else {
        ((v >> 24) & 0xff) as u8
    }
}

/// The first `n` bytes of `v` in little-endian order (`n` at most 4).
pub open spec fn spec_le_bytes(v: u32, n: nat) -> Seq<u8> {
    Seq::new(n, |i: int| spec_le_byte(v, i))
}

/// The number that four bytes spell in little-endian order.
pub open spec fn spec_le_join(b0: u8, b1: u8, b2: u8, b3: u8) -> u32 {
    (b0 as u32) | ((b1 as u32) << 8) | ((b2 as u32) << 16) | ((b3 as u32) << 24)
}

/// Byte `i` of `s`, or zero past its end.
pub open spec fn spec_byte_or_zero(s: Seq<u8>, i: int) -> u8 {
    if 0 <= i < s.len() {
        s[i]
    } else {
        0
    }
}

/// The number that up to four bytes spell in little-endian order, missing high bytes being zero.
pub open spec fn spec_le_value(s: Seq<u8>) -> u32 {
    spec_le_join(
        spec_byte_or_zero(s, 0),
        spec_byte_or_zero(s, 1),
        spec_byte_or_zero(s, 2),
        spec_byte_or_zero(s, 3),
    )
}

/// The largest number that `n` bytes can hold, plus one (`n` at most 4).
pub open spec fn spec_width_limit(n: nat) -> int {
    if n == 0 {
        1
    } else if n == 1 {
        0x100
    } else if n == 2 {
        0x1_0000
    } else if n == 3 {
        0x100_0000
    } else {
        0x1_0000_0000
    }
}

proof fn lemma_le_bits(v: u32)
    by (bit_vector)
    ensures
        v < 0x100 ==> (((v & 0xff) as u8) as u32) | ((0u8 as u32) << 8) | ((0u8 as u32) << 16) | ((
        0u8 as u32) << 24) == v,
        v < 0x1_0000 ==> (((v & 0xff) as u8) as u32) | (((((v >> 8) & 0xff) as u8) as u32) << 8) | (
        (0u8 as u32) << 16) | ((0u8 as u32) << 24) == v,
        v < 0x100_0000 ==> (((v & 0xff) as u8) as u32) | (((((v >> 8) & 0xff) as u8) as u32) << 8)
            | (((((v >> 16) & 0xff) as u8) as u32) << 16) | ((0u8 as u32) << 24) == v,
        (((v & 0xff) as u8) as u32) | (((((v >> 8) & 0xff) as u8) as u32) << 8) | (((((v >> 16)
            & 0xff) as u8) as u32) << 16) | (((((v >> 24) & 0xff) as u8) as u32) << 24) == v,
        v == 0 ==> ((0u8 as u32) | ((0u8 as u32) << 8) | ((0u8 as u32) << 16) | ((0u8 as u32)
            << 24)) == v,
{
}

proof fn lemma_le_join_bound(b0: u8, b1: u8, b2: u8)
    by (bit_vector)
    ensures
        ((b0 as u32) | ((b1 as u32) << 8) | ((b2 as u32) << 16) | ((0u8 as u32) << 24))
            < 0x100_0000,
        ((b0 as u32) | ((b1 as u32) << 8) | ((0u8 as u32) << 16) | ((0u8 as u32) << 24))
            < 0x1_0000,
        ((b0 as u32) | ((0u8 as u32) << 8) | ((0u8 as u32) << 16) | ((0u8 as u32) << 24)) < 0x100,
{
}

/// A number that fits in `n` bytes is read back from its `n` little-endian bytes.
pub proof fn lemma_le_round_trip(v: u32, n: nat)
    requires
        n <= 4,
        v < spec_width_limit(n),
    ensures
        spec_le_value(spec_le_bytes(v, n)) == v,
        spec_le_bytes(v, n).len() == n,
{
    lemma_le_bits(v);
}

/// A number read from at most three bytes is below the limit of that width.
pub proof fn lemma_le_value_bound(s: Seq<u8>)
    requires
        s.len() <= 3,
    ensures
        spec_le_value(s) < spec_width_limit(s.len()),
{
    lemma_le_join_bound(spec_byte_or_zero(s, 0), spec_byte_or_zero(s, 1), spec_byte_or_zero(s, 2));
    if s.len() == 0 {
        assert(spec_le_join(0, 0, 0, 0) == 0) by (bit_vector);
    }
}

/// Appends the first `n` little-endian bytes of `v` to `buf`.
pub(crate) fn push_le(buf: &mut Vec<u8>, v: u32, n: u8)
    requires
        n <= 4,
    ensures
        final(buf)@ == old(buf)@ + spec_le_bytes(v, n as nat),
{
    if n >= 1 {
        buf.push((v & 0xff) as u8);
    }
    if n >= 2 {
        buf.push(((v >> 8) & 0xff) as u8);
    }
    if n >= 3 {
        buf.push(((v >> 16) & 0xff) as u8);
    }
    if n >= 4 {
        buf.push(((v >> 24) & 0xff) as u8);
    }
    proof {
        assert(buf@ =~= old(buf)@ + spec_le_bytes(v, n as nat));
    }
}

/// Reads the `n` bytes at `pos` as a little-endian number.
pub(crate) fn read_le(bytes: &[u8], pos: usize, n: u8) -> (r: u32)
    requires
        n <= 4,
        pos + n <= bytes@.len(),
    ensures
        r == spec_le_value(bytes@.subrange(pos as int, pos + n)),
{
    let b0: u8 = if n >= 1 { bytes[pos] } else { 0 };
    let b1: u8 = if n >= 2 { bytes[pos + 1] } else { 0 };
    let b2: u8 = if n >= 3 { bytes[pos + 2] } else { 0 };
    let b3: u8 = if n >= 4 { bytes[pos + 3] } else { 0 };
    (b0 as u32) | ((b1 as u32) << 8) | ((b2 as u32) << 16) | ((b3 as u32) << 24)
}

/// Byte `i` of a value buffer made from `s`: the byte of `s` there, or zero past its end.
pub open spec fn spec_buffer(s: Seq<u8>) -> DataBuffer {
    [
        spec_byte_or_zero(s, 0),
        spec_byte_or_zero(s, 1),
        spec_byte_or_zero(s, 2),
        spec_byte_or_zero(s, 3),
        spec_byte_or_zero(s, 4),
        spec_byte_or_zero(s, 5),
        spec_byte_or_zero(s, 6),
        spec_byte_or_zero(s, 7),
        spec_byte_or_zero(s, 8),
        spec_byte_or_zero(s, 9),
        spec_byte_or_zero(s, 10),
        spec_byte_or_zero(s, 11),
    ]
}

/// The bytes of one information object: its address where the address is explicit, then the
/// first `size` bytes of its value.
pub open spec fn spec_object(o: Iou, explicit: bool, alen: nat, size: nat) -> Seq<u8> {
    (if explicit {
        spec_le_bytes(o.address, alen)
    } else {
        Seq::<u8>::empty()
    }) + o.value@.subrange(0, size as int)
}

/// The bytes of an object list. In a sequential list only the first object carries its address.
pub open spec fn spec_objects(iou: Seq<Iou>, sequential: bool, alen: nat, size: nat) -> Seq<u8>
    decreases iou.len(),
{
    if iou.len() == 0 {
        Seq::<u8>::empty()
    } else {
        spec_objects(iou.drop_last(), sequential, alen, size) + spec_object(
            iou.last(),
            iou.len() == 1 || !sequential,
            alen,
            size,
        )
    }
}

/// The number of bytes that a list of `n` objects takes.
pub open spec fn spec_objects_len(n: nat, sequential: bool, alen: nat, size: nat) -> nat {
    if sequential {
        if n == 0 {
            0
        } else {
            alen + n * size
        }
    } else {
        n * (alen + size)
    }
}

/// Where the value of object `i` starts in the bytes of an object list.
pub open spec fn spec_value_offset(i: nat, sequential: bool, alen: nat, size: nat) -> nat {
    if sequential {
        alen + i * size
    } else {
        i * (alen + size) + alen
    }
}

/// Object `i` of the object list that starts `p`. In a sequential list its address is the first
/// object's address plus `i`.
pub open spec fn spec_parse_object(p: Seq<u8>, i: nat, sequential: bool, alen: nat, size: nat)
    -> Iou {
    let voff = spec_value_offset(i, sequential, alen, size);
    Iou {
        address: if sequential {
            (spec_le_value(p.subrange(0, alen as int)) + i) as u32
        } else {
            spec_le_value(p.subrange(voff - alen, voff as int))
        },
        value: spec_buffer(p.subrange(voff as int, (voff + size) as int)),
    }
}

/// The list of `n` objects that starts `p`, or `None` where `p` is too short to hold it.
pub open spec fn spec_parse_objects(p: Seq<u8>, n: nat, sequential: bool, alen: nat, size: nat)
    -> Option<Seq<Iou>> {
    if p.len() < spec_objects_len(n, sequential, alen, size) {
        None
    } else {
        Some(Seq::new(n, |i: int| spec_parse_object(p, i as nat, sequential, alen, size)))
    }
}

/// Whether an object list is read back exactly as it was written: every address that is written
/// fits in `alen` bytes, the addresses of a sequential list count up from the first, and every
/// value is zero past its first `size` bytes.
pub open spec fn spec_objects_canonical(iou: Seq<Iou>, sequential: bool, alen: nat, size: nat)
    -> bool {
    &&& forall|i: int|
        0 <= i < iou.len() && (i == 0 || !sequential) ==> (#[trigger] iou[i]).address
            < spec_width_limit(alen)
    &&& sequential ==> forall|i: int|
        0 <= i < iou.len() ==> (#[trigger] iou[i]).address == iou[0].address + i
    &&& forall|i: int, k: int|
        0 <= i < iou.len() && size <= k < 12 ==> (#[trigger] iou[i].value@[k]) == 0
}

/// Whether the bytes `e` hold object `i` of `iou` at its place.
pub open spec fn spec_object_at(
    e: Seq<u8>,
    iou: Seq<Iou>,
    i: int,
    sequential: bool,
    alen: nat,
    size: nat,
) -> bool {
    let voff = spec_value_offset(i as nat, sequential, alen, size) as int;
    &&& voff + size <= e.len()
    &&& e.subrange(voff, voff + size) == iou[i].value@.subrange(0, size as int)
    &&& (i == 0 || !sequential) ==> e.subrange(voff - alen, voff) == spec_le_bytes(
        iou[i].address,
        alen,
    )
}

proof fn lemma_objects_layout(iou: Seq<Iou>, sequential: bool, alen: nat, size: nat, k: nat)
    requires
        k <= iou.len(),
        size <= 12,
    ensures
        spec_objects(iou.take(k as int), sequential, alen, size).len() == spec_objects_len(
            k,
            sequential,
            alen,
            size,
        ),
        forall|i: int|
            0 <= i < k ==> #[trigger] spec_object_at(
                spec_objects(iou.take(k as int), sequential, alen, size),
                iou,
                i,
                sequential,
                alen,
                size,
            ),
    decreases k,
{
    if k > 0 {
        let cur = iou.take(k as int);
        let e1 = spec_objects(cur, sequential, alen, size);
        let e0 = spec_objects(iou.take(k - 1), sequential, alen, size);
        let explicit = k == 1 || !sequential;
        let obj = spec_object(iou[k - 1], explicit, alen, size);
        assert(cur.drop_last() =~= iou.take(k - 1));
        assert(cur.last() == iou[k - 1]);
        assert(e1 == e0 + obj);
        lemma_objects_layout(iou, sequential, alen, size, (k - 1) as nat);
        let km = (k - 1) as int;
        assert(k * size == km * size + size) by (nonlinear_arith)
            requires
                km == k - 1,
        ;
        assert(k * (alen + size) == km * (alen + size) + (alen + size)) by (nonlinear_arith)
            requires
                km == k - 1,
        ;
        assert(obj.len() == (if explicit {
            alen
        } else {
            0
        }) + size);
        assert forall|i: int| 0 <= i < k implies #[trigger] spec_object_at(
            e1,
            iou,
            i,
            sequential,
            alen,
            size,
        ) by {
            let voff = spec_value_offset(i as nat, sequential, alen, size) as int;
            if i < k - 1 {
                assert(spec_object_at(e0, iou, i, sequential, alen, size));
                assert(e1.subrange(voff, voff + size) =~= e0.subrange(voff, voff + size));
                if i == 0 || !sequential {
                    assert(e1.subrange(voff - alen, voff) =~= e0.subrange(voff - alen, voff));
                }
            } else {
                assert(voff == e0.len() + (if explicit {
                    alen as int
                } else {
                    0
                }));
                assert(e1.subrange(voff, voff + size) =~= iou[i].value@.subrange(0, size as int));
                if explicit {
                    assert(e1.subrange(voff - alen, voff) =~= spec_le_bytes(
                        iou[i].address,
                        alen,
                    ));
                }
            }
        }
    }
}

/// The bytes of an object list are as many as its count, addressing mode, address width and
/// value size give.
pub proof fn lemma_objects_len(iou: Seq<Iou>, sequential: bool, alen: nat, size: nat)
    requires
        size <= 12,
    ensures
        spec_objects(iou, sequential, alen, size).len() == spec_objects_len(
            iou.len(),
            sequential,
            alen,
            size,
        ),
{
    assert(iou.take(iou.len() as int) =~= iou);
    lemma_objects_layout(iou, sequential, alen, size, iou.len());
}

proof fn lemma_buffer_of_value(value: DataBuffer, size: nat)
    requires
        size <= 12,
        forall|k: int| size <= k < 12 ==> value@[k] == 0,
    ensures
        spec_buffer(value@.subrange(0, size as int)) == value,
{
    let s = value@.subrange(0, size as int);
    assert forall|k: int| 0 <= k < 12 implies spec_buffer(s)@[k] == value@[k] by {
        if k < size {
            assert(s[k] == value@[k]);
        }
    }
    assert(spec_buffer(s) =~= value);
}

proof fn lemma_object_parsed(
    e: Seq<u8>,
    rest: Seq<u8>,
    iou: Seq<Iou>,
    i: int,
    sequential: bool,
    alen: nat,
    size: nat,
)
    requires
        alen <= 4,
        size <= 12,
        0 <= i < iou.len(),
        spec_objects_canonical(iou, sequential, alen, size),
        spec_object_at(e, iou, i, sequential, alen, size),
        spec_object_at(e, iou, 0, sequential, alen, size),
    ensures
        spec_parse_object(e + rest, i as nat, sequential, alen, size) == iou[i],
{
    let p = e + rest;
    let voff = spec_value_offset(i as nat, sequential, alen, size) as int;
    let voff0 = spec_value_offset(0, sequential, alen, size) as int;
    assert(voff0 == alen);
    assert(alen <= voff) by (nonlinear_arith)
        requires
            voff == (if sequential {
                alen + i * size
            } else {
                i * (alen + size) + alen
            }),
            0 <= i,
    ;
    assert(p.subrange(voff, voff + size) =~= e.subrange(voff, voff + size));
    assert forall|k: int| size <= k < 12 implies iou[i].value@[k] == 0 by {
        assert(iou[i].value@[k] == 0);
    }
    lemma_buffer_of_value(iou[i].value, size);
    let parsed = spec_parse_object(p, i as nat, sequential, alen, size);
    assert(parsed.value == iou[i].value);
    if sequential {
        assert(p.subrange(0, alen as int) =~= e.subrange(0, alen as int));
        assert(iou[0].address < spec_width_limit(alen));
        lemma_le_round_trip(iou[0].address, alen);
        assert(iou[i].address == iou[0].address + i);
        assert(parsed.address == iou[i].address);
    } else {
        assert(p.subrange(voff - alen, voff) =~= e.subrange(voff - alen, voff));
        assert(iou[i].address < spec_width_limit(alen));
        lemma_le_round_trip(iou[i].address, alen);
        assert(parsed.address == iou[i].address);
    }
}

/// An object list that is canonical for its addressing mode, address width and value size is
/// parsed back from its bytes, whatever follows them.
pub proof fn lemma_objects_round_trip(
    iou: Seq<Iou>,
    sequential: bool,
    alen: nat,
    size: nat,
    rest: Seq<u8>,
)
    requires
        alen <= 4,
        size <= 12,
        spec_objects_canonical(iou, sequential, alen, size),
    ensures
        spec_parse_objects(
            spec_objects(iou, sequential, alen, size) + rest,
            iou.len(),
            sequential,
            alen,
            size,
        ) == Some(iou),
{
    let n = iou.len();
    let e = spec_objects(iou, sequential, alen, size);
    let p = e + rest;
    assert(iou.take(n as int) =~= iou);
    lemma_objects_layout(iou, sequential, alen, size, n);
    let parsed = Seq::new(n, |i: int| spec_parse_object(p, i as nat, sequential, alen, size));
    assert forall|i: int| 0 <= i < n implies parsed[i] == iou[i] by {
        assert(spec_object_at(e, iou, i, sequential, alen, size));
        assert(spec_object_at(e, iou, 0, sequential, alen, size));
        lemma_object_parsed(e, rest, iou, i, sequential, alen, size);
    }
    assert(parsed =~= iou);
}

/// Every object list that parsing gives is canonical: with addresses of at most three bytes
/// and at most 127 objects, what is parsed is read back from its own bytes.
pub proof fn lemma_parsed_objects_canonical(
    p: Seq<u8>,
    n: nat,
    sequential: bool,
    alen: nat,
    size: nat,
)
    requires
        alen <= 3,
        size <= 12,
        n <= 127,
        spec_parse_objects(p, n, sequential, alen, size) is Some,
    ensures
        spec_objects_canonical(
            spec_parse_objects(p, n, sequential, alen, size)->Some_0,
            sequential,
            alen,
            size,
        ),
{
    let iou = spec_parse_objects(p, n, sequential, alen, size)->Some_0;
    let first = spec_le_value(p.subrange(0, alen as int));
    if n > 0 && sequential {
        lemma_le_value_bound(p.subrange(0, alen as int));
    }
    assert forall|i: int| 0 <= i < iou.len() implies (sequential ==> (#[trigger] iou[i]).address
        == first + i) && ((i == 0 || !sequential) ==> iou[i].address < spec_width_limit(alen)) by {
        let voff = spec_value_offset(i as nat, sequential, alen, size) as int;
        assert(iou[i] == spec_parse_object(p, i as nat, sequential, alen, size));
        if !sequential {
            assert(i * (alen + size) + (alen + size) <= n * (alen + size)) by (nonlinear_arith)
                requires
                    0 <= i < n,
            ;
            assert(0 <= i * (alen + size)) by (nonlinear_arith)
                requires
                    0 <= i,
            ;
            lemma_le_value_bound(p.subrange(voff - alen, voff));
        }
    }
    assert forall|i: int, k: int| 0 <= i < iou.len() && size <= k < 12 implies (
    #[trigger] iou[i].value@[k]) == 0 by {
        let voff = spec_value_offset(i as nat, sequential, alen, size) as int;
        assert(iou[i] == spec_parse_object(p, i as nat, sequential, alen, size));
        assert(i * size + size <= n * size) by (nonlinear_arith)
            requires
                0 <= i < n,
        ;
        assert(i * (alen + size) + (alen + size) <= n * (alen + size)) by (nonlinear_arith)
            requires
                0 <= i < n,
        ;
        assert(0 <= i * size && 0 <= i * (alen + size)) by (nonlinear_arith)
            requires
                0 <= i,
        ;
        assert(p.subrange(voff, voff + size).len() == size);
    }
    if sequential && n > 0 {
        assert(iou[0].address == first + 0);
    }
}

/// Appends the bytes of an object list to `buf`.
pub(crate) fn push_objects(
    buf: &mut Vec<u8>,
    iou: &Vec<Iou>,
    sequential: bool,
    alen: u8,
    size: usize,
)
    requires
        alen <= 4,
        size <= 12,
    ensures
        final(buf)@ == old(buf)@ + spec_objects(iou@, sequential, alen as nat, size as nat),
{
    let mut n: usize = 0;
    while n < iou.len()
        invariant
            n <= iou@.len(),
            alen <= 4,
            size <= 12,
            buf@ == old(buf)@ + spec_objects(
                iou@.take(n as int),
                sequential,
                alen as nat,
                size as nat,
            ),
        decreases iou@.len() - n,
    {
        let ghost before = buf@;
        let o: &Iou = &iou[n];
        if n == 0 || !sequential {
            push_le(buf, o.address, alen);
        }
        let mut j: usize = 0;
        while j < size
            invariant
                j <= size <= 12,
                buf@ == before + (if n == 0 || !sequential {
                    spec_le_bytes(o.address, alen as nat)
                } else {
                    Seq::<u8>::empty()
                }) + o.value@.subrange(0, j as int),
            decreases size - j,
        {
            buf.push(o.value[j]);
            j += 1;
            proof {
                assert(o.value@.subrange(0, j as int) =~= o.value@.subrange(0, j - 1).push(
                    o.value@[j - 1],
                ));
            }
        }
        proof {
            let next = iou@.take(n + 1);
            assert(next.drop_last() =~= iou@.take(n as int));
            assert(next.last() == *o);
            assert(buf@ =~= before + spec_object(
                *o,
                n == 0 || !sequential,
                alen as nat,
                size as nat,
            ));
        }
        n += 1;
    }
    proof {
        assert(iou@.take(n as int) =~= iou@);
    }
}

/// Reads the `size` bytes at `pos` into a zero-padded value buffer.
pub(crate) fn read_value(bytes: &[u8], pos: usize, size: usize) -> (r: DataBuffer)
    requires
        size <= 12,
        pos + size <= bytes@.len(),
    ensures
        r == spec_buffer(bytes@.subrange(pos as int, pos + size)),
{
    let mut value: DataBuffer = [0u8; 12];
    let len: usize = bytes.len();
    let mut j: usize = 0;
    while j < size
        invariant
            j <= size <= 12,
            pos + size <= len == bytes@.len(),
            forall|k: int| 0 <= k < j ==> value@[k] == bytes@[pos + k],
            forall|k: int| j <= k < 12 ==> value@[k] == 0,
        decreases size - j,
    {
        value[j] = bytes[pos + j];
        j += 1;
    }
    proof {
        assert(value =~= spec_buffer(bytes@.subrange(pos as int, pos + size)));
    }
    value
}

/// Parses the list of `n` objects that starts at `start` in `bytes`; `None` where the bytes end
/// before the list does.
pub(crate) fn parse_objects(
    bytes: &[u8],
    start: usize,
    n: u8,
    sequential: bool,
    alen: u8,
    size: usize,
) -> (r: Option<Vec<Iou>>)
    requires
        start <= bytes@.len(),
        n <= 127,
        alen <= 3,
        size <= 12,
    ensures
        match r {
            Some(iou) => spec_parse_objects(
                bytes@.skip(start as int),
                n as nat,
                sequential,
                alen as nat,
                size as nat,
            ) == Some(iou@),
            None => spec_parse_objects(
                bytes@.skip(start as int),
                n as nat,
                sequential,
                alen as nat,
                size as nat,
            ) is None,
        },
{
    let ghost p = bytes@.skip(start as int);
    let count: usize = n as usize;
    let a: usize = alen as usize;
    proof {
        assert(count * size <= 127 * 12) by (nonlinear_arith)
            requires
                count <= 127,
                size <= 12,
        ;
        assert(count * (a + size) <= 127 * 15) by (nonlinear_arith)
            requires
                count <= 127,
                a + size <= 15,
        ;
    }
    let total: usize = if sequential {
        if count == 0 {
            0
        } else {
            a + count * size
        }
    } else {
        count * (a + size)
    };
    if bytes.len() - start < total {
        return None;
    }
    let first: u32 = if sequential && count > 0 { read_le(bytes, start, alen) } else { 0 };
    proof {
        if sequential && count > 0 {
            assert(bytes@.subrange(start as int, start + alen) =~= p.subrange(0, alen as int));
            lemma_le_value_bound(p.subrange(0, alen as int));
        }
    }
    let mut iou: Vec<Iou> = Vec::new();
    let mut i: usize = 0;
    while i < count
        invariant
            i <= count <= 127,
            a == alen <= 3,
            size <= 12,
            start <= bytes@.len(),
            p == bytes@.skip(start as int),
            total == spec_objects_len(count as nat, sequential, a as nat, size as nat),
            start + total <= bytes@.len() <= usize::MAX,
            sequential && count > 0 ==> first == spec_le_value(p.subrange(0, alen as int)),
            first < 0x100_0000,
            iou@.len() == i,
            forall|k: int|
                0 <= k < i ==> iou@[k] == #[trigger] spec_parse_object(
                    p,
                    k as nat,
                    sequential,
                    a as nat,
                    size as nat,
                ),
        decreases count - i,
    {
        proof {
            assert(i * size + size <= count * size) by (nonlinear_arith)
                requires
                    i < count,
            ;
            assert(i * (a + size) + (a + size) <= count * (a + size)) by (nonlinear_arith)
                requires
                    i < count,
            ;
            assert(count * size <= 127 * 12) by (nonlinear_arith)
                requires
                    count <= 127,
                    size <= 12,
            ;
            assert(count * (a + size) <= 127 * 15) by (nonlinear_arith)
                requires
                    count <= 127,
                    a + size <= 15,
            ;
        }
        let voff: usize = if sequential { a + i * size } else { i * (a + size) + a };
        assert(a <= voff && voff + size <= total);
        let address: u32 = if sequential {
            first + i as u32
        } else {
            read_le(bytes, start + voff - a, alen)
        };
        let value: DataBuffer = read_value(bytes, start + voff, size);
        proof {
            assert(bytes@.subrange(start + voff, start + voff + size) =~= p.subrange(
                voff as int,
                voff + size,
            ));
            assert(bytes@.subrange(start + voff - a, start + voff) =~= p.subrange(
                voff - a,
                voff as int,
            ));
        }
        iou.push(Iou { address, value });
        i += 1;
    }
    proof {
        assert(iou@ =~= Seq::new(
            n as nat,
            |i: int| spec_parse_object(p, i as nat, sequential, alen as nat, size as nat),
        ));
    }
    Some(iou)
}

} // verus!
