//! Merge operators: the reducers that combine a stored value with the operands
//! written against a key since that value was stored.
//!
//! Every reducer is a pure function of the stored value and of the operands in
//! arrival order. The integer reducers work on 64-bit values in their eight-byte
//! big-endian encoding.
use vstd::prelude::*;
use vstd::slice::slice_to_vec;
use crate::error::Error;

verus! {

/// Width in bytes of an encoded 64-bit integer.
pub const INT_WIDTH: usize = 8;

/// The reducers a keyspace can be opened with.
#[derive(Clone, Copy, Debug, PartialEq, Eq, Structural)]
pub enum MergeOperator {
    /// Byte concatenation after the stored value.
    Append,
    /// Byte concatenation before the stored value.
    Prepend,
    /// Addition of signed 64-bit integers.
    I64Add,
    /// Addition of unsigned 64-bit integers.
    U64Add,
}

/// Two to the power 64, the number of values a 64-bit word can take.
pub open spec fn word_modulus() -> int {
    0x1_0000_0000_0000_0000
}

/// The unsigned integer that eight bytes spell in big-endian order.
pub open spec fn u64_from_be(b: Seq<u8>) -> int
    recommends
        b.len() == 8,
{
    ((((((b[0] as int * 256 + b[1] as int) * 256 + b[2] as int) * 256 + b[3] as int) * 256
        + b[4] as int) * 256 + b[5] as int) * 256 + b[6] as int) * 256 + b[7] as int
}

/// The eight bytes that spell `v` in big-endian order.
pub open spec fn u64_to_be(v: int) -> Seq<u8>
    recommends
        0 <= v < word_modulus(),
{
    seq![
        (v / 256 / 256 / 256 / 256 / 256 / 256 / 256 % 256) as u8,
        (v / 256 / 256 / 256 / 256 / 256 / 256 % 256) as u8,
        (v / 256 / 256 / 256 / 256 / 256 % 256) as u8,
        (v / 256 / 256 / 256 / 256 % 256) as u8,
        (v / 256 / 256 / 256 % 256) as u8,
        (v / 256 / 256 % 256) as u8,
        (v / 256 % 256) as u8,
        (v % 256) as u8,
    ]
}

/// The signed integer that eight bytes spell in big-endian two's complement.
pub open spec fn i64_from_be(b: Seq<u8>) -> int
    recommends
        b.len() == 8,
{
    let u = u64_from_be(b);
    if u < 0x8000_0000_0000_0000 {
        u
    } else {
        u - word_modulus()
    }
}

/// The eight bytes that spell `v` in big-endian two's complement.
pub open spec fn i64_to_be(v: int) -> Seq<u8>
    recommends
        -0x8000_0000_0000_0000 <= v < 0x8000_0000_0000_0000,
{
    u64_to_be(
        if v >= 0 {
            v
        } else {
            v + word_modulus()
        },
    )
}

/// Dividing by 256 strips the last base-256 digit, and the remainder is that digit.
proof fn lemma_split_digit(q: int, r: int)
    requires
        0 <= r < 256,
    ensures
        (q * 256 + r) / 256 == q,
        (q * 256 + r) % 256 == r,
{
}

/// Decoding what was encoded gives the value back.
pub proof fn lemma_u64_decode_encode(v: int)
    requires
        0 <= v < word_modulus(),
    ensures
        u64_to_be(v).len() == 8,
        u64_from_be(u64_to_be(v)) == v,
{
    let d1 = v / 256;
    let d2 = d1 / 256;
    let d3 = d2 / 256;
    let d4 = d3 / 256;
    let d5 = d4 / 256;
    let d6 = d5 / 256;
    let d7 = d6 / 256;
    assert(v == d1 * 256 + v % 256);
    assert(d1 == d2 * 256 + d1 % 256);
    assert(d2 == d3 * 256 + d2 % 256);
    assert(d3 == d4 * 256 + d3 % 256);
    assert(d4 == d5 * 256 + d4 % 256);
    assert(d5 == d6 * 256 + d5 % 256);
    assert(d6 == d7 * 256 + d6 % 256);
    assert(0 <= d7 < 256);
    assert(d7 % 256 == d7);
    let b = u64_to_be(v);
    assert(b[0] == d7 && b[1] == d6 % 256 && b[2] == d5 % 256 && b[3] == d4 % 256);
    assert(b[4] == d3 % 256 && b[5] == d2 % 256 && b[6] == d1 % 256 && b[7] == v % 256);
}

/// Encoding what was decoded gives the bytes back.
pub proof fn lemma_u64_encode_decode(b: Seq<u8>)
    requires
        b.len() == 8,
    ensures
        0 <= u64_from_be(b) < word_modulus(),
        u64_to_be(u64_from_be(b)) == b,
{
    let x0 = b[0] as int;
    let x1 = x0 * 256 + b[1] as int;
    let x2 = x1 * 256 + b[2] as int;
    let x3 = x2 * 256 + b[3] as int;
    let x4 = x3 * 256 + b[4] as int;
    let x5 = x4 * 256 + b[5] as int;
    let x6 = x5 * 256 + b[6] as int;
    let x7 = x6 * 256 + b[7] as int;
    assert(x7 == u64_from_be(b));
    lemma_split_digit(x6, b[7] as int);
    lemma_split_digit(x5, b[6] as int);
    lemma_split_digit(x4, b[5] as int);
    lemma_split_digit(x3, b[4] as int);
    lemma_split_digit(x2, b[3] as int);
    lemma_split_digit(x1, b[2] as int);
    lemma_split_digit(x0, b[1] as int);
    lemma_split_digit(0, b[0] as int);
    let e = u64_to_be(x7);
    assert(e[7] == b[7]);
    assert(e[6] == b[6]);
    assert(e[5] == b[5]);
    assert(e[4] == b[4]);
    assert(e[3] == b[3]);
    assert(e[2] == b[2]);
    assert(e[1] == b[1]);
    assert(e[0] == b[0]);
    assert(e =~= b);
}

/// Decoding what was encoded gives the signed value back.
pub proof fn lemma_i64_decode_encode(v: int)
    requires
        i64::MIN <= v <= i64::MAX,
    ensures
        i64_to_be(v).len() == 8,
        i64_from_be(i64_to_be(v)) == v,
{
    if v >= 0 {
        lemma_u64_decode_encode(v);
    } else {
        lemma_u64_decode_encode(v + word_modulus());
    }
}

/// Encoding what was decoded gives the bytes back, and every eight bytes spell
/// a value in the signed 64-bit range.
pub proof fn lemma_i64_encode_decode(b: Seq<u8>)
    requires
        b.len() == 8,
    ensures
        i64::MIN <= i64_from_be(b) <= i64::MAX,
        i64_to_be(i64_from_be(b)) == b,
{
    lemma_u64_encode_decode(b);
}

/// Spells `val` as eight big-endian bytes.
pub fn encode_u64(val: u64) -> (bytes: [u8; 8])
    ensures
        bytes@ == u64_to_be(val as int),
{
    let bytes: [u8; 8] = [
        (val / 256 / 256 / 256 / 256 / 256 / 256 / 256 % 256) as u8,
        (val / 256 / 256 / 256 / 256 / 256 / 256 % 256) as u8,
        (val / 256 / 256 / 256 / 256 / 256 % 256) as u8,
        (val / 256 / 256 / 256 / 256 % 256) as u8,
        (val / 256 / 256 / 256 % 256) as u8,
        (val / 256 / 256 % 256) as u8,
        (val / 256 % 256) as u8,
        (val % 256) as u8,
    ];
    assert(bytes@ =~= u64_to_be(val as int));
    bytes
}

/// Reads eight big-endian bytes as an unsigned integer.
pub fn decode_u64(b: &[u8]) -> (val: u64)
    requires
        b@.len() == 8,
    ensures
        val == u64_from_be(b@),
{
    let b0: u64 = b[0] as u64;
    let b1: u64 = b0 * 256 + b[1] as u64;
    let b2: u64 = b1 * 256 + b[2] as u64;
    let b3: u64 = b2 * 256 + b[3] as u64;
    let b4: u64 = b3 * 256 + b[4] as u64;
    let b5: u64 = b4 * 256 + b[5] as u64;
    let b6: u64 = b5 * 256 + b[6] as u64;
    b6 * 256 + b[7] as u64
}

/// Spells `val` as eight big-endian bytes in two's complement.
pub fn encode_i64(val: i64) -> (bytes: [u8; 8])
    ensures
        bytes@ == i64_to_be(val as int),
{
    if val >= 0 {
        encode_u64(val as u64)
    } else {
        encode_u64((val - i64::MIN) as u64 + 0x8000_0000_0000_0000)
    }
}

/// Reads eight big-endian bytes as a signed integer in two's complement.
pub fn decode_i64(b: &[u8]) -> (val: i64)
    requires
        b@.len() == 8,
    ensures
        val == i64_from_be(b@),
{
    let u: u64 = decode_u64(b);
    if u < 0x8000_0000_0000_0000 {
        u as i64
    } else {
        (u - 0x8000_0000_0000_0000) as i64 + i64::MIN
    }
}

/// The value stored under the key before the merge, as plain bytes.
pub open spec fn stored(existing_val: Option<&[u8]>) -> Option<Seq<u8>> {
    match existing_val {
        Some(bytes) => Some(bytes@),
        None => None,
    }
}

/// The bytes a stored value contributes to a concatenation: its own, or none
/// when nothing is stored.
pub open spec fn stored_bytes(stored: Option<Seq<u8>>) -> Seq<u8> {
    match stored {
        Some(bytes) => bytes,
        None => Seq::empty(),
    }
}

/// What appending yields: the stored value, then every operand in arrival order.
pub open spec fn append_merged(stored: Option<Seq<u8>>, operands: Seq<Seq<u8>>) -> Seq<u8> {
    stored_bytes(stored) + operands.flatten()
}

/// What prepending yields: every operand in arrival order, then the stored value.
pub open spec fn prepend_merged(stored: Option<Seq<u8>>, operands: Seq<Seq<u8>>) -> Seq<u8> {
    operands.flatten() + stored_bytes(stored)
}

/// Whether the stored value, if any, and every operand are eight bytes long.
pub open spec fn all_int_width(stored: Option<Seq<u8>>, operands: Seq<Seq<u8>>) -> bool {
    &&& stored matches Some(bytes) ==> bytes.len() == 8
    &&& forall|i: int| 0 <= i < operands.len() ==> (#[trigger] operands[i]).len() == 8
}

/// The unsigned 64-bit value that `v` wraps around to.
pub open spec fn wrap_u64(v: int) -> int {
    v % word_modulus()
}

/// The signed 64-bit value that `v` wraps around to.
pub open spec fn wrap_i64(v: int) -> int {
    let u = v % word_modulus();
    if u < 0x8000_0000_0000_0000 {
        u
    } else {
        u - word_modulus()
    }
}

/// The signed value an addition starts from: the stored one, or zero.
pub open spec fn i64_start(stored: Option<Seq<u8>>) -> int {
    match stored {
        Some(bytes) => i64_from_be(bytes),
        None => 0,
    }
}

/// `start` plus the signed values of all operands, as a mathematical integer.
pub open spec fn i64_sum(start: int, operands: Seq<Seq<u8>>) -> int
    decreases operands.len(),
{
    if operands.len() == 0 {
        start
    } else {
        i64_sum(start, operands.drop_last()) + i64_from_be(operands.last())
    }
}

/// What signed addition yields: the sum of the stored value and all operands,
/// wrapped around to a signed 64-bit value and encoded.
pub open spec fn i64_add_merged(stored: Option<Seq<u8>>, operands: Seq<Seq<u8>>) -> Seq<u8> {
    i64_to_be(wrap_i64(i64_sum(i64_start(stored), operands)))
}

/// The unsigned value an addition starts from: the stored one, or zero.
pub open spec fn u64_start(stored: Option<Seq<u8>>) -> int {
    match stored {
        Some(bytes) => u64_from_be(bytes),
        None => 0,
    }
}

/// `start` plus the unsigned values of all operands, as a mathematical integer.
pub open spec fn u64_sum(start: int, operands: Seq<Seq<u8>>) -> int
    decreases operands.len(),
{
    if operands.len() == 0 {
        start
    } else {
        u64_sum(start, operands.drop_last()) + u64_from_be(operands.last())
    }
}

/// What unsigned addition yields: the sum of the stored value and all operands,
/// wrapped around to an unsigned 64-bit value and encoded.
pub open spec fn u64_add_merged(stored: Option<Seq<u8>>, operands: Seq<Seq<u8>>) -> Seq<u8> {
    u64_to_be(wrap_u64(u64_sum(u64_start(stored), operands)))
}

/// Appends every byte of `bytes` to `result`, in order.
fn push_all(result: &mut Vec<u8>, bytes: &[u8])
    ensures
        final(result)@ == old(result)@ + bytes@,
{
    let mut i: usize = 0;
    while i < bytes.len()
        invariant
            i <= bytes@.len(),
            result@ == old(result)@ + bytes@.take(i as int),
        decreases bytes@.len() - i,
    {
        result.push(bytes[i]);
        assert(bytes@.take(i as int + 1) =~= bytes@.take(i as int).push(bytes@[i as int]));
        i += 1;
    }
    assert(bytes@.take(i as int) =~= bytes@);
}

/// Appends the bytes of every operand to `result`, operand after operand.
fn push_operands(result: &mut Vec<u8>, operands: &Vec<Vec<u8>>)
    ensures
        final(result)@ == old(result)@ + operands.deep_view().flatten(),
{
    let ghost all = operands.deep_view();
    let mut i: usize = 0;
    assert(all.take(0) =~= Seq::<Seq<u8>>::empty());
    while i < operands.len()
        invariant
            i <= operands@.len(),
            all == operands.deep_view(),
            result@ == old(result)@ + all.take(i as int).flatten(),
        decreases operands@.len() - i,
    {
        push_all(result, operands[i].as_slice());
        proof {
            assert(all.take(i as int + 1) =~= all.take(i as int).push(all[i as int]));
            all.take(i as int).lemma_flatten_push(all[i as int]);
        }
        i += 1;
    }
    assert(all.take(i as int) =~= all);
}

/// Merges by appending: the stored value, if any, followed by every operand in
/// arrival order.
pub fn append_merge(_key: &[u8], existing_val: Option<&[u8]>, operands: &Vec<Vec<u8>>) -> (result:
    Option<Vec<u8>>)
    ensures
        result matches Some(merged) && merged@ == append_merged(
            stored(existing_val),
            operands.deep_view(),
        ),
{
    let mut result: Vec<u8> = Vec::with_capacity(operands.len());
    match existing_val {
        Some(v) => push_all(&mut result, v),
        None => {},
    }
    push_operands(&mut result, operands);
    Some(result)
}

/// Merges by prepending: every operand in arrival order, followed by the stored
/// value, if any.
pub fn prepend_merge(_key: &[u8], existing_val: Option<&[u8]>, operands: &Vec<Vec<u8>>) -> (result:
    Option<Vec<u8>>)
    ensures
        result matches Some(merged) && merged@ == prepend_merged(
            stored(existing_val),
            operands.deep_view(),
        ),
{
    let mut result: Vec<u8> = Vec::with_capacity(operands.len());
    push_operands(&mut result, operands);
    match existing_val {
        Some(v) => push_all(&mut result, v),
        None => {},
    }
    Some(result)
}

/// Merges by signed addition: the stored value, or zero, plus every operand,
/// each read as a big-endian signed 64-bit integer. The sum wraps around at the
/// ends of the signed 64-bit range.
pub fn i64_add_merge(_key: &[u8], existing_val: Option<&[u8]>, operands: &Vec<Vec<u8>>) -> (result:
    Option<Vec<u8>>)
    requires
        all_int_width(stored(existing_val), operands.deep_view()),
    ensures
        result matches Some(merged) && merged@ == i64_add_merged(
            stored(existing_val),
            operands.deep_view(),
        ),
{
    let ghost all = operands.deep_view();
    let ghost start = i64_start(stored(existing_val));
    let mut int_val: i64 = match existing_val {
        Some(v) => decode_i64(v),
        None => 0,
    };
    proof {
        assert(all.take(0) =~= Seq::<Seq<u8>>::empty());
        lemma_wrap_i64_in_range(int_val as int);
    }
    let mut i: usize = 0;
    while i < operands.len()
        invariant
            i <= operands@.len(),
            all == operands.deep_view(),
            all_int_width(stored(existing_val), all),
            int_val == wrap_i64(i64_sum(start, all.take(i as int))),
        decreases operands@.len() - i,
    {
        assert(all[i as int].len() == 8);
        let operand: i64 = decode_i64(operands[i].as_slice());
        proof {
            let next = all.take(i as int + 1);
            assert(next.drop_last() =~= all.take(i as int));
            assert(next.last() == all[i as int]);
            lemma_i64_wrapping_step(i64_sum(start, all.take(i as int)), int_val, operand);
        }
        int_val = int_val.wrapping_add(operand);
        i += 1;
    }
    assert(all.take(i as int) =~= all);
    let bytes: [u8; 8] = encode_i64(int_val);
    Some(slice_to_vec(bytes.as_slice()))
}

/// Merges by unsigned addition: the stored value, or zero, plus every operand,
/// each read as a big-endian unsigned 64-bit integer. The sum wraps around at
/// the end of the unsigned 64-bit range.
pub fn u64_add_merge(_key: &[u8], existing_val: Option<&[u8]>, operands: &Vec<Vec<u8>>) -> (result:
    Option<Vec<u8>>)
    requires
        all_int_width(stored(existing_val), operands.deep_view()),
    ensures
        result matches Some(merged) && merged@ == u64_add_merged(
            stored(existing_val),
            operands.deep_view(),
        ),
{
    let ghost all = operands.deep_view();
    let ghost start = u64_start(stored(existing_val));
    let mut int_val: u64 = match existing_val {
        Some(v) => decode_u64(v),
        None => 0,
    };
    proof {
        assert(all.take(0) =~= Seq::<Seq<u8>>::empty());
        lemma_wrap_u64_in_range(int_val as int);
    }
    let mut i: usize = 0;
    while i < operands.len()
        invariant
            i <= operands@.len(),
            all == operands.deep_view(),
            all_int_width(stored(existing_val), all),
            int_val == wrap_u64(u64_sum(start, all.take(i as int))),
        decreases operands@.len() - i,
    {
        assert(all[i as int].len() == 8);
        let operand: u64 = decode_u64(operands[i].as_slice());
        proof {
            let next = all.take(i as int + 1);
            assert(next.drop_last() =~= all.take(i as int));
            assert(next.last() == all[i as int]);
            lemma_u64_wrapping_step(u64_sum(start, all.take(i as int)), int_val, operand);
        }
        int_val = int_val.wrapping_add(operand);
        i += 1;
    }
    assert(all.take(i as int) =~= all);
    let bytes: [u8; 8] = encode_u64(int_val);
    Some(slice_to_vec(bytes.as_slice()))
}

/// A value in the unsigned 64-bit range wraps around to itself.
proof fn lemma_wrap_u64_in_range(v: int)
    requires
        0 <= v < word_modulus(),
    ensures
        wrap_u64(v) == v,
{
    vstd::arithmetic::div_mod::lemma_small_mod(v as nat, word_modulus() as nat);
}

/// A value in the signed 64-bit range wraps around to itself.
proof fn lemma_wrap_i64_in_range(v: int)
    requires
        i64::MIN <= v <= i64::MAX,
    ensures
        wrap_i64(v) == v,
{
    let m = word_modulus();
    if v >= 0 {
        vstd::arithmetic::div_mod::lemma_small_mod(v as nat, m as nat);
    } else {
        vstd::arithmetic::div_mod::lemma_small_mod((v + m) as nat, m as nat);
        vstd::arithmetic::div_mod::lemma_mod_multiples_vanish(1, v, m);
        assert(1 * m + v == v + m);
    }
}

/// Adding to a wrapped unsigned value and wrapping again is wrapping the sum.
proof fn lemma_wrap_u64_add(a: int, b: int)
    ensures
        0 <= wrap_u64(a) < word_modulus(),
        wrap_u64(wrap_u64(a) + b) == wrap_u64(a + b),
{
    let m = word_modulus();
    vstd::arithmetic::div_mod::lemma_mod_bound(a, m);
    vstd::arithmetic::div_mod::lemma_add_mod_noop(a, b, m);
    vstd::arithmetic::div_mod::lemma_add_mod_noop(a % m, b, m);
    vstd::arithmetic::div_mod::lemma_mod_twice(a, m);
}

/// Adding to a wrapped signed value and wrapping again is wrapping the sum.
proof fn lemma_wrap_i64_add(a: int, b: int)
    ensures
        i64::MIN <= wrap_i64(a) <= i64::MAX,
        wrap_i64(wrap_i64(a) + b) == wrap_i64(a + b),
{
    let m = word_modulus();
    lemma_wrap_u64_add(a, b);
    if a % m >= 0x8000_0000_0000_0000 {
        vstd::arithmetic::div_mod::lemma_mod_multiples_vanish(-1, a % m + b, m);
        assert(m * -1 + (a % m + b) == a % m - m + b);
    }
}

/// What the machine's wrapping addition computes on a wrapped signed sum is
/// the sum with the next operand, wrapped.
proof fn lemma_i64_wrapping_step(sum: int, wrapped: i64, operand: i64)
    requires
        wrapped == wrap_i64(sum),
    ensures
        wrapped.wrapping_add(operand) == wrap_i64(sum + operand),
{
    let m = word_modulus();
    let exact = wrapped + operand;
    lemma_wrap_i64_add(sum, operand as int);
    if exact > i64::MAX {
        lemma_wrap_i64_in_range(exact - m);
        vstd::arithmetic::div_mod::lemma_mod_multiples_vanish(-1, exact, m);
        assert(m * -1 + exact == exact - m);
    } else if exact < i64::MIN {
        lemma_wrap_i64_in_range(exact + m);
        vstd::arithmetic::div_mod::lemma_mod_multiples_vanish(1, exact, m);
        assert(m * 1 + exact == exact + m);
    } else {
        lemma_wrap_i64_in_range(exact);
    }
}

/// What the machine's wrapping addition computes on a wrapped unsigned sum is
/// the sum with the next operand, wrapped.
proof fn lemma_u64_wrapping_step(sum: int, wrapped: u64, operand: u64)
    requires
        wrapped == wrap_u64(sum),
    ensures
        wrapped.wrapping_add(operand) == wrap_u64(sum + operand),
{
    let m = word_modulus();
    let exact = wrapped + operand;
    lemma_wrap_u64_add(sum, operand as int);
    if exact > u64::MAX {
        lemma_wrap_u64_in_range(exact - m);
        vstd::arithmetic::div_mod::lemma_mod_multiples_vanish(-1, exact, m);
        assert(m * -1 + exact == exact - m);
    } else {
        lemma_wrap_u64_in_range(exact);
    }
}

/// Tells whether the stored value, if any, and every operand are eight bytes
/// long, so that the integer merges may be called on them.
pub fn check_int_width(existing_val: Option<&[u8]>, operands: &Vec<Vec<u8>>) -> (ok: bool)
    ensures
        ok == all_int_width(stored(existing_val), operands.deep_view()),
{
    let ghost all = operands.deep_view();
    match existing_val {
        Some(v) => {
            if v.len() != INT_WIDTH {
                return false;
            }
        },
        None => {},
    }
    let mut i: usize = 0;
    while i < operands.len()
        invariant
            i <= operands@.len(),
            all == operands.deep_view(),
            stored(existing_val) matches Some(bytes) ==> bytes.len() == 8,
            forall|j: int| 0 <= j < i ==> (#[trigger] all[j]).len() == 8,
        decreases operands@.len() - i,
    {
        if operands[i].len() != INT_WIDTH {
            assert(all[i as int].len() != 8);
            return false;
        }
        i += 1;
    }
    true
}

impl MergeOperator {
    /// Whether this reducer is defined on these inputs. Concatenation always
    /// is; addition is where the stored value and every operand are eight bytes
    /// long.
    pub open spec fn defined(self, stored: Option<Seq<u8>>, operands: Seq<Seq<u8>>) -> bool {
        match self {
            MergeOperator::Append => true,
            MergeOperator::Prepend => true,
            MergeOperator::I64Add => all_int_width(stored, operands),
            MergeOperator::U64Add => all_int_width(stored, operands),
        }
    }

    /// The value this reducer yields on these inputs.
    pub open spec fn merged(self, stored: Option<Seq<u8>>, operands: Seq<Seq<u8>>) -> Seq<u8> {
        match self {
            MergeOperator::Append => append_merged(stored, operands),
            MergeOperator::Prepend => prepend_merged(stored, operands),
            MergeOperator::I64Add => i64_add_merged(stored, operands),
            MergeOperator::U64Add => u64_add_merged(stored, operands),
        }
    }

    /// Runs this reducer. Returns the merged value where the reducer is defined
    /// on the inputs, and a decoding error where it is not.
    pub fn merge(&self, key: &[u8], existing_val: Option<&[u8]>, operands: &Vec<Vec<u8>>) -> (result:
        Result<Vec<u8>, Error>)
        ensures
            result is Ok == self.defined(stored(existing_val), operands.deep_view()),
            result matches Ok(merged) ==> merged@ == self.merged(
                stored(existing_val),
                operands.deep_view(),
            ),
            result matches Err(e) ==> e == Error::DecodeError,
    {
        let merged = match self {
            MergeOperator::Append => append_merge(key, existing_val, operands),
            MergeOperator::Prepend => prepend_merge(key, existing_val, operands),
            MergeOperator::I64Add => {
                if check_int_width(existing_val, operands) {
                    i64_add_merge(key, existing_val, operands)
                } else {
                    None
                }
            },
            MergeOperator::U64Add => {
                if check_int_width(existing_val, operands) {
                    u64_add_merge(key, existing_val, operands)
                } else {
                    None
                }
            },
        };
        match merged {
            Some(bytes) => Ok(bytes),
            None => Err(Error::DecodeError),
        }
    }
}

/// A signed sum over a concatenation is the sum over the first part plus the
/// sum, from zero, over the second.
proof fn lemma_i64_sum_concat(start: int, a: Seq<Seq<u8>>, b: Seq<Seq<u8>>)
    ensures
        i64_sum(start, a + b) == i64_sum(start, a) + i64_sum(0, b),
    decreases b.len(),
{
    if b.len() == 0 {
        assert(a + b =~= a);
    } else {
        lemma_i64_sum_concat(start, a, b.drop_last());
        assert((a + b).drop_last() =~= a + b.drop_last());
        assert((a + b).last() == b.last());
    }
}

/// An unsigned sum over a concatenation is the sum over the first part plus the
/// sum, from zero, over the second.
proof fn lemma_u64_sum_concat(start: int, a: Seq<Seq<u8>>, b: Seq<Seq<u8>>)
    ensures
        u64_sum(start, a + b) == u64_sum(start, a) + u64_sum(0, b),
    decreases b.len(),
{
    if b.len() == 0 {
        assert(a + b =~= a);
    } else {
        lemma_u64_sum_concat(start, a, b.drop_last());
        assert((a + b).drop_last() =~= a + b.drop_last());
        assert((a + b).last() == b.last());
    }
}

/// Signed addition is exact wherever the sum of the stored value and all
/// operands is a signed 64-bit value.
pub proof fn lemma_i64_add_exact(stored: Option<Seq<u8>>, operands: Seq<Seq<u8>>)
    requires
        i64::MIN <= i64_sum(i64_start(stored), operands) <= i64::MAX,
    ensures
        i64_add_merged(stored, operands) == i64_to_be(i64_sum(i64_start(stored), operands)),
{
    lemma_wrap_i64_in_range(i64_sum(i64_start(stored), operands));
}

/// Unsigned addition is exact wherever the sum of the stored value and all
/// operands is an unsigned 64-bit value.
pub proof fn lemma_u64_add_exact(stored: Option<Seq<u8>>, operands: Seq<Seq<u8>>)
    requires
        0 <= u64_sum(u64_start(stored), operands) <= u64::MAX,
    ensures
        u64_add_merged(stored, operands) == u64_to_be(u64_sum(u64_start(stored), operands)),
{
    lemma_wrap_u64_in_range(u64_sum(u64_start(stored), operands));
}

/// Every reducer is associative: merging a run of pending operands on their
/// own, with nothing stored, and putting the outcome in their place as one
/// operand changes neither whether the whole merge is defined nor what it
/// yields.
pub proof fn lemma_merge_is_associative(
    op: MergeOperator,
    stored: Option<Seq<u8>>,
    before: Seq<Seq<u8>>,
    run: Seq<Seq<u8>>,
    after: Seq<Seq<u8>>,
)
    requires
        op.defined(stored, before + run + after),
    ensures
        op.defined(None, run),
        op.defined(stored, before.push(op.merged(None, run)) + after),
        op.merged(stored, before.push(op.merged(None, run)) + after) == op.merged(
            stored,
            before + run + after,
        ),
{
    let partial = op.merged(None, run);
    let collapsed = before.push(partial) + after;
    let whole = before + run + after;
    assert(before.push(partial) =~= before + seq![partial]);
    match op {
        MergeOperator::Append | MergeOperator::Prepend => {
            assert(partial =~= run.flatten());
            seq![partial].lemma_flatten_one_element();
            vstd::seq_lib::lemma_flatten_concat(before, seq![partial]);
            vstd::seq_lib::lemma_flatten_concat(before.push(partial), after);
            vstd::seq_lib::lemma_flatten_concat(before, run);
            vstd::seq_lib::lemma_flatten_concat(before + run, after);
            assert(collapsed.flatten() =~= whole.flatten());
        },
        MergeOperator::I64Add => {
            let start = i64_start(stored);
            assert forall|i: int| 0 <= i < run.len() implies (#[trigger] run[i]).len() == 8 by {
                assert(run[i] == whole[before.len() + i]);
            }
            lemma_wrap_i64_add(i64_sum(0, run), 0);
            lemma_i64_decode_encode(wrap_i64(i64_sum(0, run)));
            assert forall|i: int| 0 <= i < collapsed.len() implies (#[trigger] collapsed[i]).len()
                == 8 by {
                if i < before.len() {
                    assert(collapsed[i] == whole[i]);
                } else if i > before.len() {
                    assert(collapsed[i] == whole[i - 1 + run.len()]);
                }
            }
            assert(seq![partial].drop_last() =~= Seq::<Seq<u8>>::empty());
            assert(seq![partial].last() == partial);
            assert(i64_sum(0, Seq::<Seq<u8>>::empty()) == 0);
            assert(i64_sum(0, seq![partial]) == wrap_i64(i64_sum(0, run)));
            lemma_i64_sum_concat(start, before, seq![partial]);
            lemma_i64_sum_concat(start, before.push(partial), after);
            lemma_i64_sum_concat(start, before, run);
            lemma_i64_sum_concat(start, before + run, after);
            lemma_wrap_i64_add(i64_sum(0, run), i64_sum(start, before) + i64_sum(0, after));
        },
        MergeOperator::U64Add => {
            let start = u64_start(stored);
            assert forall|i: int| 0 <= i < run.len() implies (#[trigger] run[i]).len() == 8 by {
                assert(run[i] == whole[before.len() + i]);
            }
            lemma_wrap_u64_add(u64_sum(0, run), 0);
            lemma_u64_decode_encode(wrap_u64(u64_sum(0, run)));
            assert forall|i: int| 0 <= i < collapsed.len() implies (#[trigger] collapsed[i]).len()
                == 8 by {
                if i < before.len() {
                    assert(collapsed[i] == whole[i]);
                } else if i > before.len() {
                    assert(collapsed[i] == whole[i - 1 + run.len()]);
                }
            }
            assert(seq![partial].drop_last() =~= Seq::<Seq<u8>>::empty());
            assert(seq![partial].last() == partial);
            assert(u64_sum(0, Seq::<Seq<u8>>::empty()) == 0);
            assert(u64_sum(0, seq![partial]) == wrap_u64(u64_sum(0, run)));
            lemma_u64_sum_concat(start, before, seq![partial]);
            lemma_u64_sum_concat(start, before.push(partial), after);
            lemma_u64_sum_concat(start, before, run);
            lemma_u64_sum_concat(start, before + run, after);
            lemma_wrap_u64_add(u64_sum(0, run), u64_sum(start, before) + u64_sum(0, after));
        },
    }
}

} // verus!
