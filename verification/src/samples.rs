//! The guest bodies of the sample host-callable functions: the computations
//! that run between the bridge's crossings.  An argument of `None` is SQL
//! NULL, and a `None` result reports SQL NULL back.

use vstd::prelude::*;

use crate::types::{bytea, text};
use crate::varlena::{encode_varlena, varlena_content, varlena_wf, Varlena};

verus! {

/// The sum of a byte buffer's values.
pub open spec fn byte_sum(s: Seq<u8>) -> int
    decreases s.len(),
{
    if s.len() == 0 {
        0
    } else {
        byte_sum(s.drop_last()) + s.last()
    }
}

/// Every byte is at most 255, so the sum is at most 255 per byte.
proof fn lemma_byte_sum_bound(s: Seq<u8>)
    ensures
        0 <= byte_sum(s) <= 255 * s.len(),
    decreases s.len(),
{
    if s.len() > 0 {
        lemma_byte_sum_bound(s.drop_last());
    }
}

/// Adds two integers, NULL if either is NULL.
pub fn bitadd_count(x: Option<i32>, y: Option<i32>) -> (r: Option<i32>)
    requires
        x matches Some(a) && y matches Some(b) ==> i32::MIN <= a + b <= i32::MAX,
    ensures
        r == (match (x, y) {
            (Some(a), Some(b)) => Some((a + b) as i32),
            _ => None::<i32>,
        }),
{
    match (x, y) {
        (Some(a), Some(b)) => Some(a + b),
        _ => None,
    }
}

/// Copies a byte string and appends one marker byte.
pub fn voidfun(input: &bytea) -> (r: bytea)
    requires
        varlena_wf(input.spec_bytes()),
        varlena_content(input.spec_bytes()).len() + 5 < 0x4000_0000,
    ensures
        varlena_wf(r.spec_bytes()),
        varlena_content(r.spec_bytes()) == varlena_content(input.spec_bytes()).push(42u8),
{
    let mut content = input.content();
    content.push(42);
    bytea::from_bytes(encode_varlena(content))
}

/// Sets bit `i` in a byte string treated as a bit set, growing it as needed;
/// NULL for a negative bit number.
pub fn rbitset_add(input: &bytea, i: i32) -> (r: Option<bytea>)
    requires
        varlena_wf(input.spec_bytes()),
    ensures
        i < 0 ==> r is None,
        i >= 0 ==> (r matches Some(out) && {
            let pre = varlena_content(input.spec_bytes());
            let post = varlena_content(out.spec_bytes());
            let byte_index = i / 8;
            &&& varlena_wf(out.spec_bytes())
            &&& post.len() == (if pre.len() >= byte_index + 1 {
                pre.len() as int
            } else {
                byte_index + 1
            })
            &&& forall|j: int|
                0 <= j < post.len() && j != byte_index ==> post[j] == (if j < pre.len() {
                    pre[j]
                } else {
                    0u8
                })
            &&& post[byte_index] == ((if byte_index < pre.len() {
                pre[byte_index]
            } else {
                0u8
            }) | (1u8 << ((i % 8) as u32)))
        }),
{
    if i < 0 {
        return None;
    }
    proof {
        crate::varlena::lemma_varlena_content_len(input.spec_bytes());
    }
    let byte_index: usize = (i / 8) as usize;
    let required_size: usize = byte_index + 1;
    let mut content = input.content();
    let ghost pre = content@;
    while content.len() < required_size
        invariant
            pre.len() <= content@.len(),
            content@.len() <= required_size || content@.len() == pre.len(),
            required_size <= 0x1000_0000,
            pre.len() + 5 <= 0x4000_0000,
            forall|j: int|
                0 <= j < content@.len() ==> content@[j] == (if j < pre.len() {
                    pre[j]
                } else {
                    0u8
                }),
        decreases required_size - content.len(),
    {
        content.push(0);
    }
    let shift: u32 = (i % 8) as u32;
    let updated: u8 = content[byte_index] | (1u8 << shift);
    content.set(byte_index, updated);
    Some(bytea::from_bytes(encode_varlena(content)))
}

/// Sums a byte string's bytes, then adds the integer argument and the demo
/// offset.
pub fn demo(input: &bytea, i: i32) -> (r: i64)
    requires
        varlena_wf(input.spec_bytes()),
    ensures
        r == byte_sum(varlena_content(input.spec_bytes())) + i + 42,
{
    proof {
        crate::varlena::lemma_varlena_content_len(input.spec_bytes());
    }
    let content = input.content();
    let n = content.len();
    proof {
        lemma_byte_sum_bound(content@);
        assert(content@.subrange(0, 0) =~= Seq::<u8>::empty());
    }
    let mut sum: i64 = 0;
    let mut idx: usize = 0;
    while idx < n
        invariant
            idx <= n,
            n == content@.len(),
            n < 0x4000_0000,
            sum == byte_sum(content@.subrange(0, idx as int)),
            0 <= sum <= 255 * idx,
        decreases n - idx,
    {
        proof {
            assert(content@.subrange(0, (idx + 1) as int).drop_last() =~= content@.subrange(
                0,
                idx as int,
            ));
            lemma_byte_sum_bound(content@.subrange(0, idx as int));
        }
        sum = sum + content[idx] as i64;
        idx = idx + 1;
    }
    proof {
        assert(content@.subrange(0, n as int) =~= content@);
    }
    sum + i as i64 + 42
}

/// The number of set bits in a byte.
pub open spec fn popcount(x: u8) -> int {
    ((x & 1) + ((x >> 1) & 1) + ((x >> 2) & 1) + ((x >> 3) & 1) + ((x >> 4) & 1) + ((x >> 5) & 1)
        + ((x >> 6) & 1) + ((x >> 7) & 1)) as int
}

/// The number of bit positions set in both buffers, over the overlap.
pub open spec fn and_count(s: Seq<u8>, t: Seq<u8>) -> int
    decreases s.len(),
{
    if s.len() == 0 || t.len() == 0 {
        0
    } else {
        popcount(s[0] & t[0]) + and_count(s.drop_first(), t.drop_first())
    }
}

/// A popcount is between zero and eight, and the joint count grows by at most
/// eight per byte of overlap.
proof fn lemma_and_count_bound(s: Seq<u8>, t: Seq<u8>)
    ensures
        0 <= and_count(s, t) <= 8 * s.len(),
    decreases s.len(),
{
    if s.len() != 0 && t.len() != 0 {
        let x: u8 = s[0];
        let y: u8 = t[0];
        assert(popcount(x & y) <= 8) by (bit_vector);
        assert(popcount(x & y) >= 0) by (bit_vector);
        lemma_and_count_bound(s.drop_first(), t.drop_first());
    }
}

/// Counts the set bits of one byte.
fn popcount8(x: u8) -> (r: u8)
    ensures
        r as int == popcount(x),
        r <= 8,
{
    proof {
        assert((x & 1) <= 1 && ((x >> 1) & 1) <= 1 && ((x >> 2) & 1) <= 1 && ((x >> 3) & 1) <= 1
            && ((x >> 4) & 1) <= 1 && ((x >> 5) & 1) <= 1 && ((x >> 6) & 1) <= 1 && ((x >> 7) & 1)
            <= 1) by (bit_vector);
    }
    (x & 1) + ((x >> 1) & 1) + ((x >> 2) & 1) + ((x >> 3) & 1) + ((x >> 4) & 1) + ((x >> 5) & 1) + (
    (x >> 6) & 1) + ((x >> 7) & 1)
}

/// Counts the bit positions set in both byte strings, over their overlap.
/// The result is reported as a plain integer, so the overlap must keep the
/// count within that type.
pub fn rbitand_count(a: &bytea, b: &bytea) -> (r: i32)
    requires
        varlena_wf(a.spec_bytes()),
        varlena_wf(b.spec_bytes()),
        8 * vstd::math::min(
            varlena_content(a.spec_bytes()).len() as int,
            varlena_content(b.spec_bytes()).len() as int,
        ) <= i32::MAX,
    ensures
        r == and_count(
            varlena_content(a.spec_bytes()),
            varlena_content(b.spec_bytes()),
        ),
{
    let ca = a.content();
    let cb = b.content();
    let n: usize = if ca.len() < cb.len() {
        ca.len()
    } else {
        cb.len()
    };
    proof {
        crate::varlena::lemma_varlena_content_len(a.spec_bytes());
        lemma_and_count_bound(ca@, cb@);
        assert(ca@.skip(0) =~= ca@);
        assert(cb@.skip(0) =~= cb@);
    }
    let mut sum: u64 = 0;
    let mut i: usize = 0;
    while i < n
        invariant
            i <= n,
            n <= ca@.len(),
            n <= cb@.len(),
            8 * n <= i32::MAX,
            sum <= 8 * i,
            sum + and_count(ca@.skip(i as int), cb@.skip(i as int)) == and_count(ca@, cb@),
        decreases n - i,
    {
        proof {
            assert(ca@.skip(i as int).drop_first() =~= ca@.skip(i as int + 1));
            assert(cb@.skip(i as int).drop_first() =~= cb@.skip(i as int + 1));
            assert(ca@.skip(i as int)[0] == ca@[i as int]);
            assert(cb@.skip(i as int)[0] == cb@[i as int]);
            lemma_and_count_bound(ca@.skip(i as int + 1), cb@.skip(i as int + 1));
        }
        sum = sum + popcount8(ca[i] & cb[i]) as u64;
        i = i + 1;
    }
    proof {
        if ca@.len() <= cb@.len() {
            assert(ca@.skip(n as int) =~= Seq::<u8>::empty());
        } else {
            assert(cb@.skip(n as int) =~= Seq::<u8>::empty());
        }
        lemma_and_count_bound(ca@, cb@);
    }
    sum as i32
}

/// Whether every byte is a decimal digit.
pub open spec fn all_digits(s: Seq<u8>) -> bool {
    forall|i: int| 0 <= i < s.len() ==> 48 <= #[trigger] s[i] <= 57
}

/// The value of a string of decimal digits, most significant first.
pub open spec fn digits_value(s: Seq<u8>) -> int
    decreases s.len(),
{
    if s.len() == 0 {
        0
    } else {
        digits_value(s.drop_last()) * 10 + (s.last() - 48)
    }
}

/// What parsing an optional sign followed by digits yields, `None` for an
/// empty digit string, a non-digit, or a value outside the 32-bit range.
pub open spec fn parse_digits(ds: Seq<u8>, neg: bool) -> Option<i32> {
    if ds.len() == 0 || !all_digits(ds) {
        None
    } else {
        let v = if neg {
            -digits_value(ds)
        } else {
            digits_value(ds)
        };
        if i32::MIN <= v <= i32::MAX {
            Some(v as i32)
        } else {
            None
        }
    }
}

/// What parsing bytes as a signed 32-bit decimal integer yields.
pub open spec fn spec_parse_int4(s: Seq<u8>) -> Option<i32> {
    if s.len() > 0 && (s[0] == 45 || s[0] == 43) {
        parse_digits(s.drop_first(), s[0] == 45)
    } else {
        parse_digits(s, false)
    }
}

/// A digit string's value is never negative.
proof fn lemma_digits_nonneg(s: Seq<u8>)
    requires
        all_digits(s),
    ensures
        digits_value(s) >= 0,
    decreases s.len(),
{
    if s.len() > 0 {
        assert(all_digits(s.drop_last()));
        lemma_digits_nonneg(s.drop_last());
    }
}

/// Appending digits never shrinks the value.
proof fn lemma_digits_grow(ds: Seq<u8>, j: int)
    requires
        all_digits(ds),
        0 <= j <= ds.len(),
    ensures
        digits_value(ds) >= digits_value(ds.subrange(0, j)),
    decreases ds.len() - j,
{
    if j == ds.len() {
        assert(ds.subrange(0, j) =~= ds);
    } else {
        assert(ds.subrange(0, j + 1).drop_last() =~= ds.subrange(0, j));
        assert(all_digits(ds.subrange(0, j)));
        lemma_digits_nonneg(ds.subrange(0, j));
        lemma_digits_grow(ds, j + 1);
    }
}

/// Parses bytes as a signed 32-bit decimal integer: an optional sign, then
/// digits; `None` on anything else or on overflow.
pub fn parse_int4(s: &Vec<u8>) -> (r: Option<i32>)
    ensures
        r == spec_parse_int4(s@),
{
    let n = s.len();
    let neg: bool = n > 0 && s[0] == 45;
    let start: usize = if n > 0 && (s[0] == 45 || s[0] == 43) {
        1
    } else {
        0
    };
    proof {
        if start == 1 {
            assert(s@.drop_first() =~= s@.subrange(1, n as int));
        } else {
            assert(s@.subrange(0, n as int) =~= s@);
        }
    }
    let ghost ds = s@.subrange(start as int, n as int);
    if start >= n {
        // no digits at all
        return None;
    }
    let mut acc: i64 = 0;
    let mut i: usize = start;
    while i < n
        invariant
            start <= i <= n,
            n == s@.len(),
            ds == s@.subrange(start as int, n as int),
            neg == (s@.len() > 0 && s@[0] == 45),
            (s@.len() > 0 && (s@[0] == 45 || s@[0] == 43)) ==> start == 1 && ds
                == s@.drop_first(),
            !(s@.len() > 0 && (s@[0] == 45 || s@[0] == 43)) ==> start == 0 && ds == s@,
            all_digits(s@.subrange(start as int, i as int)),
            acc == digits_value(s@.subrange(start as int, i as int)),
            0 <= acc <= 0x8000_0000,
        decreases n - i,
    {
        let c = s[i];
        proof {
            assert(s@.subrange(start as int, i as int + 1).drop_last() =~= s@.subrange(
                start as int,
                i as int,
            ));
        }
        if c < 48 || c > 57 {
            // a non-digit anywhere makes the whole string unparsable
            proof {
                assert(ds[i - start] == c);
                assert(!all_digits(ds));
            }
            return None;
        }
        acc = acc * 10 + (c - 48) as i64;
        if acc > 0x8000_0000 {
            // the magnitude is already beyond the 32-bit range, whatever the
            // sign, and trailing digits can only grow it
            proof {
                if all_digits(ds) {
                    assert(s@.subrange(start as int, i as int + 1) =~= ds.subrange(
                        0,
                        i - start + 1,
                    ));
                    lemma_digits_grow(ds, i - start + 1);
                }
            }
            return None;
        }
        i = i + 1;
    }
    proof {
        assert(s@.subrange(start as int, n as int) =~= ds);
    }
    if !neg && acc > 0x7FFF_FFFF {
        return None;
    }
    if neg {
        Some((-acc) as i32)
    } else {
        Some(acc as i32)
    }
}

/// What adding two parsed character strings yields: both must be readable
/// under the encoding and parse as 32-bit integers, and the sum is theirs.
pub open spec fn spec_ptext(a: Seq<u8>, b: Seq<u8>, encoding: i32) -> Option<i32> {
    match (crate::types::spec_to_str(a, encoding), crate::types::spec_to_str(b, encoding)) {
        (Some(sa), Some(sb)) => match (spec_parse_int4(sa), spec_parse_int4(sb)) {
            (Some(va), Some(vb)) => Some((va + vb) as i32),
            _ => None,
        },
        _ => None,
    }
}

/// Parses two character strings as 32-bit integers and adds them; NULL if
/// either is unreadable under the encoding or fails to parse.  Callers keep
/// the sum within the 32-bit range.
pub fn ptext(a: &text, b: &text, encoding: i32) -> (r: Option<i32>)
    requires
        varlena_wf(a.spec_bytes()),
        varlena_wf(b.spec_bytes()),
        (match (
            crate::types::spec_to_str(varlena_content(a.spec_bytes()), encoding),
            crate::types::spec_to_str(varlena_content(b.spec_bytes()), encoding),
        ) {
            (Some(sa), Some(sb)) => match (spec_parse_int4(sa), spec_parse_int4(sb)) {
                (Some(va), Some(vb)) => i32::MIN <= va + vb <= i32::MAX,
                _ => true,
            },
            _ => true,
        }),
    ensures
        r == spec_ptext(
            varlena_content(a.spec_bytes()),
            varlena_content(b.spec_bytes()),
            encoding,
        ),
{
    let sa = match a.to_str(encoding) {
        Some(v) => v,
        None => {
            return None;
        },
    };
    let sb = match b.to_str(encoding) {
        Some(v) => v,
        None => {
            return None;
        },
    };
    let va = match parse_int4(&sa) {
        Some(v) => v,
        None => {
            return None;
        },
    };
    let vb = match parse_int4(&sb) {
        Some(v) => v,
        None => {
            return None;
        },
    };
    Some(va + vb)
}

/// Passes a value through unchanged.
pub fn spass(a: bytea) -> (r: bytea)
    ensures
        r == a,
{
    a
}

} // verus!
