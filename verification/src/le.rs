//! Little-endian scalars: how the wire lays out 16-, 32- and 64-bit values,
//! stated byte by byte, with the executable writers and readers.
//!
//! Byte `k` of a value `x` is `(x / 256^k) % 256`; the definitions below write
//! the division as `k` successive divisions by 256.

use vstd::prelude::*;

verus! {

/// `x` shifted down by `k` bytes.
pub open spec fn shifted(x: int, k: int) -> int
    decreases k,
{
    if k <= 0 {
        x
    } else {
        shifted(x, k - 1) / 256
    }
}

/// Byte `k` of `x`, counting from the low end.
pub open spec fn byte_of(x: int, k: int) -> u8 {
    (shifted(x, k) % 256) as u8
}

/// The value of the `n` bytes that start at `at` in `s`, low byte first.
pub open spec fn le_value(s: Seq<u8>, at: int, n: nat) -> int
    decreases n,
{
    if n == 0 {
        0
    } else {
        s[at] as int + 256 * le_value(s, at + 1, (n - 1) as nat)
    }
}

/// The two wire bytes of a 16-bit value, low byte first.
pub open spec fn le16(x: u16) -> Seq<u8> {
    Seq::new(2, |k: int| byte_of(x as int, k))
}

/// The four wire bytes of a 32-bit value, low byte first.
pub open spec fn le32(x: u32) -> Seq<u8> {
    Seq::new(4, |k: int| byte_of(x as int, k))
}

/// The eight wire bytes of a 64-bit value, low byte first.
pub open spec fn le64(x: u64) -> Seq<u8> {
    Seq::new(8, |k: int| byte_of(x as int, k))
}

/// The 16-bit value whose low byte stands at `at` in `s`.
pub open spec fn u16_at(s: Seq<u8>, at: int) -> u16 {
    le_value(s, at, 2) as u16
}

/// The 32-bit value whose low byte stands at `at` in `s`.
pub open spec fn u32_at(s: Seq<u8>, at: int) -> u32 {
    le_value(s, at, 4) as u32
}

/// The 64-bit value whose low byte stands at `at` in `s`.
pub open spec fn u64_at(s: Seq<u8>, at: int) -> u64 {
    le_value(s, at, 8) as u64
}

/// 256 to the power `n`.
pub open spec fn radix_pow(n: nat) -> int
    decreases n,
{
    if n == 0 {
        1
    } else {
        256 * radix_pow((n - 1) as nat)
    }
}

/// `n` bytes hold a value below `256^n`.
pub proof fn lemma_le_value_bound(s: Seq<u8>, at: int, n: nat)
    ensures
        0 <= le_value(s, at, n) < radix_pow(n),
    decreases n,
{
    if n > 0 {
        lemma_le_value_bound(s, at + 1, (n - 1) as nat);
    }
}

/// Shifting by one more byte divides once more, at either end.
pub proof fn lemma_shifted_step(x: int, k: int)
    requires
        0 <= k,
    ensures
        shifted(x, k + 1) == shifted(x / 256, k),
    decreases k,
{
    if k > 0 {
        lemma_shifted_step(x, k - 1);
    } else {
        assert(shifted(x, 1) == shifted(x, 0) / 256);
    }
}

/// The bytes that are read back from a value below `256^n` are that value:
/// if the `n` bytes at `at` are the bytes of `x`, their value is `x`.
pub proof fn lemma_value_of_bytes(x: int, s: Seq<u8>, at: int, n: nat)
    requires
        0 <= x < radix_pow(n),
        forall|k: int| 0 <= k < n ==> s[at + k] == #[trigger] byte_of(x, k),
    ensures
        le_value(s, at, n) == x,
    decreases n,
{
    if n > 0 {
        let m = (n - 1) as nat;
        assert(s[at] == byte_of(x, 0));
        assert forall|k: int| 0 <= k < m implies s[at + 1 + k] == #[trigger] byte_of(
            x / 256,
            k,
        ) by {
            assert(s[at + (k + 1)] == byte_of(x, k + 1));
            lemma_shifted_step(x, k);
        }
        lemma_value_of_bytes(x / 256, s, at + 1, m);
    }
}

/// The bytes of a value that was read are the bytes it was read from.
pub proof fn lemma_bytes_of_value(s: Seq<u8>, at: int, n: nat, k: int)
    requires
        0 <= k < n,
    ensures
        byte_of(le_value(s, at, n), k) == s[at + k],
    decreases n,
{
    let v = le_value(s, at, n);
    let rest = le_value(s, at + 1, (n - 1) as nat);
    lemma_le_value_bound(s, at + 1, (n - 1) as nat);
    assert(v % 256 == s[at] as int);
    assert(v / 256 == rest);
    if k > 0 {
        lemma_shifted_step(v, k - 1);
        lemma_bytes_of_value(s, at + 1, (n - 1) as nat, k - 1);
    }
}

/// Reading what was written gives the value back, wherever in a buffer the
/// bytes stand.
pub proof fn lemma_le16_round_trip(x: u16, s: Seq<u8>, at: int)
    requires
        0 <= at,
        at + 2 <= s.len(),
        s.subrange(at, at + 2) == le16(x),
    ensures
        u16_at(s, at) == x,
{
    assert(radix_pow(2) == 0x10000) by {
        reveal_with_fuel(radix_pow, 3);
    }
    assert forall|k: int| 0 <= k < 2 implies s[at + k] == #[trigger] byte_of(x as int, k) by {
        assert(s.subrange(at, at + 2)[k] == s[at + k]);
    }
    lemma_value_of_bytes(x as int, s, at, 2);
}

/// Writing what was read gives the same bytes back.
pub proof fn lemma_le16_of_read(s: Seq<u8>, at: int)
    requires
        0 <= at,
        at + 2 <= s.len(),
    ensures
        le16(u16_at(s, at)) == s.subrange(at, at + 2),
{
    assert(radix_pow(2) == 0x10000) by {
        reveal_with_fuel(radix_pow, 3);
    }
    lemma_le_value_bound(s, at, 2);
    assert forall|k: int| 0 <= k < 2 implies le16(u16_at(s, at))[k] == s.subrange(
        at,
        at + 2,
    )[k] by {
        lemma_bytes_of_value(s, at, 2, k);
    }
}

/// Reading what was written gives the value back, wherever in a buffer the
/// bytes stand.
pub proof fn lemma_le32_round_trip(x: u32, s: Seq<u8>, at: int)
    requires
        0 <= at,
        at + 4 <= s.len(),
        s.subrange(at, at + 4) == le32(x),
    ensures
        u32_at(s, at) == x,
{
    assert(radix_pow(4) == 0x100000000) by {
        reveal_with_fuel(radix_pow, 5);
    }
    assert forall|k: int| 0 <= k < 4 implies s[at + k] == #[trigger] byte_of(x as int, k) by {
        assert(s.subrange(at, at + 4)[k] == s[at + k]);
    }
    lemma_value_of_bytes(x as int, s, at, 4);
}

/// Writing what was read gives the same bytes back.
pub proof fn lemma_le32_of_read(s: Seq<u8>, at: int)
    requires
        0 <= at,
        at + 4 <= s.len(),
    ensures
        le32(u32_at(s, at)) == s.subrange(at, at + 4),
{
    assert(radix_pow(4) == 0x100000000) by {
        reveal_with_fuel(radix_pow, 5);
    }
    lemma_le_value_bound(s, at, 4);
    assert forall|k: int| 0 <= k < 4 implies le32(u32_at(s, at))[k] == s.subrange(
        at,
        at + 4,
    )[k] by {
        lemma_bytes_of_value(s, at, 4, k);
    }
}

/// Reading what was written gives the value back, wherever in a buffer the
/// bytes stand.
pub proof fn lemma_le64_round_trip(x: u64, s: Seq<u8>, at: int)
    requires
        0 <= at,
        at + 8 <= s.len(),
        s.subrange(at, at + 8) == le64(x),
    ensures
        u64_at(s, at) == x,
{
    assert(radix_pow(8) == 0x10000000000000000) by {
        reveal_with_fuel(radix_pow, 9);
    }
    assert forall|k: int| 0 <= k < 8 implies s[at + k] == #[trigger] byte_of(x as int, k) by {
        assert(s.subrange(at, at + 8)[k] == s[at + k]);
    }
    lemma_value_of_bytes(x as int, s, at, 8);
}

/// Writing what was read gives the same bytes back.
pub proof fn lemma_le64_of_read(s: Seq<u8>, at: int)
    requires
        0 <= at,
        at + 8 <= s.len(),
    ensures
        le64(u64_at(s, at)) == s.subrange(at, at + 8),
{
    assert(radix_pow(8) == 0x10000000000000000) by {
        reveal_with_fuel(radix_pow, 9);
    }
    lemma_le_value_bound(s, at, 8);
    assert forall|k: int| 0 <= k < 8 implies le64(u64_at(s, at))[k] == s.subrange(
        at,
        at + 8,
    )[k] by {
        lemma_bytes_of_value(s, at, 8, k);
    }
}

/// Appends the 2 wire bytes of `x`.
pub fn push_le16(out: &mut Vec<u8>, x: u16)
    ensures
        final(out)@ == old(out)@ + le16(x),
{
    let mut rest: u16 = x;
    let mut k: usize = 0;
    while k < 2
        invariant
            k <= 2,
            rest == shifted(x as int, k as int),
            out@.len() == old(out)@.len() + k,
            forall|i: int| 0 <= i < old(out)@.len() ==> out@[i] == old(out)@[i],
            forall|i: int| 0 <= i < k ==> out@[old(out)@.len() + i] == byte_of(x as int, i as int),
        decreases 2 - k,
    {
        out.push((rest % 256) as u8);
        rest = rest / 256;
        k = k + 1;
    }
}

/// Reads the 16-bit value whose low byte stands at `at`.
pub fn read_le16(buf: &[u8], at: usize) -> (x: u16)
    requires
        at + 2 <= buf@.len(),
    ensures
        x == u16_at(buf@, at as int),
{
    let len = buf.len();
    let mut x: u16 = 0;
    let mut k: usize = 2;
    proof {
        assert(radix_pow(2) == 0x10000) by {
            reveal_with_fuel(radix_pow, 3);
        }
    }
    while k > 0
        invariant
            k <= 2,
            at + 2 <= len,
            len == buf@.len(),
            x == le_value(buf@, at + k, (2 - k) as nat),
            radix_pow(2) == 0x10000,
        decreases k,
    {
        proof {
            lemma_le_value_bound(buf@, at + k, (2 - k) as nat);
            lemma_le_value_bound(buf@, at + k - 1, (2 - k + 1) as nat);
            lemma_radix_pow_monotonic((2 - k + 1) as nat, 2);
        }
        k = k - 1;
        x = buf[at + k] as u16 + 256 * x;
    }
    x
}

/// Appends the 4 wire bytes of `x`.
pub fn push_le32(out: &mut Vec<u8>, x: u32)
    ensures
        final(out)@ == old(out)@ + le32(x),
{
    let mut rest: u32 = x;
    let mut k: usize = 0;
    while k < 4
        invariant
            k <= 4,
            rest == shifted(x as int, k as int),
            out@.len() == old(out)@.len() + k,
            forall|i: int| 0 <= i < old(out)@.len() ==> out@[i] == old(out)@[i],
            forall|i: int| 0 <= i < k ==> out@[old(out)@.len() + i] == byte_of(x as int, i as int),
        decreases 4 - k,
    {
        out.push((rest % 256) as u8);
        rest = rest / 256;
        k = k + 1;
    }
}

/// Reads the 32-bit value whose low byte stands at `at`.
pub fn read_le32(buf: &[u8], at: usize) -> (x: u32)
    requires
        at + 4 <= buf@.len(),
    ensures
        x == u32_at(buf@, at as int),
{
    let len = buf.len();
    let mut x: u32 = 0;
    let mut k: usize = 4;
    proof {
        assert(radix_pow(4) == 0x100000000) by {
            reveal_with_fuel(radix_pow, 5);
        }
    }
    while k > 0
        invariant
            k <= 4,
            at + 4 <= len,
            len == buf@.len(),
            x == le_value(buf@, at + k, (4 - k) as nat),
            radix_pow(4) == 0x100000000,
        decreases k,
    {
        proof {
            lemma_le_value_bound(buf@, at + k, (4 - k) as nat);
            lemma_le_value_bound(buf@, at + k - 1, (4 - k + 1) as nat);
            lemma_radix_pow_monotonic((4 - k + 1) as nat, 4);
        }
        k = k - 1;
        x = buf[at + k] as u32 + 256 * x;
    }
    x
}

/// Appends the 8 wire bytes of `x`.
pub fn push_le64(out: &mut Vec<u8>, x: u64)
    ensures
        final(out)@ == old(out)@ + le64(x),
{
    let mut rest: u64 = x;
    let mut k: usize = 0;
    while k < 8
        invariant
            k <= 8,
            rest == shifted(x as int, k as int),
            out@.len() == old(out)@.len() + k,
            forall|i: int| 0 <= i < old(out)@.len() ==> out@[i] == old(out)@[i],
            forall|i: int| 0 <= i < k ==> out@[old(out)@.len() + i] == byte_of(x as int, i as int),
        decreases 8 - k,
    {
        out.push((rest % 256) as u8);
        rest = rest / 256;
        k = k + 1;
    }
}

/// Reads the 64-bit value whose low byte stands at `at`.
pub fn read_le64(buf: &[u8], at: usize) -> (x: u64)
    requires
        at + 8 <= buf@.len(),
    ensures
        x == u64_at(buf@, at as int),
{
    let len = buf.len();
    let mut x: u64 = 0;
    let mut k: usize = 8;
    proof {
        assert(radix_pow(8) == 0x10000000000000000) by {
            reveal_with_fuel(radix_pow, 9);
        }
    }
    while k > 0
        invariant
            k <= 8,
            at + 8 <= len,
            len == buf@.len(),
            x == le_value(buf@, at + k, (8 - k) as nat),
            radix_pow(8) == 0x10000000000000000,
        decreases k,
    {
        proof {
            lemma_le_value_bound(buf@, at + k, (8 - k) as nat);
            lemma_le_value_bound(buf@, at + k - 1, (8 - k + 1) as nat);
            lemma_radix_pow_monotonic((8 - k + 1) as nat, 8);
        }
        k = k - 1;
        x = buf[at + k] as u64 + 256 * x;
    }
    x
}

/// Powers of 256 grow with the exponent.
pub proof fn lemma_radix_pow_monotonic(a: nat, b: nat)
    requires
        a <= b,
    ensures
        0 < radix_pow(a) <= radix_pow(b),
    decreases b,
{
    if a < b {
        lemma_radix_pow_monotonic(a, (b - 1) as nat);
    } else if a > 0 {
        lemma_radix_pow_monotonic((a - 1) as nat, (b - 1) as nat);
    }
}

} // verus!
