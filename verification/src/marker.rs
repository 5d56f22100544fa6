//! The marker: a record in front of an aligned block that remembers where the
//! pool's own block begins.
//!
//! A marker is one address wide. It is stored byte by byte, least significant
//! byte first, so it may sit at any address and is read back the same way on
//! every machine.

use vstd::prelude::*;

verus! {

/// 256 to the power of `n`.
pub open spec fn pow256(n: nat) -> nat
    decreases n,
{
    if n == 0 {
        1
    } else {
        256 * pow256((n - 1) as nat)
    }
}

/// The `len` lowest digits of `value` in base 256, lowest first.
pub open spec fn le_bytes(value: nat, len: nat) -> Seq<u8> {
    Seq::new(len, |i: int| ((value / pow256(i as nat)) % 256) as u8)
}

/// The number whose digits in base 256 are `bytes`, lowest first.
pub open spec fn le_value(bytes: Seq<u8>) -> nat
    decreases bytes.len(),
{
    if bytes.len() == 0 {
        0
    } else {
        bytes[0] as nat + 256 * le_value(bytes.skip(1))
    }
}

/// The number of bytes a marker takes: the width of an address.
pub open spec fn marker_len() -> nat {
    (usize::BITS / 8) as nat
}

/// The bytes of the marker that remembers `native`.
pub open spec fn marker_bytes(native: usize) -> Seq<u8> {
    le_bytes(native as nat, marker_len())
}

/// `mem` with the marker for `native` in the bytes that end at `end`.
pub open spec fn with_marker(mem: Seq<u8>, end: int, native: usize) -> Seq<u8> {
    Seq::new(
        mem.len(),
        |i: int|
            if end - marker_len() <= i < end {
                marker_bytes(native)[i - (end - marker_len())]
            } else {
                mem[i]
            },
    )
}

/// The address remembered by the marker in the last bytes of `before`.
pub open spec fn marked_address(before: Seq<u8>) -> nat {
    le_value(before.subrange(before.len() - marker_len(), before.len() as int))
}

/// Every power of 256 is positive.
pub proof fn lemma_pow256_positive(n: nat)
    ensures
        pow256(n) > 0,
    decreases n,
{
    if n > 0 {
        lemma_pow256_positive((n - 1) as nat);
    }
}

/// As many bytes as a marker has hold exactly the addresses.
pub proof fn lemma_marker_holds_addresses()
    ensures
        pow256(marker_len()) == usize::MAX + 1,
        marker_len() == 4 || marker_len() == 8,
{
    reveal_with_fuel(pow256, 9);
    if usize::BITS == 32 {
        assert(pow256(4) == 0x1_0000_0000);
    } else {
        assert(usize::BITS == 64);
        assert(pow256(8) == 0x1_0000_0000_0000_0000);
    }
}

/// A number of `len` digits is below 256 to the power of `len`.
pub proof fn lemma_le_value_bound(bytes: Seq<u8>)
    ensures
        le_value(bytes) < pow256(bytes.len()),
    decreases bytes.len(),
{
    if bytes.len() > 0 {
        lemma_le_value_bound(bytes.skip(1));
    }
}

/// Dropping the lowest digit of `value` divides it by 256.
pub proof fn lemma_le_bytes_skip(value: nat, len: nat)
    requires
        len > 0,
    ensures
        le_bytes(value, len).skip(1) == le_bytes(value / 256, (len - 1) as nat),
{
    let a = le_bytes(value, len).skip(1);
    let b = le_bytes(value / 256, (len - 1) as nat);
    assert forall|i: int| 0 <= i < len - 1 implies a[i] == b[i] by {
        lemma_pow256_positive(i as nat);
        let p = pow256(i as nat) as int;
        assert(pow256((i + 1) as nat) == 256 * p);
        vstd::arithmetic::div_mod::lemma_div_denominator(value as int, 256, p);
        assert((value as int / 256) / p == value as int / (256 * p));
    }
    assert(a =~= b);
}

/// The digits of a number that fits in `len` digits give the number back.
pub proof fn lemma_le_round_trip(value: nat, len: nat)
    requires
        value < pow256(len),
    ensures
        le_value(le_bytes(value, len)) == value,
    decreases len,
{
    if len > 0 {
        lemma_le_bytes_skip(value, len);
        lemma_le_round_trip(value / 256, (len - 1) as nat);
        assert(le_bytes(value, len)[0] == (value % 256) as u8) by {
            assert(pow256(0) == 1);
            assert(le_bytes(value, len)[0] == ((value / pow256(0)) % 256) as u8);
        }
    }
}

/// A marker that was stored is read back as the address it remembers,
/// whatever stands in the bytes around it.
pub proof fn lemma_marker_round_trip(mem: Seq<u8>, end: int, native: usize)
    requires
        marker_len() <= end <= mem.len(),
    ensures
        marked_address(with_marker(mem, end, native).subrange(0, end)) == native,
{
    let before = with_marker(mem, end, native).subrange(0, end);
    let stored = before.subrange(before.len() - marker_len(), before.len() as int);
    assert(stored =~= marker_bytes(native));
    lemma_marker_holds_addresses();
    lemma_le_round_trip(native as nat, marker_len());
}

/// Higher powers of 256 are no smaller.
pub proof fn lemma_pow256_increases(a: nat, b: nat)
    requires
        a <= b,
    ensures
        pow256(a) <= pow256(b),
    decreases b,
{
    if a < b {
        lemma_pow256_increases(a, (b - 1) as nat);
    }
}

/// The number of bytes a marker takes: the width of an address.
pub fn marker_size() -> (width: usize)
    ensures
        width == marker_len(),
        width == 4 || width == 8,
{
    (usize::BITS / 8) as usize
}

/// Stores the marker for `native` in the bytes of `block` that end at `end`.
/// No other byte of `block` changes.
pub fn write_marker(block: &mut [u8], end: usize, native: usize)
    requires
        marker_len() <= end <= old(block)@.len(),
    ensures
        final(block)@ == with_marker(old(block)@, end as int, native),
{
    let width = marker_size();
    let start = end - width;
    let mut rest = native;
    let mut i: usize = 0;
    proof {
        assert(pow256(0) == 1);
    }
    while i < width
        invariant
            width == marker_len(),
            start + width == end,
            end <= block@.len(),
            i <= width,
            block@.len() == old(block)@.len(),
            rest == native as nat / pow256(i as nat),
            forall|j: int|
                0 <= j < block@.len() ==> block@[j] == if start <= j < start + i {
                    marker_bytes(native)[j - start]
                } else {
                    old(block)@[j]
                },
        decreases width - i,
    {
        proof {
            lemma_pow256_positive(i as nat);
            vstd::arithmetic::div_mod::lemma_div_denominator(
                native as int,
                pow256(i as nat) as int,
                256,
            );
        }
        block[start + i] = (rest % 256) as u8;
        rest = rest / 256;
        i += 1;
    }
    assert(block@ =~= with_marker(old(block)@, end as int, native));
}

/// Reads the address that the marker in the last bytes of `before` remembers.
pub fn read_marker(before: &[u8]) -> (native: usize)
    requires
        before@.len() >= marker_len(),
    ensures
        native == marked_address(before@),
{
    let width = marker_size();
    let len = before.len();
    let start = len - width;
    let mut value: usize = 0;
    let mut i: usize = width;
    while i > 0
        invariant
            width == marker_len(),
            start + width == len,
            len == before@.len(),
            i <= width,
            value == le_value(before@.subrange(start + i, len as int)),
        decreases i,
    {
        i -= 1;
        proof {
            let upper = before@.subrange(start + i + 1, len as int);
            let whole = before@.subrange(start + i as int, len as int);
            assert(whole.skip(1) =~= upper);
            lemma_le_value_bound(upper);
            lemma_pow256_increases((width - i) as nat, width as nat);
            lemma_marker_holds_addresses();
        }
        value = value * 256 + before[start + i] as usize;
    }
    assert(before@.subrange(start as int, len as int) =~= before@.subrange(
        before@.len() - marker_len(),
        before@.len() as int,
    ));
    value
}

} // verus!
