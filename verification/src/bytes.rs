//! Little-endian encoding of unsigned integers in byte sequences.
//!
//! The heap of the machine and the header of a program container both
//! store integers least significant byte first. This module says what
//! that means and reads and writes such integers at any offset.

use vstd::prelude::*;

verus! {

/// The number of values that `width` bytes can encode: 256 to the power
/// `width`.
pub open spec fn capacity(width: nat) -> nat
    decreases width,
{
    if width == 0 {
        1
    } else {
        256 * capacity((width - 1) as nat)
    }
}

/// The integer that the `width` bytes of `bytes` from index `at` on encode,
/// least significant byte first.
pub open spec fn le_value(bytes: Seq<u8>, at: int, width: nat) -> nat
    decreases width,
{
    if width == 0 {
        0
    } else {
        bytes[at] as nat + 256 * le_value(bytes, at + 1, (width - 1) as nat)
    }
}

/// Byte number `k` of `value`, counted from the least significant one.
pub open spec fn le_byte(value: nat, k: nat) -> u8
    decreases k,
{
    if k == 0 {
        (value % 256) as u8
    } else {
        le_byte(value / 256, (k - 1) as nat)
    }
}

/// `bytes` with the `width` bytes from index `at` on replaced by the
/// `width` low bytes of `value`, least significant byte first. Every other
/// byte stays as it is.
pub open spec fn le_store(bytes: Seq<u8>, at: int, width: nat, value: nat) -> Seq<u8> {
    Seq::new(
        bytes.len(),
        |i: int|
            if at <= i < at + width {
                le_byte(value, (i - at) as nat)
            } else {
                bytes[i]
            },
    )
}

/// `value` with its `k` low bytes dropped.
pub open spec fn shifted(value: nat, k: nat) -> nat
    decreases k,
{
    if k == 0 {
        value
    } else {
        shifted(value, (k - 1) as nat) / 256
    }
}

/// One, two, four and eight bytes hold exactly the values of `u8`, `u16`,
/// `u32` and `u64`.
pub proof fn lemma_capacity_of_widths()
    ensures
        capacity(0) == 1,
        capacity(1) == 0x100,
        capacity(2) == 0x1_0000,
        capacity(4) == 0x1_0000_0000,
        capacity(8) == 0x1_0000_0000_0000_0000,
{
    reveal_with_fuel(capacity, 9);
}

/// More bytes hold more values.
pub proof fn lemma_capacity_grows(narrow: nat, wide: nat)
    requires
        narrow <= wide,
    ensures
        0 < capacity(narrow) <= capacity(wide),
    decreases wide,
{
    if narrow < wide {
        lemma_capacity_grows(narrow, (wide - 1) as nat);
    } else if wide > 0 {
        lemma_capacity_grows((narrow - 1) as nat, (wide - 1) as nat);
    }
}

/// An encoded integer is below the capacity of its width.
pub proof fn lemma_le_value_bound(bytes: Seq<u8>, at: int, width: nat)
    ensures
        le_value(bytes, at, width) < capacity(width),
    decreases width,
{
    if width > 0 {
        lemma_le_value_bound(bytes, at + 1, (width - 1) as nat);
    }
}

/// The encoded integer depends on the bytes of its window only.
pub proof fn lemma_le_value_window(a: Seq<u8>, b: Seq<u8>, at: int, width: nat)
    requires
        forall|i: int| at <= i < at + width ==> a[i] == b[i],
    ensures
        le_value(a, at, width) == le_value(b, at, width),
    decreases width,
{
    if width > 0 {
        lemma_le_value_window(a, b, at + 1, (width - 1) as nat);
    }
}

/// A stretch cut out of the bytes encodes what it encoded in place.
pub proof fn lemma_le_value_of_subrange(bytes: Seq<u8>, from: int, to: int, at: int, width: nat)
    requires
        0 <= from <= to <= bytes.len(),
        0 <= at,
        from + at + width <= to,
    ensures
        le_value(bytes.subrange(from, to), at, width) == le_value(bytes, from + at, width),
    decreases width,
{
    if width > 0 {
        lemma_le_value_of_subrange(bytes, from, to, at + 1, (width - 1) as nat);
    }
}

/// Reading back what was stored, at the same offset and width, gives the
/// stored value.
pub proof fn lemma_le_store_then_value(bytes: Seq<u8>, at: int, width: nat, value: nat)
    requires
        0 <= at,
        at + width <= bytes.len(),
        value < capacity(width),
    ensures
        le_value(le_store(bytes, at, width, value), at, width) == value,
    decreases width,
{
    if width > 0 {
        let stored = le_store(bytes, at, width, value);
        let rest = le_store(bytes, at + 1, (width - 1) as nat, value / 256);
        assert forall|i: int| at + 1 <= i < at + width implies stored[i] == rest[i] by {
            assert(le_byte(value, (i - at) as nat) == le_byte(value / 256, (i - at - 1) as nat));
        }
        lemma_le_value_window(stored, rest, at + 1, (width - 1) as nat);
        lemma_le_store_then_value(bytes, at + 1, (width - 1) as nat, value / 256);
        assert(stored[at] == (value % 256) as u8);
    }
}

/// Dropping one low byte first and `k` more afterwards drops `k + 1`.
proof fn lemma_shifted_inner(value: nat, k: nat)
    ensures
        shifted(value / 256, k) == shifted(value, k + 1),
    decreases k,
{
    if k > 0 {
        lemma_shifted_inner(value, (k - 1) as nat);
    } else {
        assert(shifted(value, 1) == shifted(value, 0) / 256);
    }
}

/// Byte `k` is the lowest byte of what is left when `k` bytes are dropped.
proof fn lemma_le_byte_of_shifted(value: nat, k: nat)
    ensures
        le_byte(value, k) == (shifted(value, k) % 256) as u8,
    decreases k,
{
    if k > 0 {
        lemma_le_byte_of_shifted(value / 256, (k - 1) as nat);
        lemma_shifted_inner(value, (k - 1) as nat);
    }
}

/// Reads the integer that `width` bytes from index `at` on encode.
pub fn load_le(bytes: &Vec<u8>, at: usize, width: usize) -> (value: u64)
    requires
        width <= 8,
        at + width <= bytes.len(),
    ensures
        value == le_value(bytes@, at as int, width as nat),
{
    let mut value: u64 = 0;
    let mut k: usize = width;
    while k > 0
        invariant
            k <= width <= 8,
            at + width <= bytes.len(),
            value == le_value(bytes@, at + k, (width - k) as nat),
        decreases k,
    {
        proof {
            lemma_le_value_bound(bytes@, at + k, (width - k) as nat);
            lemma_capacity_grows((width - k + 1) as nat, 8);
            lemma_capacity_of_widths();
        }
        k -= 1;
        value = value * 256 + bytes[at + k] as u64;
    }
    value
}

/// Writes the `width` low bytes of `value` from index `at` on.
pub fn store_le(bytes: &mut Vec<u8>, at: usize, width: usize, value: u64)
    requires
        width <= 8,
        at + width <= old(bytes).len(),
    ensures
        final(bytes)@ == le_store(old(bytes)@, at as int, width as nat, value as nat),
{
    let mut rest: u64 = value;
    let mut k: usize = 0;
    while k < width
        invariant
            k <= width <= 8,
            at + width <= bytes.len(),
            rest == shifted(value as nat, k as nat),
            bytes@ == le_store(old(bytes)@, at as int, k as nat, value as nat),
        decreases width - k,
    {
        proof {
            lemma_le_byte_of_shifted(value as nat, k as nat);
        }
        bytes[at + k] = (rest % 256) as u8;
        rest = rest / 256;
        k += 1;
        assert(bytes@ =~= le_store(old(bytes)@, at as int, k as nat, value as nat));
    }
}

} // verus!
