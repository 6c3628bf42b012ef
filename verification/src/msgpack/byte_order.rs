//! Big-endian representation of numbers as byte sequences.
//!
//! Everything on the wire is big-endian: the first byte of a value is its most
//! significant one, whatever the byte order of the machine that runs the code.
use vstd::prelude::*;

verus! {

/// The number of values that `width` bytes can tell apart: 256 to the power `width`.
pub open spec fn radix(width: nat) -> nat
    decreases width,
{
    if width == 0 {
        1
    } else {
        256 * radix((width - 1) as nat)
    }
}

/// The number that `bytes` denote when read most significant byte first.
pub open spec fn be_value(bytes: Seq<u8>) -> nat
    decreases bytes.len(),
{
    if bytes.len() == 0 {
        0
    } else {
        256 * be_value(bytes.drop_last()) + bytes.last() as nat
    }
}

/// The `width` bytes that denote `value`, most significant byte first. A value
/// that does not fit loses its high part: the bytes denote `value % radix(width)`.
pub open spec fn be_bytes(value: nat, width: nat) -> Seq<u8>
    decreases width,
{
    if width == 0 {
        Seq::empty()
    } else {
        be_bytes(value / 256, (width - 1) as nat).push((value % 256) as u8)
    }
}

/// The two's complement reading of a `width`-byte pattern.
pub open spec fn signed_of(pattern: nat, width: nat) -> int {
    if 2 * pattern >= radix(width) {
        pattern - radix(width)
    } else {
        pattern as int
    }
}

/// The `width`-byte two's complement pattern of `value`.
pub open spec fn pattern_of(value: int, width: nat) -> nat {
    if value < 0 {
        (value + radix(width)) as nat
    } else {
        value as nat
    }
}

/// `storage` with the bytes from position `at` on replaced by `bytes`. Positions
/// outside `storage` do not exist: the result is as long as `storage`.
pub open spec fn overwrite(storage: Seq<u8>, at: int, bytes: Seq<u8>) -> Seq<u8> {
    Seq::new(
        storage.len(),
        |i: int|
            if at <= i < at + bytes.len() {
                bytes[i - at]
            } else {
                storage[i]
            },
    )
}

/// The values of `radix` for the widths that the typed accessors use.
pub proof fn lemma_radix_table()
    ensures
        radix(0) == 1,
        radix(1) == 0x100,
        radix(2) == 0x1_0000,
        radix(3) == 0x100_0000,
        radix(4) == 0x1_0000_0000,
        radix(5) == 0x100_0000_0000,
        radix(6) == 0x1_0000_0000_0000,
        radix(7) == 0x100_0000_0000_0000,
        radix(8) == 0x1_0000_0000_0000_0000,
{
    reveal_with_fuel(radix, 9);
}

/// `radix` is never zero.
pub proof fn lemma_radix_positive(width: nat)
    ensures
        radix(width) > 0,
    decreases width,
{
    if width > 0 {
        lemma_radix_positive((width - 1) as nat);
    }
}

/// `be_bytes` yields exactly `width` bytes.
pub proof fn lemma_be_bytes_len(value: nat, width: nat)
    ensures
        be_bytes(value, width).len() == width,
    decreases width,
{
    if width > 0 {
        lemma_be_bytes_len(value / 256, (width - 1) as nat);
    }
}

/// What `bytes` denote is below `radix(bytes.len())`.
pub proof fn lemma_be_value_bound(bytes: Seq<u8>)
    ensures
        be_value(bytes) < radix(bytes.len()),
    decreases bytes.len(),
{
    if bytes.len() > 0 {
        lemma_be_value_bound(bytes.drop_last());
    }
}

/// Decoding what was encoded gives the value back, as far as it fits the width.
pub proof fn lemma_decode_encode(value: nat, width: nat)
    ensures
        be_value(be_bytes(value, width)) == value % radix(width),
        value < radix(width) ==> be_value(be_bytes(value, width)) == value,
    decreases width,
{
    if width == 0 {
        assert(be_bytes(value, width).len() == 0);
    } else {
        let w: nat = (width - 1) as nat;
        let head = be_bytes(value / 256, w);
        let all = be_bytes(value, width);
        lemma_decode_encode(value / 256, w);
        assert(all.drop_last() =~= head);
        assert(all.last() == (value % 256) as u8);
        assert(be_value(all) == 256 * ((value / 256) % radix(w)) + value % 256);
        lemma_radix_positive(w);
        lemma_split_low_byte(value, radix(w));
    }
    if value < radix(width) {
        vstd::arithmetic::div_mod::lemma_small_mod(value, radix(width));
    }
}

/// Taking a number modulo `256 * r` is taking its low byte and the rest modulo `r`.
proof fn lemma_split_low_byte(value: nat, r: nat)
    requires
        r > 0,
    ensures
        value % (256 * r) == 256 * ((value / 256) % r) + value % 256,
{
    let q: nat = value / 256;
    vstd::arithmetic::div_mod::lemma_fundamental_div_mod(value as int, 256);
    vstd::arithmetic::div_mod::lemma_fundamental_div_mod(q as int, r as int);
    let qq: int = (q as int) / (r as int);
    let low: int = 256 * ((q % r) as int) + (value % 256) as int;
    assert(value == qq * (256 * r) + low) by (nonlinear_arith)
        requires
            value == 256 * q + value % 256,
            q == r * qq + q % r,
            low == 256 * ((q % r) as int) + (value % 256) as int,
    ;
    assert(0 <= low < 256 * r) by (nonlinear_arith)
        requires
            low == 256 * ((q % r) as int) + (value % 256) as int,
            0 <= (q % r) < r,
            0 <= value % 256 < 256,
    ;
    vstd::arithmetic::div_mod::lemma_fundamental_div_mod_converse(
        value as int,
        (256 * r) as int,
        qq,
        low,
    );
}

/// Encoding what was decoded, in as many bytes, gives the bytes back.
pub proof fn lemma_encode_decode(bytes: Seq<u8>)
    ensures
        be_bytes(be_value(bytes), bytes.len()) == bytes,
    decreases bytes.len(),
{
    if bytes.len() == 0 {
        assert(be_bytes(be_value(bytes), bytes.len()) =~= bytes);
    } else {
        let head = bytes.drop_last();
        let value = be_value(bytes);
        lemma_encode_decode(head);
        assert(value == 256 * be_value(head) + bytes.last() as nat);
        assert(value / 256 == be_value(head) && value % 256 == bytes.last() as nat) by {
            vstd::arithmetic::div_mod::lemma_fundamental_div_mod_converse(
                value as int,
                256,
                be_value(head) as int,
                bytes.last() as int,
            );
        }
        assert(be_bytes(value, bytes.len()) =~= head.push(bytes.last()));
        assert(head.push(bytes.last()) =~= bytes);
    }
}

/// A signed value within the range of its width comes back from its pattern.
pub proof fn lemma_signed_of_pattern(value: int, width: nat)
    requires
        -(radix(width) as int) <= 2 * value < radix(width),
    ensures
        pattern_of(value, width) < radix(width),
        signed_of(pattern_of(value, width), width) == value,
{
}

/// A pattern within the range of its width comes back from its signed reading.
pub proof fn lemma_pattern_of_signed(pattern: nat, width: nat)
    requires
        pattern < radix(width),
    ensures
        -(radix(width) as int) <= 2 * signed_of(pattern, width) < radix(width),
        pattern_of(signed_of(pattern, width), width) == pattern,
{
}

/// `radix(width)` as a machine number.
fn radix_of(width: usize) -> (r: u128)
    requires
        width <= 8,
    ensures
        r == radix(width as nat),
{
    let mut r: u128 = 1;
    let mut i: usize = 0;
    while i < width
        invariant
            width <= 8,
            i <= width,
            r == radix(i as nat),
        decreases width - i,
    {
        proof {
            lemma_radix_table();
        }
        r = r * 256;
        i = i + 1;
    }
    r
}

/// The two's complement reading of a `width`-byte pattern.
pub(crate) fn signed_from_pattern(pattern: u64, width: usize) -> (value: i64)
    requires
        1 <= width <= 8,
        pattern < radix(width as nat),
    ensures
        value == signed_of(pattern as nat, width as nat),
        -(radix(width as nat) as int) <= 2 * value < radix(width as nat),
{
    proof {
        lemma_radix_table();
    }
    let r: u128 = radix_of(width);
    if 2 * (pattern as u128) >= r {
        (pattern as i128 - r as i128) as i64
    } else {
        pattern as i64
    }
}

/// The `width`-byte two's complement pattern of `value`.
pub(crate) fn pattern_from_signed(value: i64, width: usize) -> (pattern: u64)
    requires
        1 <= width <= 8,
        -(radix(width as nat) as int) <= 2 * value < radix(width as nat),
    ensures
        pattern == pattern_of(value as int, width as nat),
        pattern < radix(width as nat),
{
    proof {
        lemma_radix_table();
    }
    if value < 0 {
        let r: u128 = radix_of(width);
        (value as i128 + r as i128) as u64
    } else {
        value as u64
    }
}

/// The number that the `width` bytes of `bytes` from position `at` on denote.
pub(crate) fn read_be(bytes: &Vec<u8>, at: usize, width: usize) -> (value: u64)
    requires
        width <= 8,
        at + width <= bytes.len(),
    ensures
        value == be_value(bytes@.subrange(at as int, at + width)),
        value < radix(width as nat),
{
    let mut value: u64 = 0;
    let mut i: usize = 0;
    proof {
        lemma_radix_table();
    }
    while i < width
        invariant
            width <= 8,
            at + width <= bytes.len(),
            i <= width,
            value == be_value(bytes@.subrange(at as int, at + i)),
            value < radix(i as nat),
        decreases width - i,
    {
        let byte: u8 = bytes[at + i];
        proof {
            lemma_radix_table();
            let longer = bytes@.subrange(at as int, at + i + 1);
            assert(longer.drop_last() =~= bytes@.subrange(at as int, at + i));
            assert(longer.last() == byte);
            assert(radix(i as nat) <= radix(7));
        }
        value = value * 256 + byte as u64;
        i = i + 1;
    }
    value
}

/// Puts the `width` bytes that denote `value` at position `at` of `bytes`.
pub(crate) fn write_be(bytes: &mut Vec<u8>, at: usize, width: usize, value: u64)
    requires
        width <= 8,
        at + width <= old(bytes).len(),
    ensures
        final(bytes)@ == overwrite(old(bytes)@, at as int, be_bytes(value as nat, width as nat)),
{
    let mut rest: u64 = value;
    let mut i: usize = width;
    proof {
        lemma_be_bytes_len(value as nat, width as nat);
        assert(be_bytes(rest as nat, i as nat) + bytes@.subrange(at + i, at + width) =~= be_bytes(
            value as nat,
            width as nat,
        ));
    }
    while i > 0
        invariant
            width <= 8,
            i <= width,
            at + width <= old(bytes).len(),
            bytes.len() == old(bytes).len(),
            forall|j: int|
                0 <= j < bytes@.len() && !(at + i <= j < at + width) ==> bytes@[j] == old(bytes)@[j],
            be_bytes(rest as nat, i as nat) + bytes@.subrange(at + i, at + width) == be_bytes(
                value as nat,
                width as nat,
            ),
        decreases i,
    {
        let ghost before = bytes@;
        let low: u8 = (rest % 256) as u8;
        i = i - 1;
        bytes[at + i] = low;
        proof {
            lemma_be_bytes_len(rest as nat, (i + 1) as nat);
            lemma_be_bytes_len((rest / 256) as nat, i as nat);
            assert(bytes@.subrange(at + i, at + width) =~= seq![low] + before.subrange(
                at + i + 1,
                at + width,
            ));
            assert(be_bytes(rest as nat, (i + 1) as nat) =~= be_bytes((rest / 256) as nat, i as nat).push(
                low,
            ));
            assert(be_bytes((rest / 256) as nat, i as nat) + bytes@.subrange(at + i, at + width)
                =~= be_bytes(rest as nat, (i + 1) as nat) + before.subrange(at + i + 1, at + width));
        }
        rest = rest / 256;
    }
    proof {
        lemma_be_bytes_len(value as nat, width as nat);
        assert(be_bytes(rest as nat, 0) =~= Seq::<u8>::empty());
        assert(bytes@.subrange(at as int, at + width) =~= be_bytes(value as nat, width as nat));
        assert forall|j: int| 0 <= j < bytes@.len() implies bytes@[j] == overwrite(
            old(bytes)@,
            at as int,
            be_bytes(value as nat, width as nat),
        )[j] by {
            if at <= j < at + width {
                assert(bytes@[j] == bytes@.subrange(at as int, at + width)[j - at]);
            }
        }
        assert(bytes@ =~= overwrite(old(bytes)@, at as int, be_bytes(value as nat, width as nat)));
    }
}

} // verus!
