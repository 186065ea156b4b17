//! Pure conversions from source-native units into the canonical unit
//! system: bytes for memory, millidegrees Celsius for temperature, 0-100
//! integer percent for load, and the sentinel `0` for anything a source
//! cannot deliver.

use vstd::prelude::*;

verus! {

/// Largest whole-degree Celsius reading whose millidegree form still fits
/// in a `u32`.
pub const MAX_WHOLE_CELSIUS: u32 = 4294967;

/// Celsius to millidegrees: multiply by 1000.  Only the Nvidia management
/// library reports whole degrees; every other source already reports the
/// canonical unit.
pub fn celsius_to_millidegrees(celsius: u32) -> (r: u32)
    requires
        celsius <= MAX_WHOLE_CELSIUS,
    ensures
        r == celsius * 1000,
{
    celsius * 1000
}

/// A fractional counter reading rounded to the nearest whole count, with
/// halves rounded up.  The reading is given in thousandths of a unit, the
/// finest granularity the formatted performance-counter path produces.
pub open spec fn rounded_from_thousandths(v: u64) -> int {
    (v + 500) / 1000
}

/// Round a formatted performance-counter reading, given in thousandths of
/// a unit, to the nearest whole count.
pub fn round_counter_thousandths(v: u64) -> (r: u64)
    requires
        v <= u64::MAX - 500,
    ensures
        r == rounded_from_thousandths(v),
{
    (v + 500) / 1000
}

/// The whole count a formatted-counter read yields once the sentinel is
/// applied: `0` when the read failed outright, and the rounded reading
/// otherwise.  A reading too large to round without overflow is treated as
/// a failed read.
pub open spec fn rounded_or_zero(v: Option<u64>) -> int {
    match v {
        Some(x) => if x <= u64::MAX - 500 {
            rounded_from_thousandths(x)
        } else {
            0
        },
        None => 0,
    }
}

/// The 32-bit truncation the native paths apply to wide counter readings.
pub open spec fn truncated_u32(v: u64) -> u32 {
    (v % 0x1_0000_0000) as u32
}

/// Truncate a wide counter reading to 32 bits, as the native paths do.
pub fn truncate_u32(v: u64) -> (r: u32)
    ensures
        r == truncated_u32(v),
{
    (v % 0x1_0000_0000) as u32
}

/// The canonical load percentage for a native reading: the 0-100 integer
/// percent range, with a reading above it clamped to the bound.
pub open spec fn clamped_pct(v: u32) -> u32 {
    if v <= 100 {
        v
    } else {
        100
    }
}

/// Clamp a native load reading into the canonical 0-100 percent range.
pub fn clamp_pct(v: u32) -> (r: u32)
    ensures
        r == clamped_pct(v),
{
    if v <= 100 {
        v
    } else {
        100
    }
}

/// The total half of a (total, used) memory reading, or the sentinel `0`
/// when the read failed.
pub open spec fn total_or_zero(v: Option<(u64, u64)>) -> u64 {
    match v {
        Some(p) => p.0,
        None => 0,
    }
}

/// The used half of a (total, used) memory reading, or the sentinel `0`
/// when the read failed.
pub open spec fn used_or_zero(v: Option<(u64, u64)>) -> u64 {
    match v {
        Some(p) => p.1,
        None => 0,
    }
}

/// Hand out the total half of a memory reading, with the sentinel for a
/// failed read.
pub fn sentinel_total_or_zero(v: Option<(u64, u64)>) -> (r: u64)
    ensures
        r == total_or_zero(v),
{
    match v {
        Some(p) => p.0,
        None => 0,
    }
}

/// Hand out the used half of a memory reading, with the sentinel for a
/// failed read.
pub fn sentinel_used_or_zero(v: Option<(u64, u64)>) -> (r: u64)
    ensures
        r == used_or_zero(v),
{
    match v {
        Some(p) => p.1,
        None => 0,
    }
}

/// The metric value an accessor hands out: the reading when the source
/// delivered one, and the sentinel `0` when it did not.
pub open spec fn or_zero_u64(v: Option<u64>) -> u64 {
    match v {
        Some(x) => x,
        None => 0,
    }
}

/// See [`or_zero_u64`].
pub open spec fn or_zero_u32(v: Option<u32>) -> u32 {
    match v {
        Some(x) => x,
        None => 0,
    }
}

/// Replace a failed or unsupported read by the sentinel `0`.
pub fn sentinel_or_u64(v: Option<u64>) -> (r: u64)
    ensures
        r == or_zero_u64(v),
{
    match v {
        Some(x) => x,
        None => 0,
    }
}

/// Replace a failed or unsupported read by the sentinel `0`.
pub fn sentinel_or_u32(v: Option<u32>) -> (r: u32)
    ensures
        r == or_zero_u32(v),
{
    match v {
        Some(x) => x,
        None => 0,
    }
}

/// The lowercase hex digit for a value below 16.
pub open spec fn hex_digit(n: u8) -> char {
    if n == 0 {
        '0'
    } else if n == 1 {
        '1'
    } else if n == 2 {
        '2'
    } else if n == 3 {
        '3'
    } else if n == 4 {
        '4'
    } else if n == 5 {
        '5'
    } else if n == 6 {
        '6'
    } else if n == 7 {
        '7'
    } else if n == 8 {
        '8'
    } else if n == 9 {
        '9'
    } else if n == 10 {
        'a'
    } else if n == 11 {
        'b'
    } else if n == 12 {
        'c'
    } else if n == 13 {
        'd'
    } else if n == 14 {
        'e'
    } else {
        'f'
    }
}

/// One byte as two lowercase hex digits.
pub open spec fn hex_byte_chars(b: u8) -> Seq<char> {
    seq![hex_digit(b / 16), hex_digit(b % 16)]
}

/// A byte sequence as hex digits, two per byte, in sequence order.
pub open spec fn hex_chars(s: Seq<u8>) -> Seq<char>
    decreases s.len(),
{
    if s.len() == 0 {
        Seq::empty()
    } else {
        hex_byte_chars(s[0]) + hex_chars(s.drop_first())
    }
}

/// A byte sequence with its leading zero bytes removed.
pub open spec fn strip_leading_zero_bytes(s: Seq<u8>) -> Seq<u8>
    decreases s.len(),
{
    if s.len() == 0 {
        s
    } else if s[0] == 0 {
        strip_leading_zero_bytes(s.drop_first())
    } else {
        s
    }
}

/// The display form of a byte-order-reversed numeric identifier: the bytes
/// reversed, leading zero bytes dropped entirely rather than padded, and
/// each remaining byte rendered as two lowercase hex digits.
pub open spec fn reversed_hex(bytes: Seq<u8>) -> Seq<char> {
    hex_chars(strip_leading_zero_bytes(bytes.reverse()))
}

/// The lowercase hex digit for a value below 16.
pub fn hex_digit_char(n: u8) -> (r: char)
    requires
        n < 16,
    ensures
        r == hex_digit(n),
{
    match n {
        0 => '0',
        1 => '1',
        2 => '2',
        3 => '3',
        4 => '4',
        5 => '5',
        6 => '6',
        7 => '7',
        8 => '8',
        9 => '9',
        10 => 'a',
        11 => 'b',
        12 => 'c',
        13 => 'd',
        14 => 'e',
        _ => 'f',
    }
}

/// Relies on `String::push`: appends exactly one character to the string.
#[verifier::external_body]
fn push_char(s: &mut String, c: char)
    ensures
        final(s)@ == old(s)@.push(c),
{
    s.push(c);
}

proof fn lemma_reverse_drop_first(s: Seq<u8>)
    requires
        s.len() > 0,
    ensures
        s.reverse().drop_first() == s.take(s.len() - 1).reverse(),
{
    assert(s.reverse().drop_first() =~= s.take(s.len() - 1).reverse());
}

proof fn lemma_strip_reverse(s: Seq<u8>, end: int)
    requires
        0 <= end <= s.len(),
        forall|j: int| end <= j < s.len() ==> s[j] == 0,
        end > 0 ==> s[end - 1] != 0,
    ensures
        strip_leading_zero_bytes(s.reverse()) == s.take(end).reverse(),
    decreases s.len(),
{
    if s.len() == end {
        assert(s.take(end) =~= s);
        if end == 0 {
            assert(s.reverse() =~= s);
        }
    } else {
        assert(s.reverse()[0] == s[s.len() - 1]);
        lemma_reverse_drop_first(s);
        assert(s.take(s.len() - 1).take(end) =~= s.take(end));
        lemma_strip_reverse(s.take(s.len() - 1), end);
    }
}

proof fn lemma_hex_chars_push(s: Seq<u8>, b: u8)
    ensures
        hex_chars(s.push(b)) == hex_chars(s) + hex_byte_chars(b),
    decreases s.len(),
{
    if s.len() == 0 {
        assert(s =~= Seq::<u8>::empty());
        assert(hex_chars(Seq::<u8>::empty()) == Seq::<char>::empty());
        assert(s.push(b)[0] == b);
        assert(s.push(b).drop_first() =~= Seq::<u8>::empty());
        assert(hex_chars(s.push(b)) == hex_byte_chars(b) + Seq::<char>::empty());
        assert(hex_byte_chars(b) + Seq::<char>::empty() =~= Seq::<char>::empty()
            + hex_byte_chars(b));
    } else {
        assert(s.push(b).drop_first() =~= s.drop_first().push(b));
        lemma_hex_chars_push(s.drop_first(), b);
        assert(s.push(b)[0] == s[0]);
        assert(hex_chars(s.push(b)) == hex_byte_chars(s[0]) + (hex_chars(s.drop_first())
            + hex_byte_chars(b)));
        assert(hex_byte_chars(s[0]) + (hex_chars(s.drop_first()) + hex_byte_chars(b)) =~= (
        hex_byte_chars(s[0]) + hex_chars(s.drop_first())) + hex_byte_chars(b));
    }
}

/// An identifier of only zero bytes renders as the empty string: every
/// byte of the reversed order is a leading zero byte, and all of them
/// are dropped.
pub proof fn lemma_reversed_hex_all_zero(bytes: Seq<u8>)
    requires
        forall|i: int| 0 <= i < bytes.len() ==> bytes[i] == 0,
    ensures
        reversed_hex(bytes) == Seq::<char>::empty(),
{
    lemma_strip_reverse(bytes, 0);
    assert(bytes.take(0).reverse() =~= Seq::<u8>::empty());
    assert(hex_chars(Seq::<u8>::empty()) == Seq::<char>::empty());
}

/// Render a little-endian identifier, such as the raw "vendor-id" registry
/// property, as its byte-reversed lowercase hex string.  Leading zero
/// bytes of the reversed order are dropped entirely; an all-zero input
/// renders as the empty string (see [`lemma_reversed_hex_all_zero`]).
pub fn reversed_hex_string(bytes: &Vec<u8>) -> (r: String)
    ensures
        r@ == reversed_hex(bytes@),
{
    let ghost n = bytes@.len();
    // Zero bytes at the back of `bytes` are the leading zero bytes of the
    // reversed order.
    let mut end: usize = bytes.len();
    while end > 0 && bytes[end - 1] == 0
        invariant
            end <= bytes@.len(),
            forall|j: int| end <= j < bytes@.len() ==> bytes@[j] == 0,
        decreases end,
    {
        end = end - 1;
    }
    proof {
        lemma_strip_reverse(bytes@, end as int);
    }
    let ghost rev = bytes@.take(end as int).reverse();
    let mut s = String::new();
    let mut i: usize = end;
    while i > 0
        invariant
            i <= end <= bytes@.len(),
            rev == bytes@.take(end as int).reverse(),
            s@ == hex_chars(rev.take(end - i)),
        decreases i,
    {
        i = i - 1;
        let b = bytes[i];
        proof {
            assert(rev[end - i - 1] == b);
            assert(rev.take(end - i) =~= rev.take(end - i - 1).push(b));
            lemma_hex_chars_push(rev.take(end - i - 1), b);
        }
        push_char(&mut s, hex_digit_char(b / 16));
        push_char(&mut s, hex_digit_char(b % 16));
        proof {
            assert(s@ =~= hex_chars(rev.take(end - i - 1)) + hex_byte_chars(b));
            assert(s@ =~= hex_chars(rev.take(end - i)));
        }
    }
    proof {
        assert(rev.take(end as int) =~= rev);
    }
    s
}

} // verus!
