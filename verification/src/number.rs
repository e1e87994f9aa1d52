use vstd::prelude::*;

verus! {

/// Ascii decimal representation of a natural number, without sign or
/// leading zeros (zero is written `0`).
pub open spec fn decimal(n: nat) -> Seq<u8>
    decreases n,
{
    if n < 10 {
        seq![(48 + n) as u8]
    } else {
        decimal(n / 10).push((48 + n % 10) as u8)
    }
}

/// True when every byte is an ascii digit.
pub open spec fn all_digits(s: Seq<u8>) -> bool {
    forall|i: int| 0 <= i < s.len() ==> 48 <= #[trigger] s[i] <= 57
}

/// Value of a string of ascii digits, most significant first.
pub open spec fn digits_value(s: Seq<u8>) -> nat
    decreases s.len(),
{
    if s.len() == 0 {
        0
    } else {
        digits_value(s.drop_last()) * 10 + (s.last() - 48) as nat
    }
}

/// The unsigned integer that `s` denotes, as std's `FromStr` for unsigned
/// integers reads it: an optional `+`, then at least one ascii digit, the
/// value at most `max`.
pub open spec fn parse_unsigned(s: Seq<u8>, max: nat) -> Option<nat> {
    let d = if s.len() > 0 && s[0] == 43 { s.skip(1) } else { s };
    if d.len() > 0 && all_digits(d) && digits_value(d) <= max {
        Some(digits_value(d))
    } else {
        None
    }
}

proof fn lemma_digits_value_push(s: Seq<u8>, c: u8)
    ensures
        digits_value(s.push(c)) == digits_value(s) * 10 + (c - 48) as nat,
{
    assert(s.push(c).drop_last() =~= s);
}

proof fn lemma_digits_value_prefix_le(s: Seq<u8>, i: int)
    requires
        0 <= i <= s.len(),
        all_digits(s),
    ensures
        digits_value(s.subrange(0, i)) <= digits_value(s),
    decreases s.len() - i,
{
    if i < s.len() {
        lemma_digits_value_prefix_le(s, i + 1);
        assert(s.subrange(0, i + 1).drop_last() =~= s.subrange(0, i));
        assert(48 <= s[i] <= 57);
    } else {
        assert(s.subrange(0, i) =~= s);
    }
}

proof fn lemma_decimal_digits(n: nat)
    ensures
        decimal(n).len() > 0,
        all_digits(decimal(n)),
        digits_value(decimal(n)) == n,
    decreases n,
{
    if n >= 10 {
        lemma_decimal_digits(n / 10);
        let c = (48 + n % 10) as u8;
        lemma_digits_value_push(decimal(n / 10), c);
        assert(c - 48 == n % 10);
        assert((n / 10) * 10 + n % 10 == n);
        assert(decimal(n) == decimal(n / 10).push(c));
        assert forall|i: int| 0 <= i < decimal(n).len() implies 48 <= #[trigger] decimal(n)[i] <= 57 by {
            if i < decimal(n / 10).len() {
                assert(decimal(n)[i] == decimal(n / 10)[i]);
            }
        }
    } else {
        assert(seq![(48 + n) as u8].drop_last() =~= Seq::<u8>::empty());
        assert(digits_value(Seq::<u8>::empty()) == 0);
        assert(digits_value(decimal(n)) == digits_value(Seq::<u8>::empty()) * 10 + (decimal(n).last() - 48) as nat);
    }
}

/// Reading the decimal digits of a number gives the number back, as long as
/// it is within the bound.
pub proof fn lemma_parse_decimal(n: nat, max: nat)
    requires
        n <= max,
    ensures
        parse_unsigned(decimal(n), max) == Some(n),
{
    lemma_decimal_digits(n);
    assert(48 <= decimal(n)[0]);
}

/// Appends the decimal digits of `n` to `out`.
pub fn push_decimal(n: u64, out: &mut Vec<u8>)
    ensures
        final(out)@ == old(out)@ + decimal(n as nat),
    decreases n,
{
    if n >= 10 {
        push_decimal(n / 10, out);
    }
    out.push((48 + n % 10) as u8);
    proof {
        if n >= 10 {
            assert(decimal(n as nat) == decimal((n / 10) as nat).push((48 + n % 10) as u8));
        }
        assert(final(out)@ =~= old(out)@ + decimal(n as nat));
    }
}

/// Parses the digits of `d` (no sign), refusing values above `max`.
fn parse_digits(d: &[u8], max: u64) -> (r: Option<u64>)
    ensures
        match r {
            Some(v) => d@.len() > 0 && all_digits(d@) && digits_value(d@) <= max && v == digits_value(d@),
            None => !(d@.len() > 0 && all_digits(d@) && digits_value(d@) <= max),
        },
{
    if d.len() == 0 {
        return None;
    }
    let mut value: u64 = 0;
    let mut i: usize = 0;
    while i < d.len()
        invariant
            0 <= i <= d@.len(),
            d@.len() > 0,
            all_digits(d@.subrange(0, i as int)),
            value == digits_value(d@.subrange(0, i as int)),
            value <= max,
        decreases d@.len() - i,
    {
        let c = d[i];
        proof {
            assert(d@.subrange(0, i + 1) =~= d@.subrange(0, i as int).push(c));
            lemma_digits_value_push(d@.subrange(0, i as int), c);
        }
        if c < 48 || c > 57 {
            assert(!(48 <= d@[i as int] <= 57));
            return None;
        }
        let digit = (c - 48) as u64;
        if digit > max || value > (max - digit) / 10 {
            proof {
                assert(value * 10 + digit > max) by (nonlinear_arith)
                    requires digit > max || value > (max - digit) / 10, value >= 0;
                if all_digits(d@) {
                    lemma_digits_value_prefix_le(d@, i + 1);
                }
            }
            return None;
        }
        proof {
            assert(value * 10 + digit <= max) by (nonlinear_arith)
                requires value <= (max - digit) / 10, digit <= 9, max >= 0;
        }
        value = value * 10 + digit;
        i = i + 1;
    }
    assert(d@.subrange(0, d@.len() as int) =~= d@);
    Some(value)
}

/// Reads an unsigned integer at most `max`, as std's `FromStr` does.
pub fn parse_unsigned_bytes(s: &[u8], max: u64) -> (r: Option<u64>)
    ensures
        match r {
            Some(v) => parse_unsigned(s@, max as nat) == Some(v as nat),
            None => parse_unsigned(s@, max as nat) is None,
        },
{
    if s.len() > 0 && s[0] == 43 {
        let d = slice_from(s, 1);
        parse_digits(d, max)
    } else {
        parse_digits(s, max)
    }
}

/// The `i64` that `s` denotes, as std's `FromStr` for signed integers reads
/// it: an optional `+` or `-`, then at least one ascii digit, the value in
/// the range of `i64`.
pub open spec fn parse_signed(s: Seq<u8>) -> Option<int> {
    if s.len() > 0 && s[0] == 45 {
        let d = s.skip(1);
        if d.len() > 0 && all_digits(d) && digits_value(d) <= 0x8000_0000_0000_0000 {
            Some(-digits_value(d))
        } else {
            None
        }
    } else {
        match parse_unsigned(s, i64::MAX as nat) {
            Some(n) => Some(n as int),
            None => None,
        }
    }
}

/// Reads an `i64`, as std's `FromStr` does.
pub fn parse_signed_bytes(s: &[u8]) -> (r: Option<i64>)
    ensures
        match r {
            Some(v) => parse_signed(s@) == Some(v as int),
            None => parse_signed(s@) is None,
        },
{
    if s.len() > 0 && s[0] == 45 {
        let d = slice_from(s, 1);
        match parse_digits(d, 0x8000_0000_0000_0000u64) {
            Some(v) => {
                if v == 0x8000_0000_0000_0000u64 {
                    Some(i64::MIN)
                } else {
                    Some(-(v as i64))
                }
            },
            None => None,
        }
    } else {
        match parse_unsigned_bytes(s, i64::MAX as u64) {
            Some(v) => Some(v as i64),
            None => None,
        }
    }
}

/// The bytes of `s` from `start` on.
pub fn slice_from(s: &[u8], start: usize) -> (r: &[u8])
    requires
        start <= s@.len(),
    ensures
        r@ == s@.skip(start as int),
{
    let r = slice_range(s, start, s.len());
    assert(r@ =~= s@.skip(start as int));
    r
}

/// The bytes of `s` in `start..end`.
pub fn slice_range(s: &[u8], start: usize, end: usize) -> (r: &[u8])
    requires
        start <= end <= s@.len(),
    ensures
        r@ == s@.subrange(start as int, end as int),
{
    let (left, _) = s.split_at(end);
    let (_, mid) = left.split_at(start);
    assert(mid@ =~= s@.subrange(start as int, end as int));
    mid
}

} // verus!

verus! {

/// `v` clamped to the range of `i32`.
pub open spec fn clamp_i32(v: int) -> i32 {
    if v > i32::MAX { i32::MAX } else if v < i32::MIN { i32::MIN } else { v as i32 }
}

/// `v` clamped to the range of `i64`.
pub open spec fn clamp_i64(v: int) -> i64 {
    if v > i64::MAX { i64::MAX } else if v < i64::MIN { i64::MIN } else { v as i64 }
}

/// `v` clamped to the range of `u32`.
pub open spec fn clamp_u32(v: int) -> u32 {
    if v > u32::MAX { u32::MAX } else if v < 0 { 0 } else { v as u32 }
}

/// Saturating addition of two `i32`.
pub fn saturating_add_i32(a: i32, b: i32) -> (r: i32)
    ensures
        r == clamp_i32(a + b),
{
    let s: i64 = a as i64 + b as i64;
    if s > i32::MAX as i64 {
        i32::MAX
    } else if s < i32::MIN as i64 {
        i32::MIN
    } else {
        s as i32
    }
}

/// Saturating addition of two `i64`.
pub fn saturating_add_i64(a: i64, b: i64) -> (r: i64)
    ensures
        r == clamp_i64(a + b),
{
    let s: i128 = a as i128 + b as i128;
    if s > i64::MAX as i128 {
        i64::MAX
    } else if s < i64::MIN as i128 {
        i64::MIN
    } else {
        s as i64
    }
}

/// Adds a signed delta to an unsigned counter, saturating at both ends.
pub fn saturating_add_signed_u32(a: u32, b: i32) -> (r: u32)
    ensures
        r == clamp_u32(a + b),
{
    let s: i64 = a as i64 + b as i64;
    if s > u32::MAX as i64 {
        u32::MAX
    } else if s < 0 {
        0
    } else {
        s as u32
    }
}

} // verus!
