//! Decimal integers: reading them as Rust's `str::parse` does, and writing them.
use vstd::prelude::*;
use vstd::string::*;
use crate::interactions::{digit_char, digit_str};

verus! {

/// Whether a byte is an ASCII decimal digit.
pub open spec fn is_digit(b: u8) -> bool {
    48 <= b <= 57
}

/// Whether every byte of `s` is an ASCII decimal digit.
pub open spec fn all_digits(s: Seq<u8>) -> bool {
    forall|i: int| 0 <= i < s.len() ==> is_digit(#[trigger] s[i])
}

/// The value of a string of decimal digits, most significant first.
pub open spec fn digits_value(s: Seq<u8>) -> nat
    decreases s.len(),
{
    if s.len() == 0 {
        0
    } else {
        digits_value(s.drop_last()) * 10 + (s.last() - 48) as nat
    }
}

/// The digits that follow an optional sign; `signed` says whether a leading '-' is
/// a sign (as for signed integer types) or an ordinary, invalid, character.
pub open spec fn unsigned_part(s: Seq<u8>, signed: bool) -> Seq<u8> {
    if s.len() > 0 && (s[0] == 43u8 || (signed && s[0] == 45u8)) {
        s.drop_first()
    } else {
        s
    }
}

/// Whether `s` starts with a minus sign that counts as one.
pub open spec fn is_negative(s: Seq<u8>, signed: bool) -> bool {
    signed && s.len() > 0 && s[0] == 45u8
}

/// The integer that `s` spells, by the grammar of Rust's integer parsing: an optional
/// sign, then one or more decimal digits. `None` when `s` does not follow it.
pub open spec fn spec_decimal(s: Seq<u8>, signed: bool) -> Option<int> {
    let d = unsigned_part(s, signed);
    if d.len() == 0 || !all_digits(d) {
        None
    } else if is_negative(s, signed) {
        Some(-(digits_value(d) as int))
    } else {
        Some(digits_value(d) as int)
    }
}

/// What `s.parse::<i32>()` gives, as an option.
pub open spec fn spec_parse_i32(s: Seq<u8>) -> Option<i32> {
    match spec_decimal(s, true) {
        Some(v) => if i32::MIN <= v <= i32::MAX { Some(v as i32) } else { None },
        None => None,
    }
}

/// What `s.parse::<u32>()` gives, as an option.
pub open spec fn spec_parse_u32(s: Seq<u8>) -> Option<u32> {
    match spec_decimal(s, false) {
        Some(v) => if 0 <= v <= u32::MAX { Some(v as u32) } else { None },
        None => None,
    }
}

/// A header value read as an `i32`, zero where it is missing or not a valid `i32`.
pub open spec fn spec_i32_or_zero(header: Option<Seq<u8>>) -> i32 {
    match header {
        Some(s) => match spec_parse_i32(s) {
            Some(v) => v,
            None => 0,
        },
        None => 0,
    }
}

/// A header value read as a `u32`, zero where it is missing or not a valid `u32`.
pub open spec fn spec_u32_or_zero(header: Option<Seq<u8>>) -> u32 {
    match header {
        Some(s) => match spec_parse_u32(s) {
            Some(v) => v,
            None => 0,
        },
        None => 0,
    }
}

/// The decimal text of a natural number, without leading zeros.
pub open spec fn decimal_text(n: nat) -> Seq<char>
    decreases n,
{
    if n < 10 {
        seq![digit_char(n as int)]
    } else {
        decimal_text(n / 10) + seq![digit_char((n % 10) as int)]
    }
}

/// Whether a character is an ASCII decimal digit.
pub open spec fn is_digit_char(c: char) -> bool {
    '0' <= c <= '9'
}

/// The value of a text of decimal digits, most significant first.
pub open spec fn chars_value(s: Seq<char>) -> nat
    decreases s.len(),
{
    if s.len() == 0 {
        0
    } else {
        chars_value(s.drop_last()) * 10 + (s.last() as int - '0' as int) as nat
    }
}

/// Law: the decimal text of a number is a nonempty text of decimal digits whose value
/// is that number, so the text names the whole number and no other.
pub proof fn lemma_decimal_text_value(n: nat)
    ensures
        decimal_text(n).len() >= 1,
        forall|i: int| 0 <= i < decimal_text(n).len() ==> is_digit_char(#[trigger] decimal_text(n)[i]),
        chars_value(decimal_text(n)) == n,
    decreases n,
{
    if n < 10 {
        let t = decimal_text(n);
        assert(t == seq![digit_char(n as int)]);
        assert(t.drop_last() =~= Seq::<char>::empty());
        assert(digit_char(n as int) as int == '0' as int + n);
        assert(t.last() == digit_char(n as int));
        assert(chars_value(t) == chars_value(t.drop_last()) * 10 + (t.last() as int - '0' as int) as nat);
        assert(chars_value(Seq::<char>::empty()) == 0);
    } else {
        lemma_decimal_text_value(n / 10);
        let front = decimal_text(n / 10);
        let c = digit_char((n % 10) as int);
        let t = decimal_text(n);
        assert(t == front + seq![c]);
        assert(t.drop_last() =~= front);
        assert(c as int == '0' as int + n % 10);
        assert(t.last() == c);
        assert(chars_value(t) == chars_value(t.drop_last()) * 10 + (t.last() as int - '0' as int) as nat);
        assert(chars_value(t) == (n / 10) * 10 + n % 10);
        assert forall|i: int| 0 <= i < t.len() implies is_digit_char(#[trigger] t[i]) by {
            if i < front.len() {
                assert(t[i] == front[i]);
            }
        }
    }
}

/// The bytes of an ASCII text.
pub open spec fn ascii_bytes(s: Seq<char>) -> Seq<u8> {
    Seq::new(s.len(), |i: int| s[i] as u8)
}

/// A text of decimal digits reads, as bytes, as digits of the same value.
proof fn lemma_ascii_digits_value(t: Seq<char>)
    requires
        forall|i: int| 0 <= i < t.len() ==> is_digit_char(#[trigger] t[i]),
    ensures
        all_digits(ascii_bytes(t)),
        digits_value(ascii_bytes(t)) == chars_value(t),
    decreases t.len(),
{
    let b = ascii_bytes(t);
    assert forall|i: int| 0 <= i < b.len() implies is_digit(#[trigger] b[i]) by {
        assert(is_digit_char(t[i]));
    }
    if t.len() > 0 {
        assert(ascii_bytes(t.drop_last()) =~= b.drop_last());
        lemma_ascii_digits_value(t.drop_last());
        assert(is_digit_char(t.last()));
        assert(b.last() == t.last() as u8);
    }
}

/// Law: reading back the decimal text of a number gives that number: as an `i32`
/// where it fits, with a minus sign as its negative where that fits, and as a `u32`
/// where it fits; a minus sign never reads as a `u32`.
pub proof fn lemma_parse_reads_back_decimal_text(n: nat)
    ensures
        n <= i32::MAX ==> spec_parse_i32(ascii_bytes(decimal_text(n))) == Some(n as i32),
        n <= i32::MAX + 1 ==> spec_parse_i32(seq![45u8] + ascii_bytes(decimal_text(n))) == Some((-n) as i32),
        n <= u32::MAX ==> spec_parse_u32(ascii_bytes(decimal_text(n))) == Some(n as u32),
        spec_parse_u32(seq![45u8] + ascii_bytes(decimal_text(n))) is None,
{
    lemma_decimal_text_value(n);
    let t = decimal_text(n);
    let b = ascii_bytes(t);
    lemma_ascii_digits_value(t);
    assert(is_digit(b[0]));
    assert(unsigned_part(b, true) == b);
    assert(unsigned_part(b, false) == b);
    let m = seq![45u8] + b;
    assert(m.drop_first() =~= b);
    assert(unsigned_part(m, true) == b);
    assert(unsigned_part(m, false) == m);
    assert(!is_digit(m[0]));
}

/// The value of digits grows, never shrinks, as digits are appended.
proof fn lemma_digits_value_prefix(s: Seq<u8>, k: int)
    requires
        0 <= k <= s.len(),
        all_digits(s),
    ensures
        digits_value(s.take(k)) <= digits_value(s),
    decreases s.len(),
{
    if k < s.len() {
        assert(s.drop_last().take(k) =~= s.take(k));
        lemma_digits_value_prefix(s.drop_last(), k);
    } else {
        assert(s.take(k) =~= s);
    }
}

/// Reads `s[from..]` as decimal digits, giving their value when they are one or more
/// digits whose value is at most `limit`.
fn bounded_digits(s: &[u8], from: usize, limit: u64) -> (r: Option<u64>)
    requires
        from <= s@.len(),
        limit <= u32::MAX as u64 + 1,
    ensures
        ({
            let d = s@.subrange(from as int, s@.len() as int);
            r == if d.len() > 0 && all_digits(d) && digits_value(d) <= limit {
                Some(digits_value(d) as u64)
            } else {
                None::<u64>
            }
        }),
{
    let ghost d = s@.subrange(from as int, s@.len() as int);
    if from == s.len() {
        return None;
    }
    let mut acc: u64 = 0;
    let mut i: usize = from;
    while i < s.len()
        invariant
            from <= i <= s@.len(),
            d == s@.subrange(from as int, s@.len() as int),
            limit <= u32::MAX as u64 + 1,
            all_digits(d.take(i - from)),
            acc == digits_value(d.take(i - from)),
            acc <= limit,
        decreases s@.len() - i,
    {
        let b = s[i];
        assert(d[i - from] == b);
        if b < 48 || b > 57 {
            return None;
        }
        let next = acc * 10 + (b - 48) as u64;
        assert(d.take(i - from + 1).drop_last() =~= d.take(i - from));
        if next > limit {
            proof {
                if all_digits(d) {
                    lemma_digits_value_prefix(d, i - from + 1);
                }
            }
            return None;
        }
        acc = next;
        i = i + 1;
    }
    assert(d.take(i - from) =~= d);
    Some(acc)
}

/// Parses an `i32` as `str::parse::<i32>` does, from the bytes of the text.
pub fn parse_i32(s: &[u8]) -> (r: Option<i32>)
    ensures
        r == spec_parse_i32(s@),
{
    let negative = s.len() > 0 && s[0] == 45u8;
    let from: usize = if s.len() > 0 && (s[0] == 43u8 || s[0] == 45u8) { 1 } else { 0 };
    assert(s@.subrange(from as int, s@.len() as int) =~= unsigned_part(s@, true));
    if negative {
        match bounded_digits(s, from, 2147483648) {
            Some(v) => Some((0 - v as i64) as i32),
            None => {
                proof {
                    let d = unsigned_part(s@, true);
                    if d.len() > 0 && all_digits(d) {
                        assert(digits_value(d) > 2147483648);
                    }
                }
                None
            },
        }
    } else {
        match bounded_digits(s, from, 2147483647) {
            Some(v) => Some(v as i32),
            None => None,
        }
    }
}

/// Parses a `u32` as `str::parse::<u32>` does, from the bytes of the text.
pub fn parse_u32(s: &[u8]) -> (r: Option<u32>)
    ensures
        r == spec_parse_u32(s@),
{
    let from: usize = if s.len() > 0 && s[0] == 43u8 { 1 } else { 0 };
    assert(s@.subrange(from as int, s@.len() as int) =~= unsigned_part(s@, false));
    match bounded_digits(s, from, 4294967295) {
        Some(v) => Some(v as u32),
        None => None,
    }
}

/// A header value as an `i32`, zero where it is missing or invalid.
pub fn i32_or_zero(header: Option<&[u8]>) -> (v: i32)
    ensures
        v == spec_i32_or_zero(match header { Some(h) => Some(h@), None => None }),
{
    match header {
        Some(h) => match parse_i32(h) {
            Some(v) => v,
            None => 0,
        },
        None => 0,
    }
}

/// A header value as a `u32`, zero where it is missing or invalid.
pub fn u32_or_zero(header: Option<&[u8]>) -> (v: u32)
    ensures
        v == spec_u32_or_zero(match header { Some(h) => Some(h@), None => None }),
{
    match header {
        Some(h) => match parse_u32(h) {
            Some(v) => v,
            None => 0,
        },
        None => 0,
    }
}

/// Appends the decimal text of `n` to `s`.
pub fn push_decimal(s: &mut String, n: u64)
    ensures
        final(s)@ == old(s)@ + decimal_text(n as nat),
    decreases n,
{
    if n >= 10 {
        push_decimal(s, n / 10);
    }
    s.append(digit_str((n % 10) as u8));
    proof {
        if n >= 10 {
            assert(decimal_text(n as nat) == decimal_text((n / 10) as nat) + seq![digit_char((n % 10) as int)]);
        }
    }
}

} // verus!
