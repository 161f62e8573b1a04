//! Text helpers: fixed-width upper-case hexadecimal and decimal rendering.

use vstd::prelude::*;
use vstd::string::StringExecFns;

verus! {

/// The upper-case hexadecimal digit for a value below 16.
pub open spec fn spec_upper_hex_digit(d: int) -> char {
    if d == 0 { '0' } else if d == 1 { '1' } else if d == 2 { '2' } else if d == 3 { '3' }
    else if d == 4 { '4' } else if d == 5 { '5' } else if d == 6 { '6' } else if d == 7 { '7' }
    else if d == 8 { '8' } else if d == 9 { '9' } else if d == 10 { 'A' } else if d == 11 { 'B' }
    else if d == 12 { 'C' } else if d == 13 { 'D' } else if d == 14 { 'E' } else { 'F' }
}

/// `value` written big-endian in exactly `width` upper-case hexadecimal
/// digits (the digits above the width are dropped).
pub open spec fn spec_hex_upper(value: nat, width: nat) -> Seq<char>
    decreases width,
{
    if width == 0 {
        Seq::<char>::empty()
    } else {
        spec_hex_upper(value / 16, (width - 1) as nat).push(
            spec_upper_hex_digit((value % 16) as int),
        )
    }
}

fn upper_hex_digit_str(d: u8) -> (s: &'static str)
    requires
        d < 16,
    ensures
        s@ == seq![spec_upper_hex_digit(d as int)],
{
    proof {
        reveal_strlit("0"); reveal_strlit("1"); reveal_strlit("2"); reveal_strlit("3");
        reveal_strlit("4"); reveal_strlit("5"); reveal_strlit("6"); reveal_strlit("7");
        reveal_strlit("8"); reveal_strlit("9"); reveal_strlit("A"); reveal_strlit("B");
        reveal_strlit("C"); reveal_strlit("D"); reveal_strlit("E"); reveal_strlit("F");
    }
    let s = match d {
        0 => "0", 1 => "1", 2 => "2", 3 => "3", 4 => "4", 5 => "5", 6 => "6", 7 => "7",
        8 => "8", 9 => "9", 10 => "A", 11 => "B", 12 => "C", 13 => "D", 14 => "E", _ => "F",
    };
    assert(s@ =~= seq![spec_upper_hex_digit(d as int)]);
    s
}

/// Renders `value` in exactly `width` upper-case hexadecimal digits.
pub fn hex_upper(value: u64, width: u8) -> (text: String)
    ensures
        text@ == spec_hex_upper(value as nat, width as nat),
    decreases width,
{
    if width == 0 {
        String::new()
    } else {
        let mut text = hex_upper(value / 16, width - 1);
        text.append(upper_hex_digit_str((value % 16) as u8));
        text
    }
}

/// Sixteen to the power `width`.
pub open spec fn spec_pow16(width: nat) -> nat
    decreases width,
{
    if width == 0 {
        1
    } else {
        16 * spec_pow16((width - 1) as nat)
    }
}

/// The value of one hexadecimal digit, in either case.
pub open spec fn spec_hex_digit_value(c: char) -> Option<nat> {
    if '0' <= c && c <= '9' {
        Some((c as u32 - '0' as u32) as nat)
    } else if 'A' <= c && c <= 'F' {
        Some((c as u32 - 'A' as u32 + 10) as nat)
    } else if 'a' <= c && c <= 'f' {
        Some((c as u32 - 'a' as u32 + 10) as nat)
    } else {
        None
    }
}

/// The number that a big-endian string of hexadecimal digits denotes, `None`
/// where a character is no hexadecimal digit.
pub open spec fn spec_hex_value(digits: Seq<char>) -> Option<nat>
    decreases digits.len(),
{
    if digits.len() == 0 {
        Some(0)
    } else {
        match (spec_hex_value(digits.drop_last()), spec_hex_digit_value(digits.last())) {
            (Some(high), Some(low)) => Some(high * 16 + low),
            _ => None,
        }
    }
}

/// The two powers of sixteen that bound the numbers of a failure message.
pub proof fn lemma_pow16_values()
    ensures
        spec_pow16(8) == 0x1_0000_0000,
        spec_pow16(16) == 0x1_0000_0000_0000_0000,
{
    reveal_with_fuel(spec_pow16, 17);
}

/// Powers of sixteen grow with the exponent and are at least one.
pub proof fn lemma_pow16_monotonic(a: nat, b: nat)
    requires
        a <= b,
    ensures
        spec_pow16(a) <= spec_pow16(b),
        spec_pow16(a) >= 1,
    decreases b,
{
    if a < b {
        lemma_pow16_monotonic(a, (b - 1) as nat);
    } else if a > 0 {
        lemma_pow16_monotonic((a - 1) as nat, (a - 1) as nat);
    }
}

/// A rendered number has the asked width and reads back as itself.
pub proof fn lemma_hex_upper_reads_back(value: nat, width: nat)
    requires
        value < spec_pow16(width),
    ensures
        spec_hex_upper(value, width).len() == width,
        spec_hex_value(spec_hex_upper(value, width)) == Some(value),
    decreases width,
{
    if width > 0 {
        let rest = spec_hex_upper(value / 16, (width - 1) as nat);
        let digit = spec_upper_hex_digit((value % 16) as int);
        lemma_hex_upper_reads_back(value / 16, (width - 1) as nat);
        assert(spec_hex_upper(value, width) == rest.push(digit));
        assert(rest.push(digit).drop_last() =~= rest);
        assert(rest.push(digit).last() == digit);
        assert(spec_hex_digit_value(digit) == Some(value % 16));
    }
}

/// A string of `n` hexadecimal digits denotes a number below sixteen to the `n`.
pub proof fn lemma_hex_value_bound(digits: Seq<char>)
    requires
        spec_hex_value(digits) is Some,
    ensures
        spec_hex_value(digits)->0 < spec_pow16(digits.len()),
    decreases digits.len(),
{
    if digits.len() > 0 {
        lemma_hex_value_bound(digits.drop_last());
    }
}

fn hex_digit_value(c: char) -> (value: Option<u8>)
    ensures
        value is Some <==> spec_hex_digit_value(c) is Some,
        value is Some ==> value->0 as nat == spec_hex_digit_value(c)->0 && value->0 < 16,
{
    if '0' <= c && c <= '9' {
        Some((c as u32 - '0' as u32) as u8)
    } else if 'A' <= c && c <= 'F' {
        Some((c as u32 - 'A' as u32 + 10) as u8)
    } else if 'a' <= c && c <= 'f' {
        Some((c as u32 - 'a' as u32 + 10) as u8)
    } else {
        None
    }
}

/// Reads the characters `from..to` of `text` as one big-endian hexadecimal
/// number of at most sixteen digits.
pub fn hex_value(text: &str, from: usize, to: usize) -> (value: Option<u64>)
    requires
        from <= to <= text@.len(),
        to - from <= 16,
    ensures
        value is Some <==> spec_hex_value(text@.subrange(from as int, to as int)) is Some,
        value is Some ==> value->0 as nat == spec_hex_value(
            text@.subrange(from as int, to as int),
        )->0,
{
    let mut acc: u64 = 0;
    let mut i: usize = from;
    assert(text@.subrange(from as int, from as int) =~= Seq::<char>::empty());
    while i < to
        invariant
            from <= i <= to <= text@.len(),
            to - from <= 16,
            spec_hex_value(text@.subrange(from as int, i as int)) == Some(acc as nat),
        decreases to - i,
    {
        let c = text.get_char(i);
        let ghost before = text@.subrange(from as int, i as int);
        let ghost after = text@.subrange(from as int, i as int + 1);
        proof {
            assert(after.drop_last() =~= before);
            assert(after.last() == c);
            lemma_hex_value_bound(before);
            lemma_pow16_monotonic(before.len(), 15);
            lemma_pow16_values();
            reveal_with_fuel(spec_pow16, 2);
            assert(spec_pow16(16) == 16 * spec_pow16(15));
        }
        match hex_digit_value(c) {
            Some(d) => {
                acc = acc * 16 + d as u64;
            },
            None => {
                proof {
                    lemma_hex_value_none_extends(text@.subrange(from as int, to as int), i - from + 1);
                    assert(text@.subrange(from as int, to as int).subrange(0, i - from + 1) =~= after);
                }
                return None;
            },
        }
        i = i + 1;
    }
    Some(acc)
}

/// Once a prefix holds a character that is no digit, the whole string denotes nothing.
pub proof fn lemma_hex_value_none_extends(digits: Seq<char>, prefix: int)
    requires
        0 <= prefix <= digits.len(),
        spec_hex_value(digits.subrange(0, prefix)) is None,
    ensures
        spec_hex_value(digits) is None,
    decreases digits.len(),
{
    if prefix == digits.len() {
        assert(digits.subrange(0, prefix) =~= digits);
    } else {
        assert(digits.drop_last().subrange(0, prefix) =~= digits.subrange(0, prefix));
        lemma_hex_value_none_extends(digits.drop_last(), prefix);
    }
}

/// The decimal digit for a value below ten.
pub open spec fn spec_decimal_digit(d: int) -> char {
    if d == 0 { '0' } else if d == 1 { '1' } else if d == 2 { '2' } else if d == 3 { '3' }
    else if d == 4 { '4' } else if d == 5 { '5' } else if d == 6 { '6' } else if d == 7 { '7' }
    else if d == 8 { '8' } else { '9' }
}

/// `value` in decimal, without leading zeros.
pub open spec fn spec_decimal(value: nat) -> Seq<char>
    decreases value,
{
    if value < 10 {
        seq![spec_decimal_digit(value as int)]
    } else {
        spec_decimal(value / 10).push(spec_decimal_digit((value % 10) as int))
    }
}

/// A signed value in decimal: a minus sign before the magnitude of a negative one.
pub open spec fn spec_signed_decimal(value: int) -> Seq<char> {
    if value < 0 {
        seq!['-'] + spec_decimal((-value) as nat)
    } else {
        spec_decimal(value as nat)
    }
}

fn decimal_digit_str(d: u8) -> (s: &'static str)
    requires
        d < 10,
    ensures
        s@ == seq![spec_decimal_digit(d as int)],
{
    proof {
        reveal_strlit("0"); reveal_strlit("1"); reveal_strlit("2"); reveal_strlit("3");
        reveal_strlit("4"); reveal_strlit("5"); reveal_strlit("6"); reveal_strlit("7");
        reveal_strlit("8"); reveal_strlit("9");
    }
    let s = match d {
        0 => "0", 1 => "1", 2 => "2", 3 => "3", 4 => "4", 5 => "5", 6 => "6", 7 => "7",
        8 => "8", _ => "9",
    };
    assert(s@ =~= seq![spec_decimal_digit(d as int)]);
    s
}

/// Renders an unsigned number as `{}` does.
pub fn decimal(value: u64) -> (text: String)
    ensures
        text@ == spec_decimal(value as nat),
    decreases value,
{
    if value < 10 {
        String::from_str(decimal_digit_str(value as u8))
    } else {
        let mut text = decimal(value / 10);
        text.append(decimal_digit_str((value % 10) as u8));
        text
    }
}

/// Renders a signed number as `{}` does.
pub fn signed_decimal(value: i64) -> (text: String)
    ensures
        text@ == spec_signed_decimal(value as int),
{
    if value < 0 {
        let magnitude: u64 = if value == i64::MIN {
            0x8000_0000_0000_0000u64
        } else {
            (-value) as u64
        };
        proof {
            reveal_strlit("-");
        }
        let mut text = String::from_str("-");
        let digits = decimal(magnitude);
        text.append(digits.as_str());
        assert(text@ =~= seq!['-'] + spec_decimal((-value) as nat));
        text
    } else {
        decimal(value as u64)
    }
}

/// An ASCII upper-case letter mapped to its lower-case form; any other character unchanged.
pub open spec fn spec_ascii_lower(c: char) -> char {
    if 'A' <= c && c <= 'Z' {
        ((c as u32 + 32) as u8) as char
    } else {
        c
    }
}

/// Equality of two texts up to the case of their ASCII letters.
pub open spec fn spec_eq_ignore_ascii_case(a: Seq<char>, b: Seq<char>) -> bool {
    &&& a.len() == b.len()
    &&& forall|i: int| 0 <= i < a.len() ==> spec_ascii_lower(#[trigger] a[i]) == spec_ascii_lower(b[i])
}

fn ascii_lower(c: char) -> (lower: char)
    ensures
        lower == spec_ascii_lower(c),
{
    if 'A' <= c && c <= 'Z' {
        ((c as u32 + 32) as u8) as char
    } else {
        c
    }
}

/// Compares two texts up to the case of their ASCII letters.
pub fn eq_ignore_ascii_case(a: &str, b: &str) -> (same: bool)
    ensures
        same == spec_eq_ignore_ascii_case(a@, b@),
{
    let n = a.unicode_len();
    if n != b.unicode_len() {
        return false;
    }
    let mut i: usize = 0;
    while i < n
        invariant
            i <= n,
            n == a@.len(),
            n == b@.len(),
            forall|j: int| 0 <= j < i ==> spec_ascii_lower(#[trigger] a@[j]) == spec_ascii_lower(b@[j]),
        decreases n - i,
    {
        if ascii_lower(a.get_char(i)) != ascii_lower(b.get_char(i)) {
            return false;
        }
        i = i + 1;
    }
    true
}

/// Is every character a decimal digit?
pub open spec fn spec_is_digits(digits: Seq<char>) -> bool {
    forall|i: int| 0 <= i < digits.len() ==> '0' <= #[trigger] digits[i] <= '9'
}

/// The number that a string of decimal digits denotes.
pub open spec fn spec_digits_value(digits: Seq<char>) -> nat
    decreases digits.len(),
{
    if digits.len() == 0 {
        0
    } else {
        spec_digits_value(digits.drop_last()) * 10 + (digits.last() as u32 - '0' as u32) as nat
    }
}

/// The digits of a decimal number text: what follows one leading plus sign, or all of it.
pub open spec fn spec_unsigned_digits(text: Seq<char>) -> Seq<char> {
    if text.len() > 0 && text[0] == '+' {
        text.skip(1)
    } else {
        text
    }
}

/// The number that a text denotes as an unsigned 64-bit integer: decimal
/// digits, at least one, after at most one plus sign, and of a value in range.
pub open spec fn spec_parse_u64(text: Seq<char>) -> Option<u64> {
    let digits = spec_unsigned_digits(text);
    if digits.len() > 0 && spec_is_digits(digits) && spec_digits_value(digits) <= u64::MAX {
        Some(spec_digits_value(digits) as u64)
    } else {
        None
    }
}

/// A string of digits denotes at least what any of its prefixes denotes.
pub proof fn lemma_digits_value_prefix(digits: Seq<char>, n: int)
    requires
        0 <= n <= digits.len(),
        spec_is_digits(digits),
    ensures
        spec_digits_value(digits.take(n)) <= spec_digits_value(digits),
    decreases digits.len(),
{
    if n == digits.len() {
        assert(digits.take(n) =~= digits);
    } else {
        assert(digits.drop_last().take(n) =~= digits.take(n));
        lemma_digits_value_prefix(digits.drop_last(), n);
    }
}

/// Reads an unsigned 64-bit integer as `str::parse` does.
pub fn parse_u64(text: &str) -> (value: Option<u64>)
    ensures
        value == spec_parse_u64(text@),
{
    let n = text.unicode_len();
    if n == 0 {
        return None;
    }
    let start: usize = if text.get_char(0) == '+' { 1 } else { 0 };
    let ghost digits = spec_unsigned_digits(text@);
    assert(digits =~= text@.skip(start as int));
    if start == n {
        return None;
    }
    let mut acc: u64 = 0;
    let mut i: usize = start;
    assert(digits.take(0) =~= Seq::<char>::empty());
    while i < n
        invariant
            start <= i <= n,
            n == text@.len(),
            digits == text@.skip(start as int),
            digits == spec_unsigned_digits(text@),
            spec_is_digits(digits.take(i - start)),
            acc == spec_digits_value(digits.take(i - start)),
        decreases n - i,
    {
        let c = text.get_char(i);
        let ghost before = digits.take(i - start);
        let ghost after = digits.take(i - start + 1);
        proof {
            assert(digits.len() == n - start);
            assert(digits[i - start] == text@[i as int]);
            assert(after.drop_last() =~= before);
            assert(after.last() == c);
            assert(spec_digits_value(after) == spec_digits_value(before) * 10 + (c as u32
                - '0' as u32) as nat);
        }
        if !('0' <= c && c <= '9') {
            assert(!spec_is_digits(digits));
            return None;
        }
        let d = (c as u32 - '0' as u32) as u64;
        assert(spec_is_digits(after)) by {
            assert forall|k: int| 0 <= k < after.len() implies '0' <= #[trigger] after[k] <= '9' by {
                if k < before.len() {
                    assert(before[k] == after[k]);
                }
            }
        }
        if acc > (u64::MAX - d) / 10 {
            proof {
                assert(acc * 10 + d > u64::MAX);
                if spec_is_digits(digits) {
                    lemma_digits_value_prefix(digits, i - start + 1);
                }
            }
            return None;
        }
        acc = acc * 10 + d;
        i = i + 1;
    }
    assert(digits.take(n - start) =~= digits);
    Some(acc)
}

} // verus!
