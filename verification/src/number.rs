//! Numbers as text: reading a signed 32-bit integer in a given radix, and
//! writing integers in decimal and in hexadecimal.
use vstd::prelude::*;

verus! {

/// The value of the digit `c` in `radix`, for a radix up to 36: `0` to `9`
/// count from zero, letters of either case from ten.
pub open spec fn digit_of(c: char, radix: int) -> Option<int> {
    let n = c as u32 as int;
    let d = if 0x30 <= n <= 0x39 {
        n - 0x30
    } else if 0x61 <= n <= 0x7a {
        n - 0x61 + 10
    } else if 0x41 <= n <= 0x5a {
        n - 0x41 + 10
    } else {
        radix
    };
    if d < radix {
        Some(d)
    } else {
        None
    }
}

/// Whether `s` is a number in `radix`: one digit or more, and digits only.
pub open spec fn is_number(s: Seq<char>, radix: int) -> bool {
    s.len() > 0 && forall|i: int| 0 <= i < s.len() ==> (#[trigger] digit_of(s[i], radix)) is Some
}

/// The value of the digits `s` in `radix`, most significant digit first.
pub open spec fn number_value(s: Seq<char>, radix: int) -> int
    decreases s.len(),
{
    if s.len() == 0 {
        0
    } else {
        number_value(s.drop_last(), radix) * radix + (match digit_of(s.last(), radix) {
            Some(d) => d,
            None => 0,
        })
    }
}

/// What follows the sign of `s`, or `s` itself where it has no sign.
pub open spec fn unsigned_part(s: Seq<char>) -> Seq<char> {
    if s.len() > 0 && (s[0] == '-' || s[0] == '+') {
        s.drop_first()
    } else {
        s
    }
}

/// The value of `s` with its sign: the value of its digits, negated where
/// `s` starts with `-`.
pub open spec fn signed_value(s: Seq<char>, radix: int) -> int {
    if s.len() > 0 && s[0] == '-' {
        -number_value(unsigned_part(s), radix)
    } else {
        number_value(unsigned_part(s), radix)
    }
}

/// The integer that `s` denotes in `radix`: an optional sign, `+` or `-`,
/// then a number whose signed value is an `i32`. Anything else denotes
/// nothing.
pub open spec fn parse_int(s: Seq<char>, radix: int) -> Option<i32> {
    if is_number(unsigned_part(s), radix) && i32::MIN <= signed_value(s, radix) <= i32::MAX {
        Some(signed_value(s, radix) as i32)
    } else {
        None
    }
}

/// The value of a number is not negative and does not shrink as digits are
/// added at its end.
pub proof fn lemma_number_value_grows(s: Seq<char>, k: int, radix: int)
    requires
        0 <= k <= s.len(),
        radix >= 1,
    ensures
        0 <= number_value(s.take(k), radix) <= number_value(s, radix),
    decreases s.len() - k,
{
    lemma_number_value_not_negative(s.take(k), radix);
    if k == s.len() {
        assert(s.take(k) =~= s);
    } else {
        let t = s.drop_last();
        assert(t.take(k) =~= s.take(k));
        lemma_number_value_grows(t, k, radix);
        let v = number_value(t, radix);
        assert(v * radix >= v) by (nonlinear_arith)
            requires
                v >= 0,
                radix >= 1,
        ;
    }
}

proof fn lemma_number_value_not_negative(s: Seq<char>, radix: int)
    requires
        radix >= 1,
    ensures
        number_value(s, radix) >= 0,
    decreases s.len(),
{
    if s.len() > 0 {
        lemma_number_value_not_negative(s.drop_last(), radix);
        let v = number_value(s.drop_last(), radix);
        assert(v * radix >= 0) by (nonlinear_arith)
            requires
                v >= 0,
                radix >= 1,
        ;
    }
}

/// The value of the digit `c` in `radix`.
pub fn digit_value(c: char, radix: u32) -> (d: Option<u32>)
    requires
        2 <= radix <= 36,
    ensures
        match d {
            Some(x) => digit_of(c, radix as int) == Some(x as int) && x < radix,
            None => digit_of(c, radix as int) is None,
        },
{
    let n = c as u32;
    let d: u32 = if 0x30 <= n && n <= 0x39 {
        n - 0x30
    } else if 0x61 <= n && n <= 0x7a {
        n - 0x61 + 10
    } else if 0x41 <= n && n <= 0x5a {
        n - 0x41 + 10
    } else {
        radix
    };
    if d < radix {
        Some(d)
    } else {
        None
    }
}

/// Reads `v` as a signed 32-bit integer in `radix`.
pub fn parse_i32(v: &Vec<char>, radix: u32) -> (r: Option<i32>)
    requires
        2 <= radix <= 36,
    ensures
        r == parse_int(v@, radix as int),
{
    let n = v.len();
    let negative = n > 0 && v[0] == '-';
    let start: usize = if n > 0 && (v[0] == '-' || v[0] == '+') {
        1
    } else {
        0
    };
    let ghost digits = unsigned_part(v@);
    assert(digits =~= v@.skip(start as int));
    if start == n {
        return None;
    }
    let mut acc: i64 = 0;
    let mut i: usize = start;
    assert(digits.take(0) =~= Seq::<char>::empty());
    while i < n
        invariant
            start <= i <= n,
            n == v.len(),
            digits == unsigned_part(v@),
            digits == v@.skip(start as int),
            2 <= radix <= 36,
            forall|j: int|
                0 <= j < i - start ==> (#[trigger] digit_of(digits[j], radix as int)) is Some,
            acc == number_value(digits.take(i - start), radix as int),
            0 <= acc <= 0x8000_0000,
        decreases n - i,
    {
        let ghost k = i - start;
        assert(digits[k] == v@[i as int]);
        assert(digits.take(k + 1).drop_last() =~= digits.take(k));
        assert(digits.take(k + 1).last() == digits[k]);
        match digit_value(v[i], radix) {
            None => {
                return None;
            },
            Some(d) => {
                assert(acc * radix <= 0x8000_0000 * 36) by (nonlinear_arith)
                    requires
                        0 <= acc <= 0x8000_0000,
                        2 <= radix <= 36,
                ;
                assert(acc * radix >= 0) by (nonlinear_arith)
                    requires
                        0 <= acc,
                        2 <= radix,
                ;
                let next: i64 = acc * (radix as i64) + (d as i64);
                assert(next == number_value(digits.take(k + 1), radix as int));
                if next > 0x8000_0000 {
                    proof {
                        lemma_number_value_grows(digits, k + 1, radix as int);
                    }
                    return None;
                }
                acc = next;
            },
        }
        i += 1;
    }
    assert(digits.take(n - start) =~= digits);
    let value: i64 = if negative {
        -acc
    } else {
        acc
    };
    if value > 0x7fff_ffff {
        None
    } else {
        Some(value as i32)
    }
}

/// The number that `s` denotes in `radix` without a sign: a number whose
/// value is a `u64`. Anything else denotes nothing.
pub open spec fn parse_unsigned(s: Seq<char>, radix: int) -> Option<u64> {
    if is_number(s, radix) && number_value(s, radix) <= u64::MAX {
        Some(number_value(s, radix) as u64)
    } else {
        None
    }
}

/// Reads `v` as an unsigned 64-bit integer in `radix`.
pub fn parse_u64(v: &Vec<char>, radix: u32) -> (r: Option<u64>)
    requires
        2 <= radix <= 36,
    ensures
        r == parse_unsigned(v@, radix as int),
{
    let n = v.len();
    if n == 0 {
        return None;
    }
    let mut acc: u128 = 0;
    let mut i: usize = 0;
    assert(v@.take(0) =~= Seq::<char>::empty());
    while i < n
        invariant
            i <= n,
            n == v.len(),
            2 <= radix <= 36,
            forall|j: int| 0 <= j < i ==> (#[trigger] digit_of(v@[j], radix as int)) is Some,
            acc == number_value(v@.take(i as int), radix as int),
            0 <= acc <= u64::MAX,
        decreases n - i,
    {
        assert(v@.take(i + 1).drop_last() =~= v@.take(i as int));
        assert(v@.take(i + 1).last() == v@[i as int]);
        match digit_value(v[i], radix) {
            None => {
                return None;
            },
            Some(d) => {
                assert(acc * radix <= u64::MAX * 36) by (nonlinear_arith)
                    requires
                        0 <= acc <= u64::MAX,
                        2 <= radix <= 36,
                ;
                assert(acc * radix >= 0) by (nonlinear_arith)
                    requires
                        0 <= acc,
                        2 <= radix,
                ;
                let next: u128 = acc * (radix as u128) + (d as u128);
                assert(next == number_value(v@.take(i + 1), radix as int));
                if next > 0xffff_ffff_ffff_ffff {
                    proof {
                        lemma_number_value_grows(v@, i + 1, radix as int);
                    }
                    return None;
                }
                acc = next;
            },
        }
        i += 1;
    }
    assert(v@.take(n as int) =~= v@);
    Some(acc as u64)
}

/// Zeros before a number do not change what it denotes.
pub proof fn lemma_leading_zero(s: Seq<char>, radix: int)
    requires
        radix >= 2,
        s.len() > 0,
    ensures
        is_number(seq!['0'] + s, radix) == is_number(s, radix),
        number_value(seq!['0'] + s, radix) == number_value(s, radix),
        parse_unsigned(seq!['0'] + s, radix) == parse_unsigned(s, radix),
    decreases s.len(),
{
    let z = seq!['0'];
    let padded = z + s;
    assert(digit_of('0', radix) == Some(0int));
    assert(padded.drop_last() =~= z + s.drop_last());
    assert(padded.last() == s.last());
    if s.len() == 1 {
        assert(s.drop_last() =~= Seq::<char>::empty());
        assert(z + s.drop_last() =~= z);
        assert(z.drop_last() =~= Seq::<char>::empty());
        reveal_with_fuel(number_value, 3);
        assert(number_value(z, radix) == 0);
    } else {
        lemma_leading_zero(s.drop_last(), radix);
    }
    if is_number(s, radix) {
        assert forall|i: int| 0 <= i < padded.len() implies (#[trigger] digit_of(
            padded[i],
            radix,
        )) is Some by {
            if i > 0 {
                assert(padded[i] == s[i - 1]);
            }
        }
    }
    if is_number(padded, radix) {
        assert forall|i: int| 0 <= i < s.len() implies (#[trigger] digit_of(
            s[i],
            radix,
        )) is Some by {
            assert(s[i] == padded[i + 1]);
        }
    }
}

/// The text of `n` zeros.
pub open spec fn zeros(n: nat) -> Seq<char> {
    Seq::new(n, |i: int| '0')
}

/// However many zeros stand before a number, it denotes the same.
pub proof fn lemma_leading_zeros(n: nat, s: Seq<char>, radix: int)
    requires
        radix >= 2,
        s.len() > 0,
    ensures
        parse_unsigned(zeros(n) + s, radix) == parse_unsigned(s, radix),
    decreases n,
{
    if n == 0 {
        assert(zeros(0) + s =~= s);
    } else {
        let rest = zeros((n - 1) as nat) + s;
        lemma_leading_zeros((n - 1) as nat, s, radix);
        lemma_leading_zero(rest, radix);
        assert(seq!['0'] + rest =~= zeros(n) + s);
    }
}

/// The character of the digit `d`, for a digit below sixteen; letters are
/// lower case.
pub open spec fn digit_char(d: int) -> char {
    if d == 0 {
        '0'
    } else if d == 1 {
        '1'
    } else if d == 2 {
        '2'
    } else if d == 3 {
        '3'
    } else if d == 4 {
        '4'
    } else if d == 5 {
        '5'
    } else if d == 6 {
        '6'
    } else if d == 7 {
        '7'
    } else if d == 8 {
        '8'
    } else if d == 9 {
        '9'
    } else if d == 10 {
        'a'
    } else if d == 11 {
        'b'
    } else if d == 12 {
        'c'
    } else if d == 13 {
        'd'
    } else if d == 14 {
        'e'
    } else {
        'f'
    }
}

/// The decimal digits of `n`, without leading zeros; `0` for zero.
pub open spec fn decimal_digits(n: nat) -> Seq<char>
    decreases n,
{
    if n < 10 {
        seq![digit_char(n as int)]
    } else {
        decimal_digits(n / 10).push(digit_char((n % 10) as int))
    }
}

/// The hexadecimal digits of `n`, in lower case and without leading zeros.
pub open spec fn hex_digits(n: nat) -> Seq<char>
    decreases n,
{
    if n < 16 {
        seq![digit_char(n as int)]
    } else {
        hex_digits(n / 16).push(digit_char((n % 16) as int))
    }
}

/// The integer `i` in decimal, with a `-` before it where it is negative.
pub open spec fn decimal(i: int) -> Seq<char> {
    if i < 0 {
        seq!['-'] + decimal_digits((-i) as nat)
    } else {
        decimal_digits(i as nat)
    }
}

/// The 32 bits of `i` as an unsigned number: a negative `i` stands for
/// `i + 2^32`.
pub open spec fn bits_of(i: i32) -> nat {
    if i < 0 {
        (i + 0x1_0000_0000) as nat
    } else {
        i as nat
    }
}

fn digit_to_char(d: u64) -> (c: char)
    requires
        d < 16,
    ensures
        c == digit_char(d as int),
{
    if d == 0 {
        '0'
    } else if d == 1 {
        '1'
    } else if d == 2 {
        '2'
    } else if d == 3 {
        '3'
    } else if d == 4 {
        '4'
    } else if d == 5 {
        '5'
    } else if d == 6 {
        '6'
    } else if d == 7 {
        '7'
    } else if d == 8 {
        '8'
    } else if d == 9 {
        '9'
    } else if d == 10 {
        'a'
    } else if d == 11 {
        'b'
    } else if d == 12 {
        'c'
    } else if d == 13 {
        'd'
    } else if d == 14 {
        'e'
    } else {
        'f'
    }
}

/// Appends the decimal digits of `n` to `out`.
pub fn push_decimal_digits(out: &mut Vec<char>, n: u64)
    ensures
        final(out)@ == old(out)@ + decimal_digits(n as nat),
    decreases n,
{
    let ghost before = out@;
    if n < 10 {
        out.push(digit_to_char(n));
        assert(out@ =~= before + decimal_digits(n as nat));
    } else {
        push_decimal_digits(out, n / 10);
        out.push(digit_to_char(n % 10));
        assert(out@ =~= before + decimal_digits(n as nat));
    }
}

/// Appends the hexadecimal digits of `n` to `out`.
pub fn push_hex_digits(out: &mut Vec<char>, n: u64)
    ensures
        final(out)@ == old(out)@ + hex_digits(n as nat),
    decreases n,
{
    let ghost before = out@;
    if n < 16 {
        out.push(digit_to_char(n));
        assert(out@ =~= before + hex_digits(n as nat));
    } else {
        push_hex_digits(out, n / 16);
        out.push(digit_to_char(n % 16));
        assert(out@ =~= before + hex_digits(n as nat));
    }
}

/// Appends `i` in decimal to `out`.
pub fn push_decimal(out: &mut Vec<char>, i: i64)
    requires
        i > i64::MIN,
    ensures
        final(out)@ == old(out)@ + decimal(i as int),
{
    let ghost before = out@;
    if i < 0 {
        out.push('-');
        push_decimal_digits(out, (-i) as u64);
        assert(out@ =~= before + decimal(i as int));
    } else {
        push_decimal_digits(out, i as u64);
    }
}

/// Appends the 32 bits of `i` in hexadecimal to `out`.
pub fn push_hex(out: &mut Vec<char>, i: i32)
    ensures
        final(out)@ == old(out)@ + hex_digits(bits_of(i)),
{
    let n: u64 = if i < 0 {
        (i as i64 + 0x1_0000_0000) as u64
    } else {
        i as u64
    };
    push_hex_digits(out, n);
}

} // verus!
