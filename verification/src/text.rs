//! Strings as sequences of characters: reading them, writing decimal numbers and reading
//! signed ones.

use vstd::arithmetic::power::{lemma_pow0, pow};
use vstd::prelude::*;
use vstd::string::*;

verus! {

/// The decimal digit `d`.
pub open spec fn digit_char(d: int) -> char {
    ('0' as int + d) as char
}

/// `n` in decimal, without leading zeros.
pub open spec fn decimal(n: nat) -> Seq<char>
    decreases n,
{
    if n < 10 {
        seq![digit_char(n as int)]
    } else {
        decimal(n / 10).push(digit_char((n % 10) as int))
    }
}

/// Every character is one of `0` to `9`.
pub open spec fn all_digits(s: Seq<char>) -> bool {
    forall|i: int| 0 <= i < s.len() ==> '0' <= #[trigger] s[i] <= '9'
}

/// What a sequence of digits stands for, most significant first.
pub open spec fn digits_value(s: Seq<char>) -> int
    decreases s.len(),
{
    if s.len() == 0 {
        0
    } else {
        digits_value(s.drop_last()) * 10 + (s.last() as int - '0' as int)
    }
}

/// The `i32` that a text stands for: an optional sign and at least one digit, nothing else, and
/// a value in range.
pub open spec fn i32_of(s: Seq<char>) -> Option<int> {
    let signed = s.len() > 0 && (s[0] == '+' || s[0] == '-');
    let digits = if signed {
        s.skip(1)
    } else {
        s
    };
    let magnitude = digits_value(digits);
    let value = if signed && s[0] == '-' {
        -magnitude
    } else {
        magnitude
    };
    if digits.len() > 0 && all_digits(digits) && i32::MIN <= value <= i32::MAX {
        Some(value)
    } else {
        None
    }
}

/// The code point of a character, with `A` to `Z` taken as lower case.
pub open spec fn lower_code(c: char) -> int {
    if 'A' <= c <= 'Z' {
        c as int + 32
    } else {
        c as int
    }
}

/// Whether two texts are the same but for the case of `A` to `Z`.
pub open spec fn same_ignoring_case(a: Seq<char>, b: Seq<char>) -> bool {
    &&& a.len() == b.len()
    &&& forall|i: int| 0 <= i < a.len() ==> lower_code(#[trigger] a[i]) == lower_code(b[i])
}

/// The characters of `s`, in order.
pub fn to_chars(s: &str) -> (chars: Vec<char>)
    ensures
        chars@ == s@,
{
    let mut chars: Vec<char> = Vec::new();
    for c in it: s.chars()
        invariant
            it.seq() == s@,
            chars@ == s@.take(it.index() as int),
    {
        chars.push(c);
    }
    chars
}

/// The digit at a place counted from the left never makes the value smaller.
proof fn lemma_digits_step(s: Seq<char>, i: int)
    requires
        all_digits(s),
        0 <= i < s.len(),
    ensures
        digits_value(s.take(i + 1)) == digits_value(s.take(i)) * 10 + (s[i] as int - '0' as int),
        0 <= s[i] as int - '0' as int <= 9,
{
    assert(s.take(i + 1).drop_last() =~= s.take(i));
    assert('0' <= s[i] <= '9');
}

/// Digits stand for a number that is not negative.
proof fn lemma_digits_nonnegative(s: Seq<char>)
    requires
        all_digits(s),
    ensures
        digits_value(s) >= 0,
    decreases s.len(),
{
    if s.len() > 0 {
        lemma_digits_step(s, s.len() - 1);
        assert(s.take(s.len() as int) =~= s);
        assert(s.take(s.len() - 1) =~= s.drop_last());
        lemma_digits_nonnegative(s.drop_last());
    }
}

/// Reads an `i32` from text: an optional sign, then digits only.
pub fn parse_i32(s: &[char]) -> (r: Option<i32>)
    ensures
        r is Some <==> i32_of(s@) is Some,
        r matches Some(v) ==> i32_of(s@) == Some(v as int),
{
    let len: usize = s.len();
    let signed: bool = len > 0 && (s[0] == '+' || s[0] == '-');
    let negative: bool = signed && s[0] == '-';
    let start: usize = if signed { 1 } else { 0 };
    let ghost digits = if signed {
        s@.skip(1)
    } else {
        s@
    };
    if start == len {
        return None;
    }
    let mut magnitude: u64 = 0;
    let mut too_large: bool = false;
    let mut i: usize = start;
    while i < len
        invariant
            len == s@.len(),
            start <= i <= len,
            signed == (s@.len() > 0 && (s@[0] == '+' || s@[0] == '-')),
            digits == (if signed {
                s@.skip(1)
            } else {
                s@
            }),
            digits == s@.skip(start as int),
            all_digits(digits.take(i - start)),
            magnitude <= 0x8000_0000,
            !too_large ==> digits_value(digits.take(i - start)) == magnitude,
            too_large ==> digits_value(digits.take(i - start)) > 0x8000_0000,
        decreases len - i,
    {
        let c: char = s[i];
        assert(digits[i - start] == c);
        if !('0' <= c && c <= '9') {
            assert(!all_digits(digits));
            return None;
        }
        let digit: u64 = (c as u32 - '0' as u32) as u64;
        proof {
            let upto = digits.take(i - start + 1);
            assert(all_digits(upto)) by {
                assert forall|j: int| 0 <= j < upto.len() implies '0' <= #[trigger] upto[j] <= '9' by {
                    if j < i - start {
                        assert(upto[j] == digits.take(i - start)[j]);
                    }
                }
            }
            lemma_digits_step(upto, i - start);
            assert(upto.take(i - start + 1) =~= upto);
            assert(upto.take(i - start) =~= digits.take(i - start));
        }
        if !too_large {
            let next: u64 = magnitude * 10 + digit;
            if next > 0x8000_0000 {
                too_large = true;
            } else {
                magnitude = next;
            }
        }
        i = i + 1;
    }
    assert(digits.take(len - start) =~= digits);
    proof {
        lemma_digits_nonnegative(digits);
    }
    if too_large {
        return None;
    }
    if negative {
        Some((-(magnitude as i64)) as i32)
    } else if magnitude == 0x8000_0000 {
        None
    } else {
        Some(magnitude as i32)
    }
}

/// The digit `d` as text.
fn digit_text(d: u64) -> (r: &'static str)
    requires
        d < 10,
    ensures
        r@ == seq![digit_char(d as int)],
{
    proof {
        reveal_strlit("0");
        reveal_strlit("1");
        reveal_strlit("2");
        reveal_strlit("3");
        reveal_strlit("4");
        reveal_strlit("5");
        reveal_strlit("6");
        reveal_strlit("7");
        reveal_strlit("8");
        reveal_strlit("9");
    }
    match d {
        0 => "0",
        1 => "1",
        2 => "2",
        3 => "3",
        4 => "4",
        5 => "5",
        6 => "6",
        7 => "7",
        8 => "8",
        _ => "9",
    }
}

/// Appends `n` in decimal.
pub fn push_decimal(out: &mut String, n: u64)
    ensures
        final(out)@ == old(out)@ + decimal(n as nat),
    decreases n,
{
    if n >= 10 {
        push_decimal(out, n / 10);
    }
    out.append(digit_text(n % 10));
}

/// `first` followed by `second`.
pub fn concat(first: &str, second: &str) -> (r: String)
    ensures
        r@ == first@ + second@,
{
    let mut r: String = first.to_string();
    r.append(second);
    r
}

/// The code point of `c`, with `A` to `Z` taken as lower case.
fn to_lower_code(c: char) -> (r: u32)
    ensures
        r == lower_code(c),
{
    if 'A' <= c && c <= 'Z' {
        c as u32 + 32
    } else {
        c as u32
    }
}

/// Whether two strings are the same but for the case of `A` to `Z`.
pub fn eq_ignore_ascii_case(a: &str, b: &str) -> (r: bool)
    ensures
        r == same_ignoring_case(a@, b@),
{
    let left: Vec<char> = to_chars(a);
    let right: Vec<char> = to_chars(b);
    if left.len() != right.len() {
        return false;
    }
    let mut i: usize = 0;
    while i < left.len()
        invariant
            left@ == a@,
            right@ == b@,
            left@.len() == right@.len(),
            i <= left@.len(),
            forall|j: int| 0 <= j < i ==> lower_code(#[trigger] left@[j]) == lower_code(right@[j]),
        decreases left@.len() - i,
    {
        if to_lower_code(left[i]) != to_lower_code(right[i]) {
            assert(lower_code(a@[i as int]) != lower_code(b@[i as int]));
            return false;
        }
        i = i + 1;
    }
    true
}

/// Each of the ten digits stands for its place among them, and is how that number is written.
pub proof fn digits_stand_for_their_place(d: int)
    requires
        0 <= d < 10,
    ensures
        digits_value(seq!["0123456789"@[d]]) == d,
        decimal(d as nat) == seq!["0123456789"@[d]],
        digit_char(d) == "0123456789"@[d],
{
    reveal_strlit("0123456789");
    let s = seq!["0123456789"@[d]];
    assert(s.drop_last() =~= Seq::<char>::empty());
    reveal_with_fuel(digits_value, 2);
    assert("0123456789"@[d] as int == '0' as int + d);
}

/// Digits in front of others count ten times as much for each of those.
pub proof fn digits_are_positional(high: Seq<char>, low: Seq<char>)
    ensures
        digits_value(high + low) == digits_value(high) * pow(10, low.len()) + digits_value(low),
    decreases low.len(),
{
    if low.len() == 0 {
        lemma_pow0(10);
        assert(high + low =~= high);
    } else {
        digits_are_positional(high, low.drop_last());
        assert((high + low).drop_last() =~= high + low.drop_last());
        reveal(pow);
        let p = pow(10, (low.len() - 1) as nat);
        let v = digits_value(high);
        assert(pow(10, low.len()) == 10 * p);
        assert(v * (10 * p) == (v * p) * 10) by (nonlinear_arith);
    }
}

/// Only the ten digits are digits.
pub proof fn there_are_ten_digits(s: Seq<char>)
    ensures
        all_digits(s) <==> forall|i: int| 0 <= i < s.len() ==> "0123456789"@.contains(#[trigger] s[i]),
{
    reveal_strlit("0123456789");
    let ten = "0123456789"@;
    if all_digits(s) {
        assert forall|i: int| 0 <= i < s.len() implies ten.contains(#[trigger] s[i]) by {
            let d = s[i] as int - '0' as int;
            assert(ten[d] as int == '0' as int + d);
            assert(ten[d] == s[i]);
        }
    } else {
        let i = choose|i: int| 0 <= i < s.len() && !('0' <= #[trigger] s[i] <= '9');
        assert(!ten.contains(s[i]));
    }
}

/// A number in decimal is made of digits, reads back as itself and has no zero in front.
pub proof fn decimal_reads_back(n: nat)
    ensures
        all_digits(decimal(n)),
        digits_value(decimal(n)) == n,
        decimal(n).len() > 0,
        decimal(n).len() > 1 ==> decimal(n)[0] != '0',
        n > 0 ==> decimal(n)[0] != '0',
    decreases n,
{
    if n < 10 {
        digits_stand_for_their_place(n as int);
        reveal_strlit("0123456789");
    } else {
        let front = decimal(n / 10);
        let last = digit_char((n % 10) as int);
        decimal_reads_back(n / 10);
        assert(decimal(n) == front.push(last));
        assert(decimal(n).drop_last() =~= front);
        assert forall|i: int| 0 <= i < decimal(n).len() implies '0' <= #[trigger] decimal(n)[i]
            <= '9' by {
            if i < front.len() {
                assert(decimal(n)[i] == front[i]);
            }
        }
        assert(decimal(n)[0] == front[0]);
    }
}

/// Different numbers are written differently.
pub proof fn decimals_differ(m: nat, n: nat)
    requires
        m != n,
    ensures
        decimal(m) != decimal(n),
{
    decimal_reads_back(m);
    decimal_reads_back(n);
}

/// Digits, with a sign in front or without, are read as the number they stand for on its side of
/// zero, where 32 bits can hold it.
pub proof fn signed_digits_are_read(sign: Seq<char>, digits: Seq<char>)
    requires
        sign == ""@ || sign == "+"@ || sign == "-"@,
        digits.len() > 0,
        forall|i: int| 0 <= i < digits.len() ==> "0123456789"@.contains(#[trigger] digits[i]),
    ensures
        ({
            let value = if sign == "-"@ {
                -digits_value(digits)
            } else {
                digits_value(digits)
            };
            i32_of(sign + digits) == (if -2_147_483_648 <= value <= 2_147_483_647 {
                Some(value)
            } else {
                None
            })
        }),
{
    reveal_strlit("");
    reveal_strlit("+");
    reveal_strlit("-");
    there_are_ten_digits(digits);
    assert('0' <= digits[0] <= '9');
    let s = sign + digits;
    if sign.len() == 0 {
        assert(s =~= digits);
    } else {
        assert(s.skip(1) =~= digits);
        assert(s[0] == sign[0]);
    }
}

/// What is read is digits, after at most one sign.
pub proof fn only_signed_digits_are_read(s: Seq<char>)
    requires
        i32_of(s) is Some,
    ensures
        ({
            let digits = if s[0] == '+' || s[0] == '-' {
                s.skip(1)
            } else {
                s
            };
            &&& s.len() > 0
            &&& digits.len() > 0
            &&& forall|i: int|
                0 <= i < digits.len() ==> "0123456789"@.contains(#[trigger] digits[i])
        }),
{
    let digits = if s[0] == '+' || s[0] == '-' {
        s.skip(1)
    } else {
        s
    };
    assert(s.len() > 0);
    there_are_ten_digits(digits);
}

/// Every number of 32 bits is read from its decimal text, whichever way its sign is written.
pub proof fn every_i32_is_read(n: int)
    requires
        -2_147_483_648 <= n <= 2_147_483_647,
    ensures
        n >= 0 ==> i32_of(decimal(n as nat)) == Some(n) && i32_of("+"@ + decimal(n as nat)) == Some(n),
        n <= 0 ==> i32_of("-"@ + decimal((-n) as nat)) == Some(n),
{
    let magnitude: nat = if n < 0 {
        (-n) as nat
    } else {
        n as nat
    };
    reveal_strlit("");
    reveal_strlit("+");
    reveal_strlit("-");
    decimal_reads_back(magnitude);
    there_are_ten_digits(decimal(magnitude));
    signed_digits_are_read(""@, decimal(magnitude));
    signed_digits_are_read("+"@, decimal(magnitude));
    signed_digits_are_read("-"@, decimal(magnitude));
    assert(""@ + decimal(magnitude) =~= decimal(magnitude));
}

/// Two characters are the same but for case if they are equal or the upper and the lower form of
/// one of the 26 letters, and two texts if their characters are, place by place.
pub proof fn case_is_that_of_the_letters(a: Seq<char>, b: Seq<char>)
    ensures
        same_ignoring_case(a, b) <==> (a.len() == b.len() && forall|i: int|
            #![trigger a[i]]
            0 <= i < a.len() ==> (a[i] == b[i] || exists|k: int|
                0 <= k < 26 && {
                    let upper = #[trigger] "ABCDEFGHIJKLMNOPQRSTUVWXYZ"@[k];
                    let lower = "abcdefghijklmnopqrstuvwxyz"@[k];
                    (a[i] == upper && b[i] == lower) || (a[i] == lower && b[i] == upper)
                })),
{
    reveal_strlit("ABCDEFGHIJKLMNOPQRSTUVWXYZ");
    reveal_strlit("abcdefghijklmnopqrstuvwxyz");
    let uppers = "ABCDEFGHIJKLMNOPQRSTUVWXYZ"@;
    let lowers = "abcdefghijklmnopqrstuvwxyz"@;
    assert forall|k: int| 0 <= k < 26 implies #[trigger] uppers[k] as int == 'A' as int + k
        && lowers[k] as int == 'a' as int + k by {}
    if same_ignoring_case(a, b) {
        assert forall|i: int| #![trigger a[i]] 0 <= i < a.len() implies (a[i] == b[i] || exists|
            k: int,
        |
            0 <= k < 26 && {
                let upper = #[trigger] uppers[k];
                let lower = lowers[k];
                (a[i] == upper && b[i] == lower) || (a[i] == lower && b[i] == upper)
            }) by {
            assert(lower_code(a[i]) == lower_code(b[i]));
            if a[i] != b[i] {
                let k = if 'A' <= a[i] <= 'Z' {
                    a[i] as int - 'A' as int
                } else {
                    b[i] as int - 'A' as int
                };
                assert(uppers[k] as int == 'A' as int + k);
                assert(lowers[k] as int == 'a' as int + k);
            }
        }
    }
}

} // verus!
