//! Text: comparison, concatenation and decimal numbers.

use vstd::prelude::*;
use vstd::string::*;

verus! {

/// Whether two texts are equal.
pub fn same_text(a: &str, b: &str) -> (same: bool)
    ensures
        same == (a@ == b@),
{
    a.to_owned() == b.to_owned()
}

/// The decimal digit for a number below ten.
pub open spec fn digit(d: int) -> char {
    ((48 + d) as u8) as char
}

/// A number in decimal, without leading zeros.
pub open spec fn decimal(n: nat) -> Seq<char>
    decreases n,
{
    if n < 10 { seq![digit(n as int)] } else { decimal(n / 10).push(digit((n % 10) as int)) }
}

fn digit_text(d: u64) -> (text: &'static str)
    requires
        d < 10,
    ensures
        text@ == seq![digit(d as int)],
{
    proof {
        reveal_strlit("0");
        reveal_strlit("1");
        reveal_strlit("2");
        reveal_strlit("3");
        reveal_strlit("4");
        reveal_strlit("5");
        reveal_strlit("6");
        reveal_strlit("7");
        reveal_strlit("8");
        reveal_strlit("9");
    }
    let text: &'static str = match d {
        0 => "0",
        1 => "1",
        2 => "2",
        3 => "3",
        4 => "4",
        5 => "5",
        6 => "6",
        7 => "7",
        8 => "8",
        _ => "9",
    };
    proof {
        assert(text@ =~= seq![digit(d as int)]);
    }
    text
}

/// Appends a number in decimal.
pub fn push_decimal(out: &mut String, n: u64)
    ensures
        final(out)@ == old(out)@ + decimal(n as nat),
    decreases n,
{
    if n >= 10 {
        push_decimal(out, n / 10);
    }
    out.append(digit_text(n % 10));
    proof {
        assert(out@ =~= old(out)@ + decimal(n as nat));
    }
}

/// Appends a number in decimal, however large.
pub fn push_wide_decimal(out: &mut String, n: u128)
    ensures
        final(out)@ == old(out)@ + decimal(n as nat),
    decreases n,
{
    if n >= 10 {
        push_wide_decimal(out, n / 10);
    }
    out.append(digit_text((n % 10) as u64));
    proof {
        assert(out@ =~= old(out)@ + decimal(n as nat));
    }
}

/// A number in decimal.
pub fn decimal_text(n: u64) -> (text: String)
    ensures
        text@ == decimal(n as nat),
{
    let mut text: String = String::new();
    push_decimal(&mut text, n);
    proof {
        assert(text@ =~= decimal(n as nat));
    }
    text
}

/// The value that ASCII decimal digits write, most significant first.
pub open spec fn decimal_value(digits: Seq<u8>) -> nat
    decreases digits.len(),
{
    if digits.len() == 0 {
        0
    } else {
        decimal_value(digits.drop_last()) * 10 + (digits.last() - 48) as nat
    }
}

/// Whether every byte is an ASCII decimal digit.
pub open spec fn all_digits(s: Seq<u8>) -> bool {
    forall|i: int| 0 <= i < s.len() ==> 48 <= #[trigger] s[i] <= 57
}

/// The bytes behind one leading plus sign, where there is one.
pub open spec fn unsigned_part(s: Seq<u8>) -> Seq<u8> {
    if s.len() > 1 && s[0] == 43 { s.skip(1) } else { s }
}

/// The number that a text writes: at least one decimal digit and nothing else,
/// but for one plus sign in front; and no more than `max`.
pub open spec fn parsed_number(s: Seq<u8>, max: nat) -> Option<nat> {
    let digits = unsigned_part(s);
    if digits.len() == 0 || !all_digits(digits) || decimal_value(digits) > max {
        None
    } else {
        Some(decimal_value(digits))
    }
}

proof fn lemma_prefix_is_smaller(digits: Seq<u8>, n: int)
    requires
        all_digits(digits),
        0 <= n <= digits.len(),
    ensures
        decimal_value(digits.take(n)) <= decimal_value(digits),
    decreases digits.len() - n,
{
    if n == digits.len() {
        assert(digits.take(n) =~= digits);
    } else {
        lemma_prefix_is_smaller(digits, n + 1);
        assert(digits.take(n + 1).drop_last() =~= digits.take(n));
    }
}

/// Reads a number that is no more than `max`.
pub fn parse_number_up_to(s: &[u8], max: u64) -> (r: Option<u64>)
    ensures
        r == (match parsed_number(s@, max as nat) {
            Some(n) => Some(n as u64),
            None => None,
        }),
{
    let start: usize = if s.len() > 1 && s[0] == 43 { 1 } else { 0 };
    let ghost digits: Seq<u8> = unsigned_part(s@);
    if s.len() == 0 {
        return None;
    }
    proof {
        assert(digits =~= s@.skip(start as int));
        assert(digits.take(0) =~= Seq::<u8>::empty());
    }
    let mut value: u64 = 0;
    let mut i: usize = start;
    while i < s.len()
        invariant
            start <= i <= s@.len(),
            digits == s@.skip(start as int),
            digits.len() > 0,
            digits == unsigned_part(s@),
            all_digits(digits.take(i - start)),
            value == decimal_value(digits.take(i - start)),
            value <= max,
        decreases s@.len() - i,
    {
        let b: u8 = s[i];
        proof {
            assert(digits[i - start] == b);
            assert(digits.take(i - start + 1).drop_last() =~= digits.take(i - start));
        }
        if b < 48 || b > 57 {
            return None;
        }
        proof {
            assert(all_digits(digits.take(i - start + 1))) by {
                assert forall|k: int| 0 <= k < i - start + 1 implies 48 <= #[trigger] digits.take(
                    i - start + 1,
                )[k] <= 57 by {
                    if k < i - start {
                        assert(digits.take(i - start)[k] == digits[k]);
                    }
                }
            }
        }
        let wide: u128 = value as u128 * 10 + (b - 48) as u128;
        if wide > max as u128 {
            proof {
                if all_digits(digits) {
                    lemma_prefix_is_smaller(digits, i - start + 1);
                }
            }
            return None;
        }
        value = wide as u64;
        i = i + 1;
    }
    proof {
        assert(digits.take(i - start) =~= digits);
    }
    Some(value)
}

/// Reading back a number written in decimal gives the number.
pub proof fn written_numbers_read_back(n: nat, max: nat)
    requires
        n <= max,
    ensures
        parsed_number(decimal(n).map_values(|c: char| c as u8), max) == Some(n),
{
    lemma_decimal_digits(n);
    let s: Seq<u8> = decimal(n).map_values(|c: char| c as u8);
    assert(unsigned_part(s) == s);
}

pub(crate) proof fn lemma_decimal_digits(n: nat)
    ensures
        decimal(n).len() >= 1,
        all_digits(decimal(n).map_values(|c: char| c as u8)),
        decimal_value(decimal(n).map_values(|c: char| c as u8)) == n,
    decreases n,
{
    let s: Seq<u8> = decimal(n).map_values(|c: char| c as u8);
    reveal_with_fuel(decimal_value, 2);
    if n < 10 {
        assert(s.drop_last() =~= Seq::<u8>::empty());
    } else {
        lemma_decimal_digits(n / 10);
        let front: Seq<u8> = decimal(n / 10).map_values(|c: char| c as u8);
        assert(s.drop_last() =~= front);
        assert forall|i: int| 0 <= i < s.len() implies 48 <= #[trigger] s[i] <= 57 by {
            if i < front.len() {
                assert(s[i] == front[i]);
            }
        }
    }
}

/// A text that writes a number is made of digits, but for one plus sign that may stand in
/// front and changes nothing.
pub proof fn numbers_are_made_of_digits(s: Seq<u8>, max: nat)
    requires
        s.len() > 0,
        s[0] != 43,
    ensures
        parsed_number(seq![43u8] + s, max) == parsed_number(s, max),
        parsed_number(seq![43u8], max) is None,
        parsed_number(Seq::empty(), max) is None,
        parsed_number(s, max) is Some ==> forall|i: int|
            0 <= i < s.len() ==> 48 <= #[trigger] s[i] <= 57,
        parsed_number(s, max) matches Some(n) ==> n <= max,
{
    let signed: Seq<u8> = seq![43u8] + s;
    assert(signed.skip(1) =~= s);
    assert(seq![43u8][0] == 43);
    assert(unsigned_part(s) == s);
    assert(unsigned_part(signed) == s);
    assert(!all_digits(seq![43u8])) by {
        let plus: Seq<u8> = seq![43u8];
        assert(!(48 <= plus[0] <= 57));
    }
}

} // verus!
