//! Decimal notation for the integers that appear in diagnostics.

use vstd::prelude::*;
use vstd::string::*;

verus! {

/// The character of one decimal digit.
pub open spec fn digit_char(d: nat) -> char {
    if d == 0 {
        '0'
    } else if d == 1 {
        '1'
    } else if d == 2 {
        '2'
    } else if d == 3 {
        '3'
    } else if d == 4 {
        '4'
    } else if d == 5 {
        '5'
    } else if d == 6 {
        '6'
    } else if d == 7 {
        '7'
    } else if d == 8 {
        '8'
    } else {
        '9'
    }
}

/// A natural number in decimal notation, without leading zeros.
pub open spec fn decimal_digits(n: nat) -> Seq<char>
    decreases n,
{
    if n < 10 {
        seq![digit_char(n)]
    } else {
        decimal_digits(n / 10).push(digit_char(n % 10))
    }
}

/// An integer in decimal notation: a minus sign where it is negative, then
/// its magnitude.
pub open spec fn decimal(i: int) -> Seq<char> {
    if i < 0 {
        seq!['-'] + decimal_digits((-i) as nat)
    } else {
        decimal_digits(i as nat)
    }
}

/// The digits of `ds`, last one first, as characters.
pub open spec fn reversed_digits(ds: Seq<u8>) -> Seq<char>
    decreases ds.len(),
{
    if ds.len() == 0 {
        Seq::<char>::empty()
    } else {
        seq![digit_char(ds.last() as nat)] + reversed_digits(ds.drop_last())
    }
}

fn digit_str(d: u8) -> (s: &'static str)
    requires
        d < 10,
    ensures
        s@ == seq![digit_char(d as nat)],
{
    proof {
        reveal_strlit("0");
        reveal_strlit("1");
        reveal_strlit("2");
        reveal_strlit("3");
        reveal_strlit("4");
        reveal_strlit("5");
        reveal_strlit("6");
        reveal_strlit("7");
        reveal_strlit("8");
        reveal_strlit("9");
    }
    let s = if d == 0 {
        "0"
    } else if d == 1 {
        "1"
    } else if d == 2 {
        "2"
    } else if d == 3 {
        "3"
    } else if d == 4 {
        "4"
    } else if d == 5 {
        "5"
    } else if d == 6 {
        "6"
    } else if d == 7 {
        "7"
    } else if d == 8 {
        "8"
    } else {
        "9"
    };
    assert(s@ =~= seq![digit_char(d as nat)]);
    s
}

/// Appends the decimal notation of `n` to `out`.
pub fn push_decimal_u64(out: &mut String, n: u64)
    ensures
        final(out)@ == old(out)@ + decimal_digits(n as nat),
{
    let ghost before = out@;
    let mut digits: Vec<u8> = Vec::new();
    let mut rest: u64 = n;
    assert(reversed_digits(digits@) =~= Seq::<char>::empty());
    while rest >= 10
        invariant
            forall|j: int| 0 <= j < digits.len() ==> digits[j] < 10,
            decimal_digits(n as nat) == decimal_digits(rest as nat) + reversed_digits(digits@),
        decreases rest,
    {
        let d: u8 = (rest % 10) as u8;
        proof {
            let grown = digits@.push(d);
            assert(grown.drop_last() =~= digits@);
            assert(reversed_digits(grown) == seq![digit_char(d as nat)] + reversed_digits(
                digits@,
            ));
            assert(decimal_digits(rest as nat) == decimal_digits((rest / 10) as nat).push(
                digit_char(d as nat),
            ));
            assert(decimal_digits((rest / 10) as nat).push(digit_char(d as nat))
                + reversed_digits(digits@) =~= decimal_digits((rest / 10) as nat)
                + reversed_digits(grown));
        }
        digits.push(d);
        rest = rest / 10;
    }
    let top: u8 = rest as u8;
    out.append(digit_str(top));
    let mut k: usize = digits.len();
    assert(digits@.take(k as int) =~= digits@);
    while k > 0
        invariant
            k <= digits.len(),
            forall|j: int| 0 <= j < digits.len() ==> digits[j] < 10,
            out@ + reversed_digits(digits@.take(k as int)) == before + decimal_digits(n as nat),
        decreases k,
    {
        proof {
            let head = digits@.take(k as int);
            assert(head.drop_last() =~= digits@.take(k - 1));
            assert(head.last() == digits[k - 1]);
            assert((out@ + seq![digit_char(digits[k - 1] as nat)]) + reversed_digits(
                digits@.take(k - 1),
            ) =~= out@ + reversed_digits(head));
        }
        k = k - 1;
        out.append(digit_str(digits[k]));
    }
    assert(out@ + reversed_digits(digits@.take(0)) =~= out@);
}

/// Appends the decimal notation of `i` to `out`.
pub fn push_decimal_i32(out: &mut String, i: i32)
    ensures
        final(out)@ == old(out)@ + decimal(i as int),
{
    if i < 0 {
        proof {
            reveal_strlit("-");
        }
        let ghost before = out@;
        out.append("-");
        let magnitude: u64 = if i == i32::MIN {
            2147483648u64
        } else {
            (-i) as u64
        };
        push_decimal_u64(out, magnitude);
        assert(out@ =~= before + decimal(i as int));
    } else {
        push_decimal_u64(out, i as u64);
    }
}

/// The decimal notation of `i`.
pub fn decimal_string(i: i32) -> (s: String)
    ensures
        s@ == decimal(i as int),
{
    let mut s = String::new();
    push_decimal_i32(&mut s, i);
    assert(s@ =~= decimal(i as int));
    s
}

} // verus!
