//! Digit strings for integers, as the encoder's arguments and identifiers
//! spell them.
use vstd::arithmetic::div_mod::lemma_small_mod;
use vstd::prelude::*;

verus! {

/// The character that stands for digit `d` (lower-case beyond nine).
pub open spec fn digit_char(d: nat) -> char {
    if d < 10 {
        ((d + 48) as u8) as char
    } else {
        ((d + 87) as u8) as char
    }
}

/// `n` written in `base`, most significant digit first, without leading zeros.
pub open spec fn digits(n: nat, base: nat) -> Seq<char>
    decreases n
    via digits_decreases

{
    if base < 2 || n < base {
        seq![digit_char(n)]
    } else {
        digits(n / base, base) + seq![digit_char(n % base)]
    }
}

#[via_fn]
proof fn digits_decreases(n: nat, base: nat) {
    if !(base < 2 || n < base) {
        assert(n / base < n) by (nonlinear_arith)
            requires
                base >= 2,
                n >= base,
        ;
    }
}

/// The number that a digit character stands for.
pub open spec fn char_value(c: char) -> nat {
    if '0' <= c && c <= '9' {
        (c as nat - 48) as nat
    } else if 'a' <= c && c <= 'f' {
        (c as nat - 87) as nat
    } else {
        0
    }
}

/// The number that a digit sequence stands for in `base`.
pub open spec fn digits_value(s: Seq<char>, base: nat) -> nat
    decreases s.len(),
{
    if s.len() == 0 {
        0
    } else {
        digits_value(s.drop_last(), base) * base + char_value(s.last())
    }
}

proof fn lemma_char_value(d: nat)
    requires
        d < 16,
    ensures
        char_value(digit_char(d)) == d,
{
}

/// Reading back the digits of `n` gives `n`.
pub proof fn lemma_digits_value(n: nat, base: nat)
    requires
        2 <= base <= 16,
    ensures
        digits_value(digits(n, base), base) == n,
    decreases n,
{
    lemma_char_value(n % base);
    if n < base {
        lemma_small_mod(n, base);
        assert(digits(n, base) == seq![digit_char(n)]);
        assert(digits(n, base).drop_last() =~= Seq::<char>::empty());
        assert(digits_value(Seq::<char>::empty(), base) == 0);
        assert(digits(n, base).last() == digit_char(n));
        assert(0 * base == 0);
    } else {
        assert(n / base < n) by (nonlinear_arith)
            requires
                base >= 2,
                n >= base,
        ;
        lemma_digits_value(n / base, base);
        let s = digits(n, base);
        assert(s.drop_last() =~= digits(n / base, base));
        assert(s.last() == digit_char(n % base));
        assert(digits_value(s, base) == digits_value(digits(n / base, base), base) * base
            + char_value(digit_char(n % base)));
        assert(char_value(digit_char(n % base)) == n % base);
        assert((n / base) * base + n % base == n) by (nonlinear_arith)
            requires
                base > 0,
        ;
    }
}

proof fn lemma_quotient_zero_iff(n: nat, base: nat)
    requires
        base > 0,
    ensures
        (n / base == 0) == (n < base),
{
    assert((n / base == 0) == (n < base)) by (nonlinear_arith)
        requires
            base > 0,
    ;
}

/// The one-character string for digit `d`.
fn digit_string(d: u64) -> (r: String)
    requires
        d < 16,
    ensures
        r@ == seq![digit_char(d as nat)],
{
    let s: &str = match d {
        0 => "0",
        1 => "1",
        2 => "2",
        3 => "3",
        4 => "4",
        5 => "5",
        6 => "6",
        7 => "7",
        8 => "8",
        9 => "9",
        10 => "a",
        11 => "b",
        12 => "c",
        13 => "d",
        14 => "e",
        _ => "f",
    };
    proof {
        reveal_strlit("0");
        reveal_strlit("1");
        reveal_strlit("2");
        reveal_strlit("3");
        reveal_strlit("4");
        reveal_strlit("5");
        reveal_strlit("6");
        reveal_strlit("7");
        reveal_strlit("8");
        reveal_strlit("9");
        reveal_strlit("a");
        reveal_strlit("b");
        reveal_strlit("c");
        reveal_strlit("d");
        reveal_strlit("e");
        reveal_strlit("f");
    }
    let r = String::from_str(s);
    assert(r@ =~= seq![digit_char(d as nat)]);
    r
}

/// `n` written in `base` (2 to 16), lower-case digits, no leading zeros.
pub fn radix_string(n: u64, base: u64) -> (r: String)
    requires
        2 <= base <= 16,
    ensures
        r@ == digits(n as nat, base as nat),
{
    let mut m: u64 = n / base;
    let mut acc = digit_string(n % base);
    proof {
        let (nn, bb) = (n as nat, base as nat);
        lemma_quotient_zero_iff(nn, bb);
        if nn < bb {
            lemma_small_mod(nn, bb);
            assert(digits(nn, bb) == seq![digit_char(nn)]);
        } else {
            assert(digits(nn, bb) == digits(nn / bb, bb) + seq![digit_char(nn % bb)]);
        }
    }
    while m > 0
        invariant
            2 <= base <= 16,
            m > 0 ==> digits(n as nat, base as nat) == digits(m as nat, base as nat) + acc@,
            m == 0 ==> digits(n as nat, base as nat) == acc@,
        decreases m,
    {
        let d = digit_string(m % base);
        let next = d.concat(acc.as_str());
        proof {
            lemma_quotient_zero_iff(m as nat, base as nat);
            if m < base {
                lemma_small_mod(m as nat, base as nat);
                assert(digits(m as nat, base as nat) == seq![digit_char(m as nat)]);
                assert(next@ =~= digits(m as nat, base as nat) + acc@);
            } else {
                assert(digits(m as nat, base as nat) == digits((m / base) as nat, base as nat)
                    + seq![digit_char((m % base) as nat)]);
                assert(digits(m as nat, base as nat) + acc@ =~= digits((m / base) as nat, base as nat)
                    + next@);
            }
        }
        acc = next;
        m = m / base;
    }
    acc
}

/// `n` in decimal.
pub fn decimal_string(n: u64) -> (r: String)
    ensures
        r@ == digits(n as nat, 10),
{
    radix_string(n, 10)
}

/// `n` in decimal, with a leading `-` when it is negative.
pub open spec fn signed_decimal(n: int) -> Seq<char> {
    if n < 0 {
        seq!['-'] + digits((-n) as nat, 10)
    } else {
        digits(n as nat, 10)
    }
}

/// `n` in decimal, with a leading `-` when it is negative.
pub fn signed_decimal_string(n: i64) -> (r: String)
    ensures
        r@ == signed_decimal(n as int),
{
    if n < 0 {
        let magnitude: u64 = (-(n as i128)) as u64;
        let digits_part = decimal_string(magnitude);
        let minus = String::from_str("-");
        proof {
            reveal_strlit("-");
        }
        let r = minus.concat(digits_part.as_str());
        assert(r@ =~= signed_decimal(n as int));
        r
    } else {
        decimal_string(n as u64)
    }
}

} // verus!
