//! Exact non-negative fractions and their rendering with two decimal places.
//!
//! A figure is kept as a numerator over a positive denominator so that no
//! precision is lost before it is shown. Rendering rounds to the nearest
//! hundredth, with a tie going to the even hundredth.
use vstd::arithmetic::div_mod::lemma_fundamental_div_mod_converse;
use vstd::prelude::*;

verus! {

/// The non-negative rational number `num / den`.
#[derive(Clone, Copy, Debug, PartialEq, Eq, Structural)]
pub struct Fraction {
    pub num: u128,
    pub den: u64,
}

impl Fraction {
    /// The denominator is positive.
    pub open spec fn wf(&self) -> bool {
        self.den > 0
    }

    /// The value zero, written `0 / 1`.
    pub fn zero() -> (r: Fraction)
        ensures
            r.wf(),
            r.num == 0,
            r.den == 1,
    {
        Fraction { num: 0, den: 1 }
    }

    /// Renders the value with two decimal places, as in `800.00`.
    pub fn to_fixed2(&self) -> (r: String)
        requires
            self.wf(),
        ensures
            r@ == fixed2_text(hundredths(self.num as nat, self.den as nat)),
    {
        let q = self.num / (self.den as u128);
        let rem = (self.num % (self.den as u128)) as u64;
        let scaled = (rem as u128) * 100;
        let q2 = scaled / (self.den as u128);
        let r2 = scaled % (self.den as u128);
        let up = 2 * r2 > self.den as u128 || (2 * r2 == self.den as u128 && q2 % 2 == 1);
        let frac: u128 = if up { q2 + 1 } else { q2 };
        proof {
            lemma_hundredths_split(self.num as nat, self.den as nat);
        }
        let mut out = String::new();
        if frac == 100 {
            append_decimal(&mut out, q + 1);
            out.append(".00");
            proof {
                reveal_strlit(".00");
            }
        } else {
            append_decimal(&mut out, q);
            out.append(".");
            proof {
                reveal_strlit(".");
            }
            out.append(digit_str((frac / 10) as u8));
            out.append(digit_str((frac % 10) as u8));
        }
        proof {
            let h = hundredths(self.num as nat, self.den as nat);
            assert(h / 100 == (if frac == 100 { q + 1 } else { q as int }));
            assert(h % 100 == (if frac == 100 { 0 } else { frac as int }));
            assert(out@ =~= fixed2_text(h));
        }
        out
    }
}

/// `num / den` rounded to a whole number: to the nearest one, and to the even
/// one when the value lies exactly halfway between two.
pub open spec fn round_half_even(num: nat, den: nat) -> nat
    recommends
        den > 0,
{
    let q = num / den;
    let r = num % den;
    if 2 * r > den || (2 * r == den && q % 2 == 1) {
        q + 1
    } else {
        q
    }
}

/// The value `num / den` counted in hundredths, rounded as `round_half_even`.
pub open spec fn hundredths(num: nat, den: nat) -> nat {
    round_half_even(num * 100, den)
}

/// The character of a decimal digit.
pub open spec fn digit_char(d: nat) -> char {
    if d == 0 {
        '0'
    } else if d == 1 {
        '1'
    } else if d == 2 {
        '2'
    } else if d == 3 {
        '3'
    } else if d == 4 {
        '4'
    } else if d == 5 {
        '5'
    } else if d == 6 {
        '6'
    } else if d == 7 {
        '7'
    } else if d == 8 {
        '8'
    } else {
        '9'
    }
}

/// The decimal numeral of `n`, without leading zeros.
pub open spec fn decimal(n: nat) -> Seq<char>
    decreases n,
{
    if n < 10 {
        seq![digit_char(n)]
    } else {
        decimal(n / 10).push(digit_char(n % 10))
    }
}

/// A count of hundredths written as a decimal number with two places.
pub open spec fn fixed2_text(h: nat) -> Seq<char> {
    decimal(h / 100) + seq!['.', digit_char((h % 100) / 10), digit_char(h % 10)]
}

/// Splitting `num / den` into its whole part and a remainder gives the same
/// rounded count of hundredths.
proof fn lemma_hundredths_split(num: nat, den: nat)
    requires
        den > 0,
    ensures
        ({
            let q = num / den;
            let r = num % den;
            let q2 = (r * 100) / den;
            let r2 = (r * 100) % den;
            &&& (num * 100) / den == q * 100 + q2
            &&& (num * 100) % den == r2
            &&& q2 < 100
        }),
{
    let q = num / den;
    let r = num % den;
    let q2 = (r * 100) / den;
    let r2 = (r * 100) % den;
    assert(num == q * den + r && r < den) by {
        vstd::arithmetic::div_mod::lemma_fundamental_div_mod(num as int, den as int);
    }
    assert(r * 100 == q2 * den + r2 && r2 < den) by {
        vstd::arithmetic::div_mod::lemma_fundamental_div_mod((r * 100) as int, den as int);
    }
    assert(num * 100 == (q * 100 + q2) * den + r2) by (nonlinear_arith)
        requires
            num == q * den + r,
            r * 100 == q2 * den + r2,
    ;
    lemma_fundamental_div_mod_converse((num * 100) as int, den as int, (q * 100 + q2) as int, r2 as int);
    assert(q2 < 100) by (nonlinear_arith)
        requires
            r < den,
            r * 100 == q2 * den + r2,
            r2 >= 0,
    ;
}

/// The one-character text of a decimal digit.
fn digit_str(d: u8) -> (r: &'static str)
    requires
        d < 10,
    ensures
        r@ == seq![digit_char(d as nat)],
{
    let s = match d {
        0 => "0",
        1 => "1",
        2 => "2",
        3 => "3",
        4 => "4",
        5 => "5",
        6 => "6",
        7 => "7",
        8 => "8",
        _ => "9",
    };
    proof {
        reveal_strlit("0");
        reveal_strlit("1");
        reveal_strlit("2");
        reveal_strlit("3");
        reveal_strlit("4");
        reveal_strlit("5");
        reveal_strlit("6");
        reveal_strlit("7");
        reveal_strlit("8");
        reveal_strlit("9");
        assert(s@ =~= seq![digit_char(d as nat)]);
    }
    s
}

/// Appends the decimal numeral of `n` to `out`.
fn append_decimal(out: &mut String, n: u128)
    ensures
        final(out)@ == old(out)@ + decimal(n as nat),
    decreases n,
{
    if n >= 10 {
        append_decimal(out, n / 10);
        out.append(digit_str((n % 10) as u8));
        assert(final(out)@ =~= old(out)@ + decimal(n as nat));
    } else {
        out.append(digit_str(n as u8));
    }
}

/// Renders a whole number in decimal.
pub fn decimal_text(n: u128) -> (r: String)
    ensures
        r@ == decimal(n as nat),
{
    let mut out = String::new();
    append_decimal(&mut out, n);
    assert(out@ =~= decimal(n as nat));
    out
}

} // verus!
