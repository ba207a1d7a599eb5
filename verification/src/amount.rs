//! Rendering raw token amounts as decimal strings.
//!
//! A raw amount of a mint with `d` decimals renders as the whole part, a
//! dot, and exactly `d` fractional digits, zero-padded.

use vstd::prelude::*;
use vstd::string::*;

verus! {

/// Ten to the `n`.
pub open spec fn pow10(n: nat) -> nat
    decreases n,
{
    if n == 0 {
        1nat
    } else {
        10 * pow10((n - 1) as nat)
    }
}

/// The character of one decimal digit.
pub open spec fn digit_char(d: nat) -> char {
    if d == 0 {
        '0'
    } else if d == 1 {
        '1'
    } else if d == 2 {
        '2'
    } else if d == 3 {
        '3'
    } else if d == 4 {
        '4'
    } else if d == 5 {
        '5'
    } else if d == 6 {
        '6'
    } else if d == 7 {
        '7'
    } else if d == 8 {
        '8'
    } else {
        '9'
    }
}

/// The decimal digits of `n`, most significant first, no leading zeros
/// (zero itself renders as one digit).
pub open spec fn dec_digits(n: nat) -> Seq<char>
    decreases n,
{
    if n < 10 {
        seq![digit_char(n)]
    } else {
        dec_digits(n / 10).push(digit_char(n % 10))
    }
}

/// The last `width` decimal digits of `n`, zero-padded.
pub open spec fn padded_digits(n: nat, width: nat) -> Seq<char>
    decreases width,
{
    if width == 0 {
        Seq::empty()
    } else {
        padded_digits(n / 10, (width - 1) as nat).push(digit_char(n % 10))
    }
}

/// How a raw amount renders for a mint with `decimals` decimals. The
/// fractional part keeps exactly `decimals` zero-padded digits; with no
/// decimals the zero remainder still renders as one digit.
pub open spec fn format_amount_spec(amount: u64, decimals: u8) -> Seq<char> {
    dec_digits((amount as nat) / pow10(decimals as nat)) + seq!['.'] + (if decimals == 0 {
        seq!['0']
    } else {
        padded_digits((amount as nat) % pow10(decimals as nat), decimals as nat)
    })
}

/// Ten to the anything is positive.
proof fn lemma_pow10_pos(n: nat)
    ensures
        pow10(n) >= 1,
    decreases n,
{
    if n > 0 {
        lemma_pow10_pos((n - 1) as nat);
    }
}

/// Ten to the anything grows with the exponent.
proof fn lemma_pow10_mono(a: nat, b: nat)
    requires
        a <= b,
    ensures
        pow10(a) <= pow10(b),
    decreases b,
{
    if a < b {
        lemma_pow10_mono(a, (b - 1) as nat);
        lemma_pow10_pos((b - 1) as nat);
    }
}

/// Ten to the nineteenth still fits in an unsigned 64-bit amount.
proof fn lemma_pow10_19_fits()
    ensures
        pow10(19) == 10000000000000000000,
{
    reveal_with_fuel(pow10, 21);
}

/// Ten to the `n`, for exponents whose power fits a raw amount.
fn pow10_u64(n: u8) -> (r: u64)
    requires
        n <= 19,
    ensures
        r == pow10(n as nat),
{
    let mut factor: u64 = 1;
    let mut k: u8 = 0;
    while k < n
        invariant
            k <= n <= 19,
            factor == pow10(k as nat),
        decreases n - k,
    {
        proof {
            lemma_pow10_mono(k as nat + 1, 19);
            lemma_pow10_19_fits();
        }
        factor = factor * 10;
        k = k + 1;
    }
    factor
}

/// The one-character string of a digit.
fn digit_str(d: u64) -> (r: String)
    requires
        d < 10,
    ensures
        r@ == seq![digit_char(d as nat)],
{
    proof {
        reveal_strlit("0");
        reveal_strlit("1");
        reveal_strlit("2");
        reveal_strlit("3");
        reveal_strlit("4");
        reveal_strlit("5");
        reveal_strlit("6");
        reveal_strlit("7");
        reveal_strlit("8");
        reveal_strlit("9");
    }
    let s = if d == 0 {
        "0"
    } else if d == 1 {
        "1"
    } else if d == 2 {
        "2"
    } else if d == 3 {
        "3"
    } else if d == 4 {
        "4"
    } else if d == 5 {
        "5"
    } else if d == 6 {
        "6"
    } else if d == 7 {
        "7"
    } else if d == 8 {
        "8"
    } else {
        "9"
    };
    let r = String::from_str(s);
    proof {
        assert(r@ =~= seq![digit_char(d as nat)]);
    }
    r
}

/// The decimal rendering of `n`.
fn u64_to_decimal(n: u64) -> (r: String)
    ensures
        r@ == dec_digits(n as nat),
    decreases n,
{
    if n < 10 {
        digit_str(n)
    } else {
        let mut s = u64_to_decimal(n / 10);
        let last = digit_str(n % 10);
        s.append(last.as_str());
        proof {
            assert(s@ =~= dec_digits(n as nat));
        }
        s
    }
}

/// The zero-padded rendering of the last `width` digits of `n`.
fn u64_to_padded(n: u64, width: u8) -> (r: String)
    ensures
        r@ == padded_digits(n as nat, width as nat),
    decreases width,
{
    if width == 0 {
        let r = String::from_str("");
        proof {
            reveal_strlit("");
            assert(r@ =~= padded_digits(n as nat, 0));
        }
        r
    } else {
        let mut s = u64_to_padded(n / 10, width - 1);
        let last = digit_str(n % 10);
        s.append(last.as_str());
        proof {
            assert(s@ =~= padded_digits(n as nat, width as nat));
        }
        s
    }
}

/// Renders `amount` for a mint with `decimals` decimals: the whole part,
/// a dot, and exactly `decimals` zero-padded fractional digits.
pub fn format_token_amount(amount: u64, decimals: u8) -> (r: String)
    requires
        decimals <= 19,
    ensures
        r@ == format_amount_spec(amount, decimals),
{
    let factor = pow10_u64(decimals);
    proof {
        lemma_pow10_pos(decimals as nat);
    }
    let whole = amount / factor;
    let frac = amount % factor;
    let mut s = u64_to_decimal(whole);
    s.append(".");
    if decimals == 0 {
        s.append("0");
        proof {
            reveal_strlit(".");
            reveal_strlit("0");
            assert(s@ =~= format_amount_spec(amount, decimals));
        }
    } else {
        let fraction = u64_to_padded(frac, decimals);
        s.append(fraction.as_str());
        proof {
            reveal_strlit(".");
            assert("."@ =~= seq!['.']);
            assert(s@ =~= format_amount_spec(amount, decimals));
        }
    }
    s
}

} // verus!
