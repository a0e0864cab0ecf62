use vstd::prelude::*;

use crate::meta::{pow10, lemma_pow10_fits_u64, pow10_u64, MAX_DECIMALS};

verus! {

/// The decimal digit character for `d`.
pub open spec fn digit_char(d: nat) -> char {
    if d == 0 {
        '0'
    } else if d == 1 {
        '1'
    } else if d == 2 {
        '2'
    } else if d == 3 {
        '3'
    } else if d == 4 {
        '4'
    } else if d == 5 {
        '5'
    } else if d == 6 {
        '6'
    } else if d == 7 {
        '7'
    } else if d == 8 {
        '8'
    } else {
        '9'
    }
}

/// The decimal digits of `n`, most significant first, with no leading zeros
/// (a single `'0'` for zero).
pub open spec fn dec_digits(n: nat) -> Seq<char>
    decreases n,
{
    if n < 10 {
        seq![digit_char(n)]
    } else {
        dec_digits(n / 10).push(digit_char(n % 10))
    }
}

/// `s` left-padded with `'0'` up to `width` characters; `s` unchanged when
/// already at least that wide.
pub open spec fn zero_pad(s: Seq<char>, width: nat) -> Seq<char> {
    if s.len() >= width {
        s
    } else {
        Seq::new((width - s.len()) as nat, |i: int| '0') + s
    }
}

/// `amount` rendered with exactly `decimals` fractional digits: the integer
/// part, a dot, then the remainder zero-padded to `decimals` characters.
pub open spec fn spec_decimal_string(amount: nat, decimals: nat) -> Seq<char> {
    dec_digits(amount / pow10(decimals)) + seq!['.'] + zero_pad(
        dec_digits(amount % pow10(decimals)),
        decimals,
    )
}

/// A number below `pow10(k)` has at most `k` digits (at least one digit is
/// always rendered, so the bound is `max(k, 1)`).
proof fn lemma_dec_digits_len(n: nat, k: nat)
    requires
        n < pow10(k),
    ensures
        dec_digits(n).len() <= if k == 0 {
            1nat
        } else {
            k
        },
    decreases k,
{
    if n < 10 {
    } else {
        assert(k >= 2) by {
            if k < 2 {
                reveal_with_fuel(pow10, 3);
            }
        }
        lemma_dec_digits_len(n / 10, (k - 1) as nat);
    }
}

/// Appends the single digit `d` to `s`.
fn append_digit(s: &mut String, d: u64)
    requires
        d < 10,
    ensures
        final(s)@ == old(s)@.push(digit_char(d as nat)),
{
    let ghost prev = s@;
    match d {
        0 => {
            s.append("0");
            proof {
                reveal_strlit("0");
            }
        },
        1 => {
            s.append("1");
            proof {
                reveal_strlit("1");
            }
        },
        2 => {
            s.append("2");
            proof {
                reveal_strlit("2");
            }
        },
        3 => {
            s.append("3");
            proof {
                reveal_strlit("3");
            }
        },
        4 => {
            s.append("4");
            proof {
                reveal_strlit("4");
            }
        },
        5 => {
            s.append("5");
            proof {
                reveal_strlit("5");
            }
        },
        6 => {
            s.append("6");
            proof {
                reveal_strlit("6");
            }
        },
        7 => {
            s.append("7");
            proof {
                reveal_strlit("7");
            }
        },
        _ => {
            if d == 8 {
                s.append("8");
                proof {
                    reveal_strlit("8");
                }
            } else {
                s.append("9");
                proof {
                    reveal_strlit("9");
                }
            }
        },
    }
    proof {
        assert(s@ =~= prev.push(digit_char(d as nat)));
    }
}

/// Appends the decimal digits of `n`, most significant first.
fn append_number(s: &mut String, n: u64)
    ensures
        final(s)@ == old(s)@ + dec_digits(n as nat),
    decreases n,
{
    if n < 10 {
        append_digit(s, n);
        proof {
            assert(old(s)@ + dec_digits(n as nat) =~= old(s)@.push(digit_char(n as nat)));
        }
    } else {
        append_number(s, n / 10);
        append_digit(s, n % 10);
        proof {
            assert(old(s)@ + dec_digits(n as nat) =~= (old(s)@ + dec_digits((n / 10) as nat)).push(
                digit_char((n % 10) as nat),
            ));
        }
    }
}

/// The number of digits `dec_digits` renders for `n`.
fn count_digits(n: u64) -> (r: u32)
    ensures
        r == dec_digits(n as nat).len(),
{
    proof {
        lemma_pow10_fits_u64(MAX_DECIMALS as nat);
        assert(n < pow10(20)) by {
            lemma_dec_digits_len_helper();
        }
        lemma_dec_digits_len(n as nat, 20);
    }
    let mut m: u64 = n;
    let mut c: u32 = 1;
    while m >= 10
        invariant
            dec_digits(n as nat).len() == c - 1 + dec_digits(m as nat).len(),
            1 <= c <= 21,
            dec_digits(m as nat).len() >= 1,
            dec_digits(n as nat).len() <= 20,
        decreases m,
    {
        m = m / 10;
        c = c + 1;
    }
    c
}

/// Every `u64` is below `pow10(20)`.
proof fn lemma_dec_digits_len_helper()
    ensures
        u64::MAX < pow10(20),
{
    reveal_with_fuel(pow10, 21);
}

/// Renders `amount`, a fixed-point integer with `decimals` fractional digits,
/// as a decimal string: the integer part, a dot, and exactly `decimals`
/// zero-padded fractional digits.
pub fn get_decimal_string(amount: u64, decimals: u32) -> (r: String)
    requires
        decimals <= MAX_DECIMALS,
    ensures
        r@ == spec_decimal_string(amount as nat, decimals as nat),
{
    let scale = pow10_u64(decimals);
    proof {
        lemma_pow10_fits_u64(decimals as nat);
        assert(pow10(decimals as nat) >= 1) by {
            crate::meta::lemma_pow10_increases(0, decimals as nat);
        }
    }
    let whole = amount / scale;
    let frac = amount % scale;
    let mut s = String::new();
    append_number(&mut s, whole);
    s.append(".");
    proof {
        reveal_strlit(".");
    }
    let ghost mid = s@;
    // Zero-pad the fractional part to exactly `decimals` digits.
    let frac_digits = count_digits(frac);
    let mut pad: u32 = 0;
    let ghost padlen: int = if decimals > frac_digits {
        decimals - frac_digits
    } else {
        0
    };
    while frac_digits < decimals && pad < decimals - frac_digits
        invariant
            frac_digits == dec_digits(frac as nat).len(),
            padlen == if decimals > frac_digits {
                decimals - frac_digits
            } else {
                0
            },
            0 <= pad <= padlen,
            s@ == mid + Seq::new(pad as nat, |i: int| '0'),
        decreases decimals - frac_digits - pad,
    {
        s.append("0");
        proof {
            reveal_strlit("0");
            assert(s@ =~= mid + Seq::new((pad + 1) as nat, |i: int| '0'));
        }
        pad = pad + 1;
    }
    proof {
        assert(pad == padlen);
    }
    append_number(&mut s, frac);
    proof {
        assert(s@ =~= spec_decimal_string(amount as nat, decimals as nat)) by {
            assert(whole == amount as nat / pow10(decimals as nat));
            assert(frac == amount as nat % pow10(decimals as nat));
            let fd = dec_digits(frac as nat);
            assert(zero_pad(fd, decimals as nat) =~= Seq::new(padlen as nat, |i: int| '0') + fd);
            assert(mid =~= dec_digits(whole as nat) + seq!['.']);
            assert(s@ =~= mid + Seq::new(padlen as nat, |i: int| '0') + fd);
        }
    }
    s
}

} // verus!
