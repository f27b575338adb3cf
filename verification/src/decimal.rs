//! Decimal rendering of integers, verified against a character-level
//! specification. Used to put identifiers into failure messages.
use vstd::prelude::*;

use vstd::string::StringExecFns;

verus! {

/// The decimal digit character for `d`.
pub open spec fn digit_char(d: int) -> char {
    seq!['0', '1', '2', '3', '4', '5', '6', '7', '8', '9'][d]
}

/// The decimal digits of a non-negative integer, most significant first;
/// empty for zero.
pub open spec fn dec_digits(n: int) -> Seq<char>
    decreases n,
{
    if n <= 0 {
        Seq::empty()
    } else {
        dec_digits(n / 10).push(digit_char(n % 10))
    }
}

/// The decimal rendering of an integer: `0` as "0", negatives with a leading
/// minus sign.
pub open spec fn dec_of(n: int) -> Seq<char> {
    if n == 0 {
        seq!['0']
    } else if n < 0 {
        seq!['-'] + dec_digits(-n)
    } else {
        dec_digits(n)
    }
}

/// The one-character string for digit `d`.
fn digit_str(d: u64) -> (r: &'static str)
    requires
        d < 10,
    ensures
        r@ =~= seq![digit_char(d as int)],
{
    match d {
        0 => {
            proof {
                reveal_strlit("0");
            }
            "0"
        },
        1 => {
            proof {
                reveal_strlit("1");
            }
            "1"
        },
        2 => {
            proof {
                reveal_strlit("2");
            }
            "2"
        },
        3 => {
            proof {
                reveal_strlit("3");
            }
            "3"
        },
        4 => {
            proof {
                reveal_strlit("4");
            }
            "4"
        },
        5 => {
            proof {
                reveal_strlit("5");
            }
            "5"
        },
        6 => {
            proof {
                reveal_strlit("6");
            }
            "6"
        },
        7 => {
            proof {
                reveal_strlit("7");
            }
            "7"
        },
        8 => {
            proof {
                reveal_strlit("8");
            }
            "8"
        },
        _ => {
            proof {
                reveal_strlit("9");
            }
            "9"
        },
    }
}

/// The digit values of `ds`, read back to front, as digit characters.
spec fn rev_digit_chars(ds: Seq<u64>) -> Seq<char> {
    Seq::new(ds.len(), |i: int| digit_char(ds[ds.len() - 1 - i] as int))
}

/// Decimal rendering of `n`, exactly as `dec_of` describes it.
pub fn i64_to_string(n: i64) -> (r: String)
    ensures
        r@ == dec_of(n as int),
{
    let mut s = String::new();
    if n == 0 {
        s.append(digit_str(0));
        assert(s@ =~= dec_of(0));
        return s;
    }
    if n < 0 {
        proof {
            reveal_strlit("-");
        }
        s.append("-");
    }
    let mut m: u64 = if n < 0 {
        (-(n as i128)) as u64
    } else {
        n as u64
    };
    let ghost m0: int = m as int;
    let mut ds: Vec<u64> = Vec::new();
    while m > 0
        invariant
            0 <= m <= m0,
            forall|k: int| 0 <= k < ds@.len() ==> #[trigger] ds@[k] < 10,
            dec_digits(m0) =~= dec_digits(m as int) + rev_digit_chars(ds@),
        decreases m,
    {
        let d = m % 10;
        m = m / 10;
        ds.push(d);
        proof {
            assert(rev_digit_chars(ds@) =~= seq![digit_char(d as int)] + rev_digit_chars(
                ds@.drop_last(),
            ));
        }
    }
    let count = ds.len();
    let mut i: usize = 0;
    let ghost s_start = s@;
    while i < count
        invariant
            i <= count == ds@.len(),
            forall|k: int| 0 <= k < ds@.len() ==> #[trigger] ds@[k] < 10,
            s@ =~= s_start + rev_digit_chars(ds@).take(i as int),
        decreases count - i,
    {
        s.append(digit_str(ds[count - 1 - i]));
        proof {
            assert(rev_digit_chars(ds@).take(i + 1) =~= rev_digit_chars(ds@).take(i as int)
                + seq![digit_char(ds@[ds@.len() - 1 - i] as int)]);
        }
        i = i + 1;
    }
    proof {
        assert(rev_digit_chars(ds@).take(count as int) =~= rev_digit_chars(ds@));
        assert(s@ =~= s_start + dec_digits(m0));
        assert(dec_of(n as int) =~= s_start + dec_digits(m0));
    }
    s
}

} // verus!
