//! Decimal rendering of fixed-point values, one line of text per
//! trajectory value.
//!
//! A mantissa is rendered as an optional minus sign, the decimal digits
//! of its whole part, a point, and exactly twelve fraction digits.  The
//! spec functions pin every character, and the executable rendering is
//! proved to produce exactly that character sequence.

use crate::fixed::{abs_i, Fixed, SCALE};
use vstd::prelude::*;
use vstd::string::StringExecFns;

verus! {

/// The character of one decimal digit.
pub open spec fn digit_char(d: int) -> char {
    if d == 0 {
        '0'
    } else if d == 1 {
        '1'
    } else if d == 2 {
        '2'
    } else if d == 3 {
        '3'
    } else if d == 4 {
        '4'
    } else if d == 5 {
        '5'
    } else if d == 6 {
        '6'
    } else if d == 7 {
        '7'
    } else if d == 8 {
        '8'
    } else {
        '9'
    }
}

/// The decimal digits of `n`, most significant first, without leading
/// zeros (a single zero for zero).
pub open spec fn dec_seq(n: nat) -> Seq<char>
    decreases n,
{
    if n < 10 {
        seq![digit_char(n as int)]
    } else {
        dec_seq(n / 10).push(digit_char((n % 10) as int))
    }
}

/// The `width` lowest decimal digits of `n`, zero-padded on the left.
pub open spec fn pad_seq(n: nat, width: nat) -> Seq<char>
    decreases width,
{
    if width == 0 {
        Seq::empty()
    } else {
        pad_seq(n / 10, (width - 1) as nat).push(digit_char((n % 10) as int))
    }
}

/// The rendering of a mantissa `m`: sign, whole part, point, twelve
/// fraction digits.
pub open spec fn fixed_text(m: int) -> Seq<char> {
    let a = abs_i(m) as nat;
    let sign: Seq<char> = if m < 0 {
        seq!['-']
    } else {
        Seq::empty()
    };
    sign + dec_seq(a / (SCALE as nat)) + seq!['.'] + pad_seq(a % (SCALE as nat), 12)
}

/// The text every `write_solution` returns: one rendered line per
/// trajectory value, in index order.
pub open spec fn solution_lines_post(sol: Seq<Fixed>, r: Seq<String>) -> bool {
    &&& r.len() == sol.len()
    &&& forall|i: int| 0 <= i < sol.len() ==> (#[trigger] r[i])@ == fixed_text(sol[i]@)
}

/// The one-character string of one decimal digit.
fn digit_str(d: u64) -> (r: &'static str)
    requires
        d < 10,
    ensures
        r@ == seq![digit_char(d as int)],
{
    if d == 0 {
        proof {
            reveal_strlit("0");
            assert("0"@ =~= seq![digit_char(0)]);
        }
        "0"
    } else if d == 1 {
        proof {
            reveal_strlit("1");
            assert("1"@ =~= seq![digit_char(1)]);
        }
        "1"
    } else if d == 2 {
        proof {
            reveal_strlit("2");
            assert("2"@ =~= seq![digit_char(2)]);
        }
        "2"
    } else if d == 3 {
        proof {
            reveal_strlit("3");
            assert("3"@ =~= seq![digit_char(3)]);
        }
        "3"
    } else if d == 4 {
        proof {
            reveal_strlit("4");
            assert("4"@ =~= seq![digit_char(4)]);
        }
        "4"
    } else if d == 5 {
        proof {
            reveal_strlit("5");
            assert("5"@ =~= seq![digit_char(5)]);
        }
        "5"
    } else if d == 6 {
        proof {
            reveal_strlit("6");
            assert("6"@ =~= seq![digit_char(6)]);
        }
        "6"
    } else if d == 7 {
        proof {
            reveal_strlit("7");
            assert("7"@ =~= seq![digit_char(7)]);
        }
        "7"
    } else if d == 8 {
        proof {
            reveal_strlit("8");
            assert("8"@ =~= seq![digit_char(8)]);
        }
        "8"
    } else {
        proof {
            reveal_strlit("9");
            assert("9"@ =~= seq![digit_char(9)]);
        }
        "9"
    }
}

/// Append the decimal digits of `n` to `out`.
fn push_dec(n: u64, out: &mut String)
    ensures
        final(out)@ == old(out)@ + dec_seq(n as nat),
    decreases n,
{
    if n < 10 {
        out.append(digit_str(n));
        proof {
            assert(final(out)@ =~= old(out)@ + dec_seq(n as nat));
        }
    } else {
        push_dec(n / 10, out);
        out.append(digit_str(n % 10));
        proof {
            assert(final(out)@ =~= old(out)@ + dec_seq(n as nat));
        }
    }
}

/// Append the `width` lowest decimal digits of `n` to `out`,
/// zero-padded.
fn push_pad(n: u64, width: u32, out: &mut String)
    ensures
        final(out)@ == old(out)@ + pad_seq(n as nat, width as nat),
    decreases width,
{
    if width > 0 {
        push_pad(n / 10, width - 1, out);
        out.append(digit_str(n % 10));
        proof {
            assert(final(out)@ =~= old(out)@ + pad_seq(n as nat, width as nat));
        }
    } else {
        proof {
            assert(final(out)@ =~= old(out)@ + pad_seq(n as nat, 0));
        }
    }
}

/// Render one fixed-point value as decimal text.
pub fn fixed_text_of(x: &Fixed) -> (r: String)
    ensures
        r@ == fixed_text(x@),
{
    let m = x.as_scaled();
    let mut out = String::new();
    let a: u64 = if m < 0 {
        proof {
            reveal_strlit("-");
            assert("-"@ =~= seq!['-']);
        }
        out.append("-");
        (-(m as i128)) as u64
    } else {
        m as u64
    };
    proof {
        assert(a as int == abs_i(x@));
    }
    let whole = a / (SCALE as u64);
    let frac = a % (SCALE as u64);
    push_dec(whole, &mut out);
    proof {
        reveal_strlit(".");
        assert("."@ =~= seq!['.']);
    }
    out.append(".");
    push_pad(frac, 12, &mut out);
    proof {
        assert(out@ =~= fixed_text(x@));
    }
    out
}

/// Shared body of `write_solution`: render each trajectory value as one
/// line of text, in index order.
pub fn solution_lines(solution: &Vec<Fixed>) -> (r: Vec<String>)
    ensures
        solution_lines_post(solution@, r@),
{
    let mut lines: Vec<String> = Vec::new();
    let mut i: usize = 0;
    while i < solution.len()
        invariant
            i <= solution@.len(),
            lines@.len() == i,
            forall|j: int|
                0 <= j < i ==> (#[trigger] lines@[j])@ == fixed_text(solution@[j]@),
        decreases solution@.len() - i,
    {
        lines.push(fixed_text_of(&solution[i]));
        i = i + 1;
    }
    lines
}

} // verus!
