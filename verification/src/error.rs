//! The ways in which an approximation can fail.

use vstd::prelude::*;

verus! {

/// Why a matrix could not be approximated.
#[derive(Clone, Copy, Debug, PartialEq, Eq, Structural)]
pub enum SvdApproxError {
    /// The requested rank lies outside `1..=max`. The first field is `max`, the
    /// smaller dimension of the matrix; the second is the rank that was asked for.
    InvalidRank(usize, usize),
    /// The decomposition could not say how much scratch memory it needs, or the
    /// amount cannot be provided.
    ComputeReqFailed,
}

/// The character that stands for a single decimal digit.
pub open spec fn digit(d: nat) -> char
    recommends
        d < 10,
{
    if d == 0 {
        '0'
    } else if d == 1 {
        '1'
    } else if d == 2 {
        '2'
    } else if d == 3 {
        '3'
    } else if d == 4 {
        '4'
    } else if d == 5 {
        '5'
    } else if d == 6 {
        '6'
    } else if d == 7 {
        '7'
    } else if d == 8 {
        '8'
    } else {
        '9'
    }
}

/// A number written in base ten, without leading zeros.
pub open spec fn decimal(n: nat) -> Seq<char>
    decreases n,
{
    if n < 10 {
        seq![digit(n)]
    } else {
        decimal(n / 10).push(digit(n % 10))
    }
}

/// The text of a single decimal digit.
fn digit_text(d: usize) -> (text: &'static str)
    requires
        d < 10,
    ensures
        text@ == seq![digit(d as nat)],
{
    proof {
        reveal_strlit("0");
        reveal_strlit("1");
        reveal_strlit("2");
        reveal_strlit("3");
        reveal_strlit("4");
        reveal_strlit("5");
        reveal_strlit("6");
        reveal_strlit("7");
        reveal_strlit("8");
        reveal_strlit("9");
    }
    let text = if d == 0 {
        "0"
    } else if d == 1 {
        "1"
    } else if d == 2 {
        "2"
    } else if d == 3 {
        "3"
    } else if d == 4 {
        "4"
    } else if d == 5 {
        "5"
    } else if d == 6 {
        "6"
    } else if d == 7 {
        "7"
    } else if d == 8 {
        "8"
    } else {
        "9"
    };
    assert(text@ =~= seq![digit(d as nat)]);
    text
}

/// Appends `n`, written in base ten, to `text`.
fn append_decimal(text: &mut String, n: usize)
    ensures
        final(text)@ == old(text)@ + decimal(n as nat),
    decreases n,
{
    if n >= 10 {
        append_decimal(text, n / 10);
    }
    text.append(digit_text(n % 10));
    assert(text@ =~= old(text)@ + decimal(n as nat));
}

impl SvdApproxError {
    /// What `message` says of this error.
    pub open spec fn message_text(self) -> Seq<char> {
        match self {
            SvdApproxError::InvalidRank(max, requested) => {
                "`rank` must be between 0 and "@ + decimal(max as nat) + ", got "@ + decimal(
                    requested as nat,
                ) + "."@
            },
            SvdApproxError::ComputeReqFailed => "Failed to compute buffer requirements for SVD."@,
        }
    }

    /// A sentence that tells a person what went wrong.
    pub fn message(&self) -> (text: String)
        ensures
            text@ == self.message_text(),
    {
        match self {
            SvdApproxError::InvalidRank(max, requested) => {
                let mut text = String::from_str("`rank` must be between 0 and ");
                append_decimal(&mut text, *max);
                text.append(", got ");
                append_decimal(&mut text, *requested);
                text.append(".");
                text
            },
            SvdApproxError::ComputeReqFailed => {
                String::from_str("Failed to compute buffer requirements for SVD.")
            },
        }
    }
}

} // verus!
