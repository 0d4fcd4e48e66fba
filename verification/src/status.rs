//! Lifecycle status of one supervised script run.
//!
//! `running` is the only non-terminal value; a run concludes with exactly
//! one of the terminal values: a numeric exit code, termination by a
//! signal, or a forced kill.

use vstd::prelude::*;

verus! {

/// Last-known lifecycle status of a script identity.
#[derive(Clone, Copy, Debug, PartialEq, Eq, Structural)]
pub enum Status {
    /// The script was spawned and has not concluded yet.
    Running,
    /// The script exited on its own with a numeric exit code.
    ExitCode(i32),
    /// The script exited on its own without a code (ended by a signal).
    TerminatedBySignal,
    /// The script was forcefully killed through a cancellation request.
    Killed,
}

impl Status {
    /// A terminal status is any status that will not change again for
    /// its run; `Running` is the only non-terminal one.
    pub open spec fn spec_is_terminal(self) -> bool {
        !(self is Running)
    }

    pub fn is_terminal(&self) -> (r: bool)
        ensures
            r == self.spec_is_terminal(),
    {
        !matches!(self, Status::Running)
    }

    /// The dashboard string for this status.
    pub open spec fn spec_display(self) -> Seq<char> {
        match self {
            Status::Running => "running"@,
            Status::ExitCode(n) => "exit code "@ + int_dec_rep(n as int),
            Status::TerminatedBySignal => "terminated by signal"@,
            Status::Killed => "Killed..."@,
        }
    }

    pub fn display(&self) -> (r: String)
        ensures
            r@ == self.spec_display(),
    {
        match self {
            Status::Running => String::from_str("running"),
            Status::ExitCode(n) => {
                let mut s = String::from_str("exit code ");
                let num = i32_to_decimal(*n);
                s.append(num.as_str());
                s
            },
            Status::TerminatedBySignal => String::from_str("terminated by signal"),
            Status::Killed => String::from_str("Killed..."),
        }
    }
}

/// The character for one decimal digit.
pub open spec fn dec_digit_char(d: nat) -> char {
    if d == 0 {
        '0'
    } else if d == 1 {
        '1'
    } else if d == 2 {
        '2'
    } else if d == 3 {
        '3'
    } else if d == 4 {
        '4'
    } else if d == 5 {
        '5'
    } else if d == 6 {
        '6'
    } else if d == 7 {
        '7'
    } else if d == 8 {
        '8'
    } else {
        '9'
    }
}

/// Decimal representation of a natural number, most significant digit
/// first, with no leading zeros (except for zero itself).
pub open spec fn dec_rep(n: nat) -> Seq<char>
    decreases n,
{
    if n < 10 {
        seq![dec_digit_char(n)]
    } else {
        dec_rep(n / 10) + seq![dec_digit_char(n % 10)]
    }
}

/// Decimal representation of an integer: a leading '-' for negatives.
pub open spec fn int_dec_rep(n: int) -> Seq<char> {
    if n < 0 {
        seq!['-'] + dec_rep((-n) as nat)
    } else {
        dec_rep(n as nat)
    }
}

fn digit_str(d: u64) -> (r: &'static str)
    requires
        d < 10,
    ensures
        r@ == seq![dec_digit_char(d as nat)],
{
    proof {
        reveal_strlit("0");
        reveal_strlit("1");
        reveal_strlit("2");
        reveal_strlit("3");
        reveal_strlit("4");
        reveal_strlit("5");
        reveal_strlit("6");
        reveal_strlit("7");
        reveal_strlit("8");
        reveal_strlit("9");
    }
    let r: &'static str = if d == 0 {
        "0"
    } else if d == 1 {
        "1"
    } else if d == 2 {
        "2"
    } else if d == 3 {
        "3"
    } else if d == 4 {
        "4"
    } else if d == 5 {
        "5"
    } else if d == 6 {
        "6"
    } else if d == 7 {
        "7"
    } else if d == 8 {
        "8"
    } else {
        "9"
    };
    proof {
        assert(r@ =~= seq![dec_digit_char(d as nat)]);
    }
    r
}

/// Render a natural number in decimal.
pub fn u64_to_decimal(n: u64) -> (r: String)
    ensures
        r@ == dec_rep(n as nat),
    decreases n,
{
    if n < 10 {
        String::from_str(digit_str(n))
    } else {
        let mut s = u64_to_decimal(n / 10);
        s.append(digit_str(n % 10));
        proof {
            assert(s@ =~= dec_rep(n as nat));
        }
        s
    }
}

/// Render a signed 32-bit integer in decimal.
pub fn i32_to_decimal(n: i32) -> (r: String)
    ensures
        r@ == int_dec_rep(n as int),
{
    if n < 0 {
        let wide: i64 = n as i64;
        let mag: u64 = (-wide) as u64;
        proof {
            assert(mag as nat == (-(n as int)) as nat);
        }
        let mut s = String::from_str("-");
        let num = u64_to_decimal(mag);
        s.append(num.as_str());
        proof {
            reveal_strlit("-");
            assert("-"@ =~= seq!['-']);
            assert(s@ =~= int_dec_rep(n as int));
        }
        s
    } else {
        u64_to_decimal(n as u64)
    }
}

} // verus!
