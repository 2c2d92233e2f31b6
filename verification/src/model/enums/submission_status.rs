//! Whether a nation has handed in its turn.

use std::borrow::Cow;
use vstd::prelude::*;
use vstd::string::StringExecFns;

verus! {

/// What the host reports about a nation's turn.
///
/// A code that the host protocol does not define is kept as `Unknown`, so that a newer
/// host does not make the roster fail.
#[derive(PartialEq, Eq, Structural, Clone, Copy, Debug)]
pub enum SubmissionStatus {
    NotSubmitted,
    PartiallySubmitted,
    Submitted,
    Unknown(u8),
}

/// The character that stands for the decimal digit `d`.
pub open spec fn digit_char(d: nat) -> char
    recommends
        d < 10,
{
    if d == 0 {
        '0'
    } else if d == 1 {
        '1'
    } else if d == 2 {
        '2'
    } else if d == 3 {
        '3'
    } else if d == 4 {
        '4'
    } else if d == 5 {
        '5'
    } else if d == 6 {
        '6'
    } else if d == 7 {
        '7'
    } else if d == 8 {
        '8'
    } else {
        '9'
    }
}

/// The decimal numeral of `n`, without leading zeros.
pub open spec fn decimal(n: nat) -> Seq<char>
    decreases n,
{
    if n < 10 {
        seq![digit_char(n)]
    } else {
        decimal(n / 10).push(digit_char(n % 10))
    }
}

/// The one-character string of a decimal digit.
fn digit_str(d: u8) -> (s: &'static str)
    requires
        d < 10,
    ensures
        s@ == seq![digit_char(d as nat)],
{
    proof {
        reveal_strlit("0");
        reveal_strlit("1");
        reveal_strlit("2");
        reveal_strlit("3");
        reveal_strlit("4");
        reveal_strlit("5");
        reveal_strlit("6");
        reveal_strlit("7");
        reveal_strlit("8");
        reveal_strlit("9");
    }
    let s = match d {
        0 => "0",
        1 => "1",
        2 => "2",
        3 => "3",
        4 => "4",
        5 => "5",
        6 => "6",
        7 => "7",
        8 => "8",
        _ => "9",
    };
    assert(s@ =~= seq![digit_char(d as nat)]);
    s
}

/// The decimal numeral of a status code.
fn code_numeral(x: u8) -> (s: String)
    ensures
        s@ == decimal(x as nat),
{
    let mut s = String::new();
    if x >= 100 {
        s.append(digit_str(x / 100));
    }
    if x >= 10 {
        s.append(digit_str((x / 10) % 10));
    }
    s.append(digit_str(x % 10));
    proof {
        let n = x as nat;
        reveal_with_fuel(decimal, 3);
        assert(s@ =~= decimal(n));
    }
    s
}

impl SubmissionStatus {
    /// The text shown for this status.
    pub open spec fn label(self) -> Seq<char> {
        match self {
            SubmissionStatus::NotSubmitted => "X"@,
            SubmissionStatus::PartiallySubmitted => "/"@,
            SubmissionStatus::Submitted => "✓"@,
            SubmissionStatus::Unknown(x) => decimal(x as nat),
        }
    }

    /// The status that the host's code `x` stands for.
    pub open spec fn of_code(x: u8) -> SubmissionStatus {
        if x == 0 {
            SubmissionStatus::NotSubmitted
        } else if x == 1 {
            SubmissionStatus::PartiallySubmitted
        } else if x == 2 {
            SubmissionStatus::Submitted
        } else {
            SubmissionStatus::Unknown(x)
        }
    }

    /// The status that an uploaded-or-not flag stands for.
    pub open spec fn of_flag(x: bool) -> SubmissionStatus {
        if x {
            SubmissionStatus::Submitted
        } else {
            SubmissionStatus::NotSubmitted
        }
    }

    /// Renders the status as the symbol shown in a roster: a cross, a slash or a check
    /// mark, and for an unknown code its decimal numeral.
    pub fn show(self) -> (text: Cow<'static, str>)
        ensures
            text@ == self.label(),
    {
        match self {
            SubmissionStatus::NotSubmitted => Cow::Borrowed("X"),
            SubmissionStatus::PartiallySubmitted => Cow::Borrowed("/"),
            SubmissionStatus::Submitted => Cow::Borrowed("✓"),
            SubmissionStatus::Unknown(x) => Cow::Owned(code_numeral(x)),
        }
    }

    /// Reads a status from the host's numeric code. No code is rejected.
    pub fn from_int(x: u8) -> (status: SubmissionStatus)
        ensures
            status == Self::of_code(x),
    {
        match x {
            0 => SubmissionStatus::NotSubmitted,
            1 => SubmissionStatus::PartiallySubmitted,
            2 => SubmissionStatus::Submitted,
            _ => SubmissionStatus::Unknown(x),
        }
    }

    /// Reads a status from a flag that says whether the turn was handed in.
    pub fn from_bool(x: bool) -> (status: SubmissionStatus)
        ensures
            status == Self::of_flag(x),
    {
        if x {
            SubmissionStatus::Submitted
        } else {
            SubmissionStatus::NotSubmitted
        }
    }
}

} // verus!
