//! Parsing of one line of player input into a game command.
//!
//! The surrounding driver reads raw lines; this module holds the decision:
//! after trimming ASCII whitespace and lowering ASCII letters, an empty line,
//! `d` or `draw` asks for a draw, a single digit `0` through `5` submits that
//! level as a guess, and anything else is rejected so the driver can ask
//! again.

use vstd::prelude::*;

verus! {

/// A parsed player command.
#[derive(Debug, Copy, Clone, Eq, PartialEq, Structural)]
pub enum UserInput {
    /// Draw once more.
    Draw,
    /// Submit the contained level as the guess.
    Submit(u8),
}

/// The ASCII whitespace bytes: tab through carriage return, and space.
pub open spec fn is_ascii_ws(b: u8) -> bool {
    b == 32 || (9 <= b && b <= 13)
}

/// ASCII lowering: letters `A` through `Z` move to `a` through `z`.
pub open spec fn to_lower(b: u8) -> u8 {
    if 65 <= b && b <= 90 {
        (b + 32) as u8
    } else {
        b
    }
}

pub open spec fn trim_start_spec(s: Seq<u8>) -> Seq<u8>
    decreases s.len(),
{
    if s.len() > 0 && is_ascii_ws(s[0]) {
        trim_start_spec(s.drop_first())
    } else {
        s
    }
}

pub open spec fn trim_end_spec(s: Seq<u8>) -> Seq<u8>
    decreases s.len(),
{
    if s.len() > 0 && is_ascii_ws(s[s.len() - 1]) {
        trim_end_spec(s.drop_last())
    } else {
        s
    }
}

/// The line with ASCII whitespace removed from both ends and ASCII letters
/// lowered.
pub open spec fn canon(s: Seq<u8>) -> Seq<u8> {
    trim_end_spec(trim_start_spec(s)).map_values(|b: u8| to_lower(b))
}

/// The command denoted by an already-canonical line, if any.
pub open spec fn parse_canon(t: Seq<u8>) -> Option<UserInput> {
    if t.len() == 0 {
        Some(UserInput::Draw)
    } else if t.len() == 1 && t[0] == 100 {
        Some(UserInput::Draw)
    } else if t.len() == 4 && t[0] == 100 && t[1] == 114 && t[2] == 97 && t[3] == 119 {
        Some(UserInput::Draw)
    } else if t.len() == 1 && 48 <= t[0] && t[0] <= 53 {
        Some(UserInput::Submit((t[0] - 48) as u8))
    } else {
        None
    }
}

/// The command denoted by a raw line, if any.
pub open spec fn parse_spec(s: Seq<u8>) -> Option<UserInput> {
    parse_canon(canon(s))
}

fn is_ws_byte(b: u8) -> (r: bool)
    ensures
        r == is_ascii_ws(b),
{
    b == 32 || (9 <= b && b <= 13)
}

fn lower_byte(b: u8) -> (r: u8)
    ensures
        r == to_lower(b),
{
    if 65 <= b && b <= 90 {
        b + 32
    } else {
        b
    }
}

/// Parse one raw input line into a command: empty, `d` or `draw` (after
/// trimming and lowering) ask for a draw, a digit `0` through `5` submits
/// that level, and anything else yields `None`.
pub fn read_input(line: &[u8]) -> (cmd: Option<UserInput>)
    ensures
        cmd == parse_spec(line@),
{
    let n = line.len();
    proof {
        assert(line@.subrange(0, n as int) =~= line@);
    }
    let mut lo: usize = 0;
    while lo < n && is_ws_byte(line[lo])
        invariant
            lo <= n,
            n == line@.len(),
            trim_start_spec(line@) == trim_start_spec(line@.subrange(lo as int, n as int)),
        decreases n - lo,
    {
        proof {
            assert(line@.subrange(lo as int, n as int).drop_first() =~= line@.subrange(
                lo as int + 1,
                n as int,
            ));
        }
        lo = lo + 1;
    }
    proof {
        assert(trim_start_spec(line@) == line@.subrange(lo as int, n as int));
    }
    let mut hi: usize = n;
    while hi > lo && is_ws_byte(line[hi - 1])
        invariant
            lo <= hi <= n,
            n == line@.len(),
            trim_start_spec(line@) == line@.subrange(lo as int, n as int),
            trim_end_spec(line@.subrange(lo as int, n as int)) == trim_end_spec(
                line@.subrange(lo as int, hi as int),
            ),
        decreases hi,
    {
        proof {
            assert(line@.subrange(lo as int, hi as int).drop_last() =~= line@.subrange(
                lo as int,
                hi as int - 1,
            ));
        }
        hi = hi - 1;
    }
    let ghost t = canon(line@);
    proof {
        assert(trim_end_spec(trim_start_spec(line@)) == line@.subrange(lo as int, hi as int));
        assert(t.len() == hi - lo);
        assert(forall|i: int|
            0 <= i < t.len() ==> t[i] == to_lower(line@.subrange(lo as int, hi as int)[i]));
    }
    let len = hi - lo;
    if len == 0 {
        Some(UserInput::Draw)
    } else if len == 1 {
        let c = lower_byte(line[lo]);
        proof {
            assert(t[0] == c);
        }
        if c == 100 {
            Some(UserInput::Draw)
        } else if 48 <= c && c <= 53 {
            Some(UserInput::Submit(c - 48))
        } else {
            None
        }
    } else if len == 4 {
        let c0 = lower_byte(line[lo]);
        let c1 = lower_byte(line[lo + 1]);
        let c2 = lower_byte(line[lo + 2]);
        let c3 = lower_byte(line[lo + 3]);
        proof {
            assert(t[0] == c0 && t[1] == c1 && t[2] == c2 && t[3] == c3);
        }
        if c0 == 100 && c1 == 114 && c2 == 97 && c3 == 119 {
            Some(UserInput::Draw)
        } else {
            None
        }
    } else {
        None
    }
}

} // verus!
