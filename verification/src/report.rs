//! Rendering of the status snapshot as one line of text, with an exact
//! character-level specification: the owner in decimal, the two lifecycle
//! flags, and the winners list in draw order.

use vstd::prelude::*;
use vstd::string::StringExecFns;

use crate::types::ActorID;
use crate::types::Status;

verus! {

/// The character of one decimal digit.
pub open spec fn digit_char(d: nat) -> char
    recommends
        d < 10,
{
    if d == 0 {
        '0'
    } else if d == 1 {
        '1'
    } else if d == 2 {
        '2'
    } else if d == 3 {
        '3'
    } else if d == 4 {
        '4'
    } else if d == 5 {
        '5'
    } else if d == 6 {
        '6'
    } else if d == 7 {
        '7'
    } else if d == 8 {
        '8'
    } else {
        '9'
    }
}

/// The decimal digits of `n`, most significant first, without leading zeros
/// (a single zero for zero itself).
pub open spec fn dec_rep(n: nat) -> Seq<char>
    decreases n,
{
    if n < 10 {
        seq![digit_char(n)]
    } else {
        dec_rep(n / 10).push(digit_char(n % 10))
    }
}

/// How a boolean flag reads in the status line.
pub open spec fn bool_rep(b: bool) -> Seq<char> {
    if b {
        "true"@
    } else {
        "false"@
    }
}

/// The winners between the brackets: decimal slots joined by a comma and a
/// space, in the order of the sequence.
pub open spec fn winners_body_rep(s: Seq<u32>) -> Seq<char>
    decreases s.len(),
{
    if s.len() == 0 {
        Seq::empty()
    } else if s.len() == 1 {
        dec_rep(s[0] as nat)
    } else {
        winners_body_rep(s.drop_last()) + ", "@ + dec_rep(s.last() as nat)
    }
}

/// The bracketed winners list.
pub open spec fn winners_rep(s: Seq<u32>) -> Seq<char> {
    "["@ + winners_body_rep(s) + "]"@
}

/// The whole status line.
pub open spec fn status_rep(
    owner: ActorID,
    ready: bool,
    finished: bool,
    winners: Seq<u32>,
) -> Seq<char> {
    "Owner: "@ + dec_rep(owner as nat) + " | Ready: "@ + bool_rep(ready) + " | Finished: "@
        + bool_rep(finished) + " | Winners: #"@ + winners_rep(winners)
}

/// The one-character string of a decimal digit.
fn digit_str(d: u64) -> (r: &'static str)
    requires
        d < 10,
    ensures
        r@ == seq![digit_char(d as nat)],
{
    proof {
        reveal_strlit("0");
        reveal_strlit("1");
        reveal_strlit("2");
        reveal_strlit("3");
        reveal_strlit("4");
        reveal_strlit("5");
        reveal_strlit("6");
        reveal_strlit("7");
        reveal_strlit("8");
        reveal_strlit("9");
    }
    let r = match d {
        0 => "0",
        1 => "1",
        2 => "2",
        3 => "3",
        4 => "4",
        5 => "5",
        6 => "6",
        7 => "7",
        8 => "8",
        _ => "9",
    };
    proof {
        assert(r@ =~= seq![digit_char(d as nat)]);
    }
    r
}

/// Renders `n` in decimal.
pub fn decimal_of(n: u64) -> (s: String)
    ensures
        s@ == dec_rep(n as nat),
    decreases n,
{
    if n < 10 {
        let mut s = String::new();
        s.append(digit_str(n));
        proof {
            assert(s@ =~= dec_rep(n as nat));
        }
        s
    } else {
        let mut s = decimal_of(n / 10);
        s.append(digit_str(n % 10));
        proof {
            assert(s@ =~= dec_rep((n / 10) as nat).push(digit_char((n % 10) as nat)));
        }
        s
    }
}

fn bool_str(b: bool) -> (r: &'static str)
    ensures
        r@ == bool_rep(b),
{
    if b {
        "true"
    } else {
        "false"
    }
}

/// Renders the winners list in draw order, bracketed.
pub fn winners_string(winners: &Vec<u32>) -> (s: String)
    ensures
        s@ == winners_rep(winners@),
{
    let mut s = String::new();
    s.append("[");
    let mut i: usize = 0;
    while i < winners.len()
        invariant
            i <= winners@.len(),
            s@ == "["@ + winners_body_rep(winners@.take(i as int)),
        decreases winners@.len() - i,
    {
        if i > 0 {
            s.append(", ");
        }
        let d = decimal_of(winners[i] as u64);
        s.append(d.as_str());
        proof {
            assert(winners@.take(i as int + 1).drop_last() =~= winners@.take(i as int));
            assert(winners@.take(i as int + 1).last() == winners@[i as int]);
            assert(s@ =~= "["@ + winners_body_rep(winners@.take(i as int + 1)));
        }
        i = i + 1;
    }
    s.append("]");
    proof {
        assert(winners@.take(winners@.len() as int) =~= winners@);
        assert(s@ =~= winners_rep(winners@));
    }
    s
}

/// Renders the whole status snapshot as the one line the lottery reports.
pub fn status_string(status: &Status) -> (s: String)
    ensures
        s@ == status_rep(status.owner, status.ready, status.finished, status.winners@),
{
    let mut s = String::new();
    s.append("Owner: ");
    let owner = decimal_of(status.owner);
    s.append(owner.as_str());
    s.append(" | Ready: ");
    s.append(bool_str(status.ready));
    s.append(" | Finished: ");
    s.append(bool_str(status.finished));
    s.append(" | Winners: #");
    let w = winners_string(&status.winners);
    s.append(w.as_str());
    proof {
        assert(s@ =~= status_rep(status.owner, status.ready, status.finished, status.winners@));
    }
    s
}

} // verus!
