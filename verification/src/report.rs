//! Elapsed time in words.

use crate::clock::Clock;
use crate::time::{Duration, Instant};
use vstd::prelude::*;

verus! {

/// The character that stands for a digit below ten.
pub open spec fn digit_char(digit: nat) -> char {
    if digit == 0 {
        '0'
    } else if digit == 1 {
        '1'
    } else if digit == 2 {
        '2'
    } else if digit == 3 {
        '3'
    } else if digit == 4 {
        '4'
    } else if digit == 5 {
        '5'
    } else if digit == 6 {
        '6'
    } else if digit == 7 {
        '7'
    } else if digit == 8 {
        '8'
    } else {
        '9'
    }
}

/// The decimal numeral of `n`: no sign, no leading zero, `0` for zero.
pub open spec fn decimal(n: nat) -> Seq<char>
    decreases n,
{
    if n < 10 {
        seq![digit_char(n)]
    } else {
        decimal(n / 10).push(digit_char(n % 10))
    }
}

/// How an elapsed span reads: its whole seconds as a decimal numeral,
/// followed by the words "seconds ago".
pub open spec fn elapsed_text(elapsed: Duration) -> Seq<char> {
    decimal(elapsed.whole_secs()) + " seconds ago"@
}

fn digit_text(digit: u64) -> (text: &'static str)
    requires
        digit < 10,
    ensures
        text@ == seq![digit_char(digit as nat)],
{
    proof {
        reveal_strlit("0");
        reveal_strlit("1");
        reveal_strlit("2");
        reveal_strlit("3");
        reveal_strlit("4");
        reveal_strlit("5");
        reveal_strlit("6");
        reveal_strlit("7");
        reveal_strlit("8");
        reveal_strlit("9");
    }
    let text = if digit == 0 {
        "0"
    } else if digit == 1 {
        "1"
    } else if digit == 2 {
        "2"
    } else if digit == 3 {
        "3"
    } else if digit == 4 {
        "4"
    } else if digit == 5 {
        "5"
    } else if digit == 6 {
        "6"
    } else if digit == 7 {
        "7"
    } else if digit == 8 {
        "8"
    } else {
        "9"
    };
    assert(text@ =~= seq![digit_char(digit as nat)]);
    text
}

/// The decimal numeral of `n`.
pub fn decimal_text(n: u64) -> (text: String)
    ensures
        text@ == decimal(n as nat),
{
    let mut text = String::from_str(digit_text(n % 10));
    let mut rest: u64 = n / 10;
    while rest > 0
        invariant
            decimal(n as nat) == if rest == 0 {
                text@
            } else {
                decimal(rest as nat) + text@
            },
        decreases rest,
    {
        let head = String::from_str(digit_text(rest % 10));
        proof {
            let digit = seq![digit_char((rest % 10) as nat)];
            if rest >= 10 {
                assert(decimal((rest / 10) as nat).push(digit_char((rest % 10) as nat)) + text@
                    =~= decimal((rest / 10) as nat) + (digit + text@));
            } else {
                assert(decimal(rest as nat) + text@ =~= digit + text@);
            }
        }
        text = head.concat(text.as_str());
        rest = rest / 10;
    }
    text
}

/// How `elapsed` reads, in whole seconds: `32 seconds ago`.
pub fn format_elapsed(elapsed: Duration) -> (text: String)
    ensures
        text@ == elapsed_text(elapsed),
{
    let mut text = decimal_text(elapsed.as_secs());
    text.append(" seconds ago");
    text
}

/// How long before the reading of `clock2` the reading of `clock1` lies, in
/// words. Both clocks are read once, `clock2` first; a reading of `clock1`
/// that turns out the later one counts as no time at all.
pub fn format_time_difference<C1: Clock, C2: Clock>(clock1: C1, clock2: C2) -> (text: String)
    ensures
        exists|from: Instant, to: Instant|
            #![trigger clock1.reports(from), clock2.reports(to)]
            clock1.reports(from) && clock2.reports(to) && text@ == elapsed_text(
                to.spec_duration_since(from),
            ),
{
    let to = clock2.now();
    let from = clock1.now();
    format_elapsed(to.duration_since(from))
}

} // verus!
