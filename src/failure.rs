//! The failures a command can end in, and the stock phrases that answer them.

use vstd::prelude::*;

verus! {

/// Why a command produced no quote.
#[derive(Clone, Copy, Debug, PartialEq, Eq, Structural)]
pub enum Failure {
    /// The line had the command prefix but named no known command.
    UnrecognizedCommand,
    /// Every retrieval attempt came back empty.
    NoResult,
    /// The store reported a hard fault.
    StoreUnavailable,
}

/// The stock phrases that may answer a failure.
pub open spec fn stock_phrases(e: Failure) -> Seq<Seq<char>> {
    match e {
        Failure::UnrecognizedCommand => seq![
            "Huh?"@,
            "Don't remember that one."@,
            "What's that?"@,
            "Hmm..."@,
            "Beats me."@,
        ],
        Failure::NoResult => seq!["I got nothin'."@, "Drawing a blank."@, "Nothing comes to mind."@],
        Failure::StoreUnavailable => seq!["I'm having brain problems."@],
    }
}

/// The stock phrase of `e` that `n` picks, counting round the list.
pub fn stock_phrase(e: Failure, n: usize) -> (r: String)
    ensures
        r@ == stock_phrases(e)[(n as int) % (stock_phrases(e).len() as int)],
        r@.len() > 0,
{
    match e {
        Failure::UnrecognizedCommand => {
            let i = n % 5;
            if i == 0 {
                proof { reveal_strlit("Huh?"); }
                String::from_str("Huh?")
            } else if i == 1 {
                proof { reveal_strlit("Don't remember that one."); }
                String::from_str("Don't remember that one.")
            } else if i == 2 {
                proof { reveal_strlit("What's that?"); }
                String::from_str("What's that?")
            } else if i == 3 {
                proof { reveal_strlit("Hmm..."); }
                String::from_str("Hmm...")
            } else {
                proof { reveal_strlit("Beats me."); }
                String::from_str("Beats me.")
            }
        },
        Failure::NoResult => {
            let i = n % 3;
            if i == 0 {
                proof { reveal_strlit("I got nothin'."); }
                String::from_str("I got nothin'.")
            } else if i == 1 {
                proof { reveal_strlit("Drawing a blank."); }
                String::from_str("Drawing a blank.")
            } else {
                proof { reveal_strlit("Nothing comes to mind."); }
                String::from_str("Nothing comes to mind.")
            }
        },
        Failure::StoreUnavailable => {
            proof { reveal_strlit("I'm having brain problems."); }
            String::from_str("I'm having brain problems.")
        },
    }
}

/// Renders a failure as one of its stock phrases, picked at random.
pub fn have_a_cow(e: Failure) -> (r: String)
    ensures
        stock_phrases(e).contains(r@),
        r@.len() > 0,
{
    let n: usize = rand::random::<usize>();
    let r = stock_phrase(e, n);
    assert(stock_phrases(e)[(n as int) % (stock_phrases(e).len() as int)] == r@);
    r
}

} // verus!
