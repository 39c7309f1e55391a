//! The command router: reads a chat line as a bang command and, for a quote
//! command, collects the formatted quotes that make up the reply.

use vstd::prelude::*;
use crate::failure::{have_a_cow, stock_phrases, Failure};
use crate::quote::{format_with, formatted, lemma_formatted_nonempty};
use crate::retrieve::{next_after, Attempt, Next, Retrieval};
use crate::text::{
    lemma_word_end_bounds, lemma_word_start_bounds, same_text, skip_spaces, skip_word, trim_str, trimmed,
    word_end, word_from,
};

verus! {

/// The trimmed line carries the command prefix `!`.
pub open spec fn is_command(t: Seq<char>) -> bool {
    t.len() > 0 && t[0] == '!'
}

/// The command's name: the first word of the trimmed line.
pub open spec fn command_name(t: Seq<char>) -> Seq<char> {
    t.subrange(0, word_end(t, 0) as int)
}

/// The command's optional speaker filter: the second word of the trimmed line.
pub open spec fn command_arg(t: Seq<char>) -> Option<Seq<char>> {
    word_from(t, word_end(t, 0))
}

/// How many quotes a command name asks for; zero for an unknown name.
pub open spec fn quotes_wanted(name: Seq<char>) -> nat {
    if name == "!rq"@ {
        1
    } else if name == "!!rq"@ {
        3
    } else {
        0
    }
}

/// The reply built so far after adding the formatted quote `q` to `acc`,
/// which holds `got` quotes: quotes are joined by single spaces.
pub open spec fn extend(acc: Seq<char>, got: nat, q: Seq<char>) -> Seq<char> {
    if got == 0 {
        q
    } else {
        acc + seq![' '] + q
    }
}

/// A quote command in progress.
pub struct Request {
    speaker: Option<String>,
    wanted: usize,
    got: usize,
    reply: String,
    retrieval: Retrieval,
}

/// What the router made of a chat line.
pub enum Outcome {
    /// Not a command: say nothing.
    Silent,
    /// A command that failed before any retrieval.
    Failed(Failure),
    /// A quote command: run the request against the store.
    Fetch(Request),
}

/// What a request does after a store answer.
pub enum Progress {
    /// Query the store again with the same filter.
    Again,
    /// The command is over: the reply, or why there is none.
    Done(Result<String, Failure>),
}

impl Request {
    pub closed spec fn speaker_view(&self) -> Option<Seq<char>> {
        match self.speaker {
            Some(s) => Some(s@),
            None => None,
        }
    }

    pub closed spec fn wanted(&self) -> nat {
        self.wanted as nat
    }

    pub closed spec fn got(&self) -> nat {
        self.got as nat
    }

    pub closed spec fn reply_view(&self) -> Seq<char> {
        self.reply@
    }

    pub closed spec fn attempts(&self) -> nat {
        self.retrieval.attempts()
    }

    /// The request still waits for a quote and may still query the store.
    pub closed spec fn wf(&self) -> bool {
        &&& (self.wanted == 1 || self.wanted == 3)
        &&& self.got < self.wanted
        &&& self.retrieval.wf()
    }

    /// A request that has asked for `wanted` quotes and has none yet.
    pub open spec fn fresh(&self, speaker: Option<Seq<char>>, wanted: nat) -> bool {
        &&& self.wf()
        &&& self.speaker_view() == speaker
        &&& self.wanted() == wanted
        &&& self.got() == 0
        &&& self.attempts() == 0
    }

    /// Feeding answer `a` with glyph choice `coin` took `pre` to `post` with
    /// result `r`.
    pub open spec fn fed(pre: Request, post: Request, a: Attempt, coin: bool, r: Progress) -> bool {
        match next_after(pre.attempts(), a) {
            Next::Retry => {
                &&& r is Again
                &&& post.wf()
                &&& post.speaker_view() == pre.speaker_view()
                &&& post.wanted() == pre.wanted()
                &&& post.got() == pre.got()
                &&& post.reply_view() == pre.reply_view()
                &&& post.attempts() == pre.attempts() + 1
            },
            Next::Failed(e) => r == Progress::Done(Err(e)),
            Next::Got(q) => {
                let acc = extend(pre.reply_view(), pre.got(), formatted(q@, coin));
                if pre.got() + 1 == pre.wanted() {
                    match r {
                        Progress::Done(Ok(s)) => s@ == acc,
                        _ => false,
                    }
                } else {
                    &&& r is Again
                    &&& post.wf()
                    &&& post.speaker_view() == pre.speaker_view()
                    &&& post.wanted() == pre.wanted()
                    &&& post.got() == pre.got() + 1
                    &&& post.reply_view() == acc
                    &&& post.attempts() == 0
                }
            },
        }
    }

    /// The speaker filter to query the store with.
    pub fn speaker(&self) -> (r: Option<String>)
        ensures
            match r {
                Some(s) => self.speaker_view() == Some(s@),
                None => self.speaker_view() is None,
            },
    {
        match &self.speaker {
            Some(s) => Some(s.clone()),
            None => None,
        }
    }

    /// Takes in the store's answer, with the glyph choice `coin` for an
    /// action line.
    pub fn feed_with(&mut self, a: Attempt, coin: bool) -> (r: Progress)
        requires
            old(self).wf(),
        ensures
            Request::fed(*old(self), *final(self), a, coin, r),
    {
        let ghost pre = *self;
        match self.retrieval.observe(a) {
            Next::Retry => Progress::Again,
            Next::Failed(e) => Progress::Done(Err(e)),
            Next::Got(q) => {
                let f = format_with(q.as_str(), coin);
                if self.got == 0 {
                    self.reply = f;
                } else {
                    self.reply.append(" ");
                    proof {
                        reveal_strlit(" ");
                        assert(" "@ =~= seq![' ']);
                    }
                    self.reply.append(f.as_str());
                    assert(self.reply@ =~= pre.reply@ + seq![' '] + f@);
                }
                self.got = self.got + 1;
                if self.got == self.wanted {
                    Progress::Done(Ok(self.reply.clone()))
                } else {
                    self.retrieval = Retrieval::new();
                    Progress::Again
                }
            },
        }
    }

    /// Takes in the store's answer, flipping a fair coin for the glyph of an
    /// action line.
    pub fn feed(&mut self, a: Attempt) -> (r: Progress)
        requires
            old(self).wf(),
        ensures
            Request::fed(*old(self), *final(self), a, true, r) || Request::fed(
                *old(self),
                *final(self),
                a,
                false,
                r,
            ),
    {
        let coin: bool = rand::random::<bool>();
        self.feed_with(a, coin)
    }
}

/// Reads a chat line as a command. A line whose trimmed text does not start
/// with `!` is silently ignored; `!rq [speaker]` asks for one quote and
/// `!!rq [speaker]` for three; any other name is not recognized.
pub fn dispatch(line: &str) -> (r: Outcome)
    ensures
        !is_command(trimmed(line@)) ==> r is Silent,
        is_command(trimmed(line@)) && quotes_wanted(command_name(trimmed(line@))) == 0 ==> r
            == Outcome::Failed(Failure::UnrecognizedCommand),
        is_command(trimmed(line@)) && quotes_wanted(command_name(trimmed(line@))) > 0 ==> match r {
            Outcome::Fetch(q) => q.fresh(
                command_arg(trimmed(line@)),
                quotes_wanted(command_name(trimmed(line@))),
            ),
            _ => false,
        },
{
    let t = trim_str(line);
    let n = t.unicode_len();
    if n == 0 || t.get_char(0) != '!' {
        return Outcome::Silent;
    }
    let e = skip_word(t, n, 0);
    proof {
        lemma_word_end_bounds(t@, 0);
    }
    let name = t.substring_char(0, e);
    let wanted: usize = if same_text(name, "!rq") {
        1
    } else if same_text(name, "!!rq") {
        3
    } else {
        0
    };
    if wanted == 0 {
        return Outcome::Failed(Failure::UnrecognizedCommand);
    }
    let a = skip_spaces(t, n, e);
    proof {
        lemma_word_start_bounds(t@, e as nat);
    }
    let speaker = if a < n {
        let b = skip_word(t, n, a);
        proof {
            lemma_word_end_bounds(t@, a as nat);
        }
        Some(String::from_str(t.substring_char(a, b)))
    } else {
        None
    };
    Outcome::Fetch(
        Request { speaker, wanted, got: 0, reply: String::new(), retrieval: Retrieval::new() },
    )
}

/// The text said for a finished command: the reply itself, or a stock
/// phrase for its failure.
pub fn render(r: Result<String, Failure>) -> (out: String)
    ensures
        match r {
            Ok(s) => out == s,
            Err(e) => stock_phrases(e).contains(out@) && out@.len() > 0,
        },
{
    match r {
        Ok(s) => s,
        Err(e) => have_a_cow(e),
    }
}

/// A `!!rq` request that finds a non-empty quote on each of its three
/// queries keeps asking after the first two, and then replies with three
/// non-empty segments (the formatted quotes) joined by single spaces.
pub proof fn lemma_three_quote_reply(
    r0: Request,
    r1: Request,
    r2: Request,
    r3: Request,
    t1: String,
    t2: String,
    t3: String,
    c1: bool,
    c2: bool,
    c3: bool,
    step1: Progress,
    step2: Progress,
    step3: Progress,
)
    requires
        r0.wf(),
        r0.wanted() == 3,
        r0.got() == 0,
        Request::fed(r0, r1, Attempt::Found(t1), c1, step1),
        Request::fed(r1, r2, Attempt::Found(t2), c2, step2),
        Request::fed(r2, r3, Attempt::Found(t3), c3, step3),
        t1@.len() > 0,
        t2@.len() > 0,
        t3@.len() > 0,
    ensures
        step1 is Again,
        step2 is Again,
        match step3 {
            Progress::Done(Ok(s)) => {
                let f1 = formatted(t1@, c1);
                let f2 = formatted(t2@, c2);
                let f3 = formatted(t3@, c3);
                &&& s@ == f1 + seq![' '] + f2 + seq![' '] + f3
                &&& f1.len() > 0 && f2.len() > 0 && f3.len() > 0
            },
            _ => false,
        },
{
    lemma_formatted_nonempty(t1@, c1);
    lemma_formatted_nonempty(t2@, c2);
    lemma_formatted_nonempty(t3@, c3);
}

} // verus!
