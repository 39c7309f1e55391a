//! The reply formatter: turns a stored quote into the line the bot says.

use vstd::prelude::*;
use crate::text::{find_char, find_from, lemma_find_from_bounds, lemma_find_from_first, occurs_in};

verus! {

/// The glyph put before a quote that was stored as `<speaker> message`.
pub open spec fn said_glyph() -> Seq<char> {
    seq!['\u{25C7}', ' ']
}

/// One of the two glyphs put before an action line, picked by `coin`.
pub open spec fn actor_glyph(coin: bool) -> Seq<char> {
    if coin {
        seq!['\u{1F483}', ' ']
    } else {
        seq!['\u{1F57A}', ' ']
    }
}

/// The text starts with `<` and holds a `>`.
pub open spec fn is_said(s: Seq<char>) -> bool {
    s.len() > 0 && s[0] == '<' && find_from(s, '>', 0) < s.len()
}

/// The text starts with `* `.
pub open spec fn is_action(s: Seq<char>) -> bool {
    s.len() >= 2 && s[0] == '*' && s[1] == ' '
}

/// The display form of a stored quote. A `<speaker> message` line loses its
/// marker and the character after it, and gets the "said" glyph; a
/// `* speaker action` line loses `* speaker ` and gets the actor glyph that
/// `coin` picks; any other text, or one whose delimiter is missing, stays as
/// it is.
pub open spec fn formatted(s: Seq<char>, coin: bool) -> Seq<char> {
    if is_said(s) {
        let skip = find_from(s, '>', 0) + 2;
        if skip <= s.len() {
            said_glyph() + s.subrange(skip as int, s.len() as int)
        } else {
            s
        }
    } else if is_action(s) {
        let sp = find_from(s, ' ', 2);
        if sp < s.len() {
            actor_glyph(coin) + s.subrange(sp + 1int, s.len() as int)
        } else {
            s
        }
    } else {
        s
    }
}

/// Formats `s` with the glyph choice given by `coin`.
pub fn format_with(s: &str, coin: bool) -> (r: String)
    ensures
        r@ == formatted(s@, coin),
{
    let n = s.unicode_len();
    if n > 0 && s.get_char(0) == '<' {
        let gt = find_char(s, n, '>', 0);
        if gt < n {
            if gt + 1 < n {
                let mut out = String::from_str("\u{25C7} ");
                proof {
                    reveal_strlit("\u{25C7} ");
                }
                out.append(s.substring_char(gt + 2, n));
                return out;
            }
            return String::from_str(s);
        }
    }
    if n >= 2 && s.get_char(0) == '*' && s.get_char(1) == ' ' {
        let sp = find_char(s, n, ' ', 2);
        if sp < n {
            let mut out = if coin {
                let g = String::from_str("\u{1F483} ");
                proof {
                    reveal_strlit("\u{1F483} ");
                }
                g
            } else {
                let g = String::from_str("\u{1F57A} ");
                proof {
                    reveal_strlit("\u{1F57A} ");
                }
                g
            };
            out.append(s.substring_char(sp + 1, n));
            return out;
        }
    }
    String::from_str(s)
}

/// Formats `s`, flipping a fair coin for the glyph of an action line.
pub fn format_quote(s: &str) -> (r: String)
    ensures
        r@ == formatted(s@, true) || r@ == formatted(s@, false),
{
    let coin: bool = rand::random::<bool>();
    format_with(s, coin)
}

/// A non-empty quote never formats to an empty line.
pub proof fn lemma_formatted_nonempty(s: Seq<char>, coin: bool)
    requires
        s.len() > 0,
    ensures
        formatted(s, coin).len() > 0,
{
}

/// A `<a> rest` quote formats to the "said" glyph and `rest`, and the marker
/// `<a>` is gone from the result unless `rest` itself holds it.
pub proof fn lemma_said_drops_marker(a: Seq<char>, rest: Seq<char>, coin: bool)
    requires
        !a.contains('>'),
        !occurs_in(rest, seq!['<'] + a + seq!['>']),
    ensures
        formatted(seq!['<'] + a + seq!['>', ' '] + rest, coin) == said_glyph() + rest,
        !occurs_in(
            formatted(seq!['<'] + a + seq!['>', ' '] + rest, coin),
            seq!['<'] + a + seq!['>'],
        ),
{
    let s = seq!['<'] + a + seq!['>', ' '] + rest;
    let m = seq!['<'] + a + seq!['>'];
    let k = (a.len() + 1) as nat;
    assert(s[k as int] == '>');
    assert forall|j: int| 0 <= j < k implies s[j] != '>' by {
        if j > 0 {
            assert(s[j] == a[j - 1]);
        }
    }
    lemma_find_from_first(s, '>', 0, k);
    assert(s.subrange(k + 2int, s.len() as int) =~= rest);
    let out = said_glyph() + rest;
    assert(formatted(s, coin) == out);
    if occurs_in(out, m) {
        let i = choose|i: int|
            0 <= i && i + m.len() <= out.len() && #[trigger] out.subrange(i, i + m.len()) == m;
        assert(out.subrange(i, i + m.len())[0] == m[0]);
        assert(out[i] == '<');
        assert(i >= 2);
        assert(rest.subrange(i - 2, i - 2 + m.len()) =~= out.subrange(i, i + m.len()));
        assert(occurs_in(rest, m));
    }
}

/// A `* a rest` quote formats to one of exactly two lines, one per glyph.
pub proof fn lemma_action_two_forms(a: Seq<char>, rest: Seq<char>)
    requires
        !a.contains(' '),
    ensures
        formatted(seq!['*', ' '] + a + seq![' '] + rest, true) == actor_glyph(true) + rest,
        formatted(seq!['*', ' '] + a + seq![' '] + rest, false) == actor_glyph(false) + rest,
        actor_glyph(true) + rest != actor_glyph(false) + rest,
{
    let s = seq!['*', ' '] + a + seq![' '] + rest;
    let k = (a.len() + 2) as nat;
    assert(s[k as int] == ' ');
    assert forall|j: int| 2 <= j < k implies s[j] != ' ' by {
        assert(s[j] == a[j - 2]);
    }
    lemma_find_from_first(s, ' ', 2, k);
    lemma_find_from_bounds(s, '>', 0);
    assert(!is_said(s));
    assert(s.subrange(k + 1int, s.len() as int) =~= rest);
    assert((actor_glyph(true) + rest)[0] != (actor_glyph(false) + rest)[0]);
}

} // verus!
