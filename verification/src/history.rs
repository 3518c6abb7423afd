//! Rendering of a wallet's recent transaction history: a reverse
//! chronological sequence of signature strings is shown as at most five
//! ordinal-labelled lines, or as an explicit notice when it is empty.

use vstd::prelude::*;
use vstd::string::*;
use crate::digits::dec_chars;
use crate::text::{lemma_views_of_push, views_of};

verus! {

/// How many history entries are shown at most.
pub open spec fn shown_limit() -> nat {
    5
}

/// One rendered history line: a 1-based ordinal, then the signature.
pub open spec fn sig_line(ordinal: nat, sig: Seq<char>) -> Seq<char> {
    dec_chars(ordinal) + ". Signature: "@ + sig
}

/// The rendered history: the explicit notice for an empty sequence, else
/// the first entries up to the limit, each on its own ordinal-labelled
/// line, in the given (most recent first) order.
pub open spec fn rendered_history(sigs: Seq<Seq<char>>) -> Seq<Seq<char>> {
    if sigs.len() == 0 {
        seq!["No recent transactions found."@]
    } else {
        let shown = if sigs.len() < shown_limit() {
            sigs.len()
        } else {
            shown_limit()
        };
        Seq::new(shown, |i: int| sig_line((i + 1) as nat, sigs[i]))
    }
}

/// Renders the history lines for a sequence of signature strings.
pub fn render_signatures(sigs: &Vec<String>) -> (lines: Vec<String>)
    ensures
        views_of(lines@) == rendered_history(views_of(sigs@)),
{
    let mut lines: Vec<String> = Vec::new();
    if sigs.len() == 0 {
        lines.push(String::from_str("No recent transactions found."));
        proof {
            assert(views_of(lines@) =~= rendered_history(views_of(sigs@)));
        }
        lines
    } else {
        let shown: usize = if sigs.len() < 5 {
            sigs.len()
        } else {
            5
        };
        let mut i: usize = 0;
        while i < shown
            invariant
                i <= shown,
                shown == (if sigs@.len() < 5 { sigs@.len() } else { 5 }),
                views_of(lines@) =~= rendered_history(views_of(sigs@)).take(i as int),
            decreases shown - i,
        {
            let mut line = String::new();
            push_dec_ordinal(i, &mut line);
            line.append(". Signature: ");
            line.append(sigs[i].as_str());
            proof {
                assert(line@ =~= sig_line((i + 1) as nat, views_of(sigs@)[i as int]));
                lemma_views_of_push(lines@, line);
                assert(views_of(lines@).push(line@) =~= rendered_history(views_of(sigs@)).take(
                    i + 1,
                ));
            }
            lines.push(line);
            i = i + 1;
        }
        proof {
            assert(rendered_history(views_of(sigs@)).take(shown as int) =~= rendered_history(
                views_of(sigs@),
            ));
        }
        lines
    }
}

/// Appends the ordinal for index `i` (that is, `i + 1`) to `out`.
fn push_dec_ordinal(i: usize, out: &mut String)
    requires
        i < 5,
    ensures
        final(out)@ == old(out)@ + dec_chars((i + 1) as nat),
{
    crate::digits::push_dec((i as u64) + 1, out);
}

/// The shape of the rendered history: an empty history renders as exactly
/// the notice line; a history of at least the limit renders as exactly the
/// limit's worth of lines; a shorter one renders every entry. Each shown
/// line carries the 1-based ordinal of its entry, in the original order.
pub proof fn lemma_rendered_history_shape(sigs: Seq<Seq<char>>)
    ensures
        sigs.len() == 0 ==> rendered_history(sigs) == seq!["No recent transactions found."@],
        sigs.len() >= shown_limit() ==> rendered_history(sigs).len() == shown_limit(),
        0 < sigs.len() < shown_limit() ==> rendered_history(sigs).len() == sigs.len(),
        sigs.len() > 0 ==> forall|i: int|
            0 <= i < rendered_history(sigs).len() ==> rendered_history(sigs)[i] == sig_line(
                (i + 1) as nat,
                sigs[i],
            ),
{
}

} // verus!
