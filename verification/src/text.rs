//! Views of collections of output lines.

use vstd::prelude::*;

verus! {

/// The character sequences held by a sequence of strings.
pub open spec fn views_of(lines: Seq<String>) -> Seq<Seq<char>> {
    lines.map_values(|s: String| s@)
}

/// `views_of` distributes over pushing one more line.
pub proof fn lemma_views_of_push(lines: Seq<String>, line: String)
    ensures
        views_of(lines.push(line)) =~= views_of(lines).push(line@),
{
}

} // verus!
