//! Conversion of multi-line text to a single line.
use vstd::prelude::*;

use crate::text::{
    join, lemma_join_push, lemma_join_without, lemma_lines_without_newline, lemma_trim_without,
    lines, spec_lines, spec_trim, trim, views,
};

verus! {

/// The lines of `s`, each trimmed, joined with single spaces.
pub open spec fn spec_converted_to_single_line(s: Seq<char>) -> Seq<char> {
    join(spec_lines(s).map_values(|l: Seq<char>| spec_trim(l)), seq![' '])
}

/// Converts a multi-line string to a single line by splitting it into lines, trimming
/// whitespace from each line, and joining the lines with spaces.
pub fn converted_to_single_line(s: &str) -> (r: String)
    ensures
        r@ == spec_converted_to_single_line(s@),
{
    let ls = lines(s);
    let ghost trimmed = spec_lines(s@).map_values(|l: Seq<char>| spec_trim(l));
    let mut r = String::new();
    let mut i: usize = 0;
    while i < ls.len()
        invariant
            i <= ls.len(),
            views(ls@) == spec_lines(s@),
            trimmed == spec_lines(s@).map_values(|l: Seq<char>| spec_trim(l)),
            r@ == join(trimmed.take(i as int), seq![' ']),
        decreases ls.len() - i,
    {
        let t = trim(ls[i].as_str());
        proof {
            assert(ls@[i as int]@ == views(ls@)[i as int]);
            assert(trimmed.take(i + 1) =~= trimmed.take(i as int).push(t@));
            lemma_join_push(trimmed.take(i as int), seq![' '], t@);
        }
        if i > 0 {
            r.append(" ");
            proof {
                reveal_strlit(" ");
            }
        }
        r.append(t.as_str());
        i = i + 1;
    }
    proof {
        assert(trimmed.take(ls.len() as int) =~= trimmed);
    }
    r
}

/// A converted string holds no newline.
pub proof fn law_single_line_has_no_newline(s: Seq<char>)
    ensures
        !spec_converted_to_single_line(s).contains('\n'),
{
    let trimmed = spec_lines(s).map_values(|l: Seq<char>| spec_trim(l));
    lemma_lines_without_newline(s);
    assert forall|i: int| 0 <= i < trimmed.len() implies !(#[trigger] trimmed[i]).contains('\n') by {
        assert(!spec_lines(s)[i].contains('\n'));
        lemma_trim_without(spec_lines(s)[i], '\n');
    }
    assert(!seq![' '].contains('\n')) by {
        if seq![' '].contains('\n') {
            let k = choose|k: int| 0 <= k < 1 && seq![' '][k] == '\n';
        }
    }
    lemma_join_without(trimmed, seq![' '], '\n');
}

} // verus!
