//! Documentation comment rendering.
use vstd::prelude::*;

use crate::config::{ApolloCodegenConfiguration, Composition};
use crate::templates::ConfigurationContext;
use crate::text::{
    is_blank, is_blank_str, join, join_strings, lines, opt_str_view, opt_view, push_part, spec_lines, views,
};

verus! {

/// A documentation line: `///` for a blank line, `/// ` and the line otherwise.
pub open spec fn documentation_line(l: Seq<char>) -> Seq<char> {
    if is_blank(l) {
        seq!['/', '/', '/']
    } else {
        seq!['/', '/', '/', ' '] + l
    }
}

/// The lines of `doc` as documentation lines, joined with newlines.
pub open spec fn spec_documentation(doc: Seq<char>) -> Seq<char> {
    join(spec_lines(doc).map_values(|l: Seq<char>| documentation_line(l)), seq!['\n'])
}

/// Documentation as rendered under the configuration: present when schema documentation
/// is included and the documentation is present and not empty.
pub open spec fn spec_rendered_documentation(documentation: Option<Seq<char>>, config: ApolloCodegenConfiguration) -> Option<Seq<char>> {
    match documentation {
        Some(d) => if config.options.schema_documentation == Composition::Include && d.len() > 0 {
            Some(spec_documentation(d))
        } else {
            None
        },
        None => None,
    }
}

/// The lines of `doc`, each as a documentation line.
pub fn documentation_lines(doc: &str) -> (r: Vec<String>)
    ensures
        views(r@) == spec_lines(doc@).map_values(|l: Seq<char>| documentation_line(l)),
{
    let ls = lines(doc);
    let ghost target = spec_lines(doc@).map_values(|l: Seq<char>| documentation_line(l));
    let mut r: Vec<String> = Vec::new();
    let mut i: usize = 0;
    while i < ls.len()
        invariant
            i <= ls.len(),
            views(ls@) == spec_lines(doc@),
            target == spec_lines(doc@).map_values(|l: Seq<char>| documentation_line(l)),
            views(r@) == target.take(i as int),
        decreases ls.len() - i,
    {
        let line = ls[i].as_str();
        let mut d = String::new();
        if is_blank_str(line) {
            d.append("///");
        } else {
            d.append("/// ");
            d.append(line);
        }
        proof {
            reveal_strlit("///");
            reveal_strlit("/// ");
            assert(line@ == views(ls@)[i as int]);
            assert(d@ =~= documentation_line(line@));
            assert(target.take(i + 1) =~= target.take(i as int).push(d@));
        }
        push_part(&mut r, d);
        i = i + 1;
    }
    proof {
        assert(target.take(ls.len() as int) =~= target);
    }
    r
}

/// Renders documentation as `///` lines when schema documentation is included.
///
/// Returns `None` when the configuration excludes schema documentation, or when the
/// documentation is absent or empty.
pub fn render_documentation(documentation: Option<&str>, config: &ConfigurationContext) -> (r: Option<String>)
    ensures
        r is Some <==> (config.config.options.schema_documentation == Composition::Include
            && documentation is Some && documentation->0@.len() > 0),
        r matches Some(s) ==> s@ == spec_documentation(documentation->0@),
        opt_view(r) == spec_rendered_documentation(opt_str_view(documentation), config.config),
{
    if config.options().schema_documentation != Composition::Include {
        return None;
    }
    let doc = match documentation {
        Some(d) => d,
        None => return None,
    };
    if doc.is_empty() {
        return None;
    }
    let ls = documentation_lines(doc);
    proof {
        reveal_strlit("\n");
        assert("\n"@ =~= seq!['\n']);
    }
    Some(join_strings(&ls, "\n"))
}

} // verus!
