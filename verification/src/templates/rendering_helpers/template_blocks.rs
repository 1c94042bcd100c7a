//! Small blocks of template text: indented text, bracketed lists, and the deprecation
//! annotation of test mock fields.
use vstd::prelude::*;

use crate::config::{ApolloCodegenConfiguration, Composition};
use crate::text::{is_blank, is_blank_str, join, lemma_join_push, lines, push_char, spec_lines, views};

verus! {

/// `n` spaces.
pub open spec fn spaces(n: nat) -> Seq<char> {
    Seq::new(n, |i: int| ' ')
}

/// A line indented by `n` spaces; a blank line becomes empty.
pub open spec fn indented_line(l: Seq<char>, n: nat) -> Seq<char> {
    if is_blank(l) {
        Seq::empty()
    } else {
        spaces(n) + l
    }
}

/// The lines of `text`, each indented by `n` spaces, joined with newlines.
pub open spec fn spec_indent(text: Seq<char>, n: nat) -> Seq<char> {
    join(spec_lines(text).map_values(|l: Seq<char>| indented_line(l, n)), seq!['\n'])
}

/// Indents each non-blank line of `text` by `spaces` spaces; blank lines become empty.
pub fn indent(text: &str, spaces_count: usize) -> (r: String)
    ensures
        r@ == spec_indent(text@, spaces_count as nat),
{
    let mut prefix = String::new();
    let mut k: usize = 0;
    while k < spaces_count
        invariant
            k <= spaces_count,
            prefix@ == spaces(k as nat),
        decreases spaces_count - k,
    {
        push_char(&mut prefix, ' ');
        proof {
            assert(prefix@ =~= spaces((k + 1) as nat));
        }
        k = k + 1;
    }
    let ls = lines(text);
    let ghost target = spec_lines(text@).map_values(|l: Seq<char>| indented_line(l, spaces_count as nat));
    let mut r = String::new();
    let mut i: usize = 0;
    while i < ls.len()
        invariant
            i <= ls.len(),
            prefix@ == spaces(spaces_count as nat),
            views(ls@) == spec_lines(text@),
            target == spec_lines(text@).map_values(|l: Seq<char>| indented_line(l, spaces_count as nat)),
            r@ == join(target.take(i as int), seq!['\n']),
        decreases ls.len() - i,
    {
        let line = ls[i].as_str();
        let mut out = String::new();
        if !is_blank_str(line) {
            out.append(prefix.as_str());
            out.append(line);
        }
        proof {
            reveal_strlit("\n");
            assert(line@ == views(ls@)[i as int]);
            assert(out@ =~= indented_line(line@, spaces_count as nat));
            assert(target.take(i + 1) =~= target.take(i as int).push(out@));
            lemma_join_push(target.take(i as int), seq!['\n'], out@);
        }
        if i > 0 {
            r.append("\n");
        }
        r.append(out.as_str());
        i = i + 1;
    }
    proof {
        assert(target.take(ls.len() as int) =~= target);
    }
    r
}

/// A list of already rendered items: `[item]` for a single item; otherwise each item on a
/// line of its own, indented by four spaces and separated by commas, inside brackets.
pub open spec fn spec_bracketed_list(items: Seq<Seq<char>>) -> Seq<char> {
    if items.len() == 1 {
        seq!['['] + items[0] + seq![']']
    } else {
        "[\n"@ + join(items.map_values(|s: Seq<char>| spaces(4) + s), ",\n"@) + "\n  ]"@
    }
}

/// Renders a list of items as `spec_bracketed_list` describes.
pub fn render_bracketed_list(items: &[String]) -> (r: String)
    ensures
        r@ == spec_bracketed_list(views(items@)),
{
    if items.len() == 1 {
        let mut r = String::new();
        push_char(&mut r, '[');
        r.append(items[0].as_str());
        push_char(&mut r, ']');
        proof {
            assert(items@[0]@ == views(items@)[0]);
        }
        return r;
    }
    let ghost lined = views(items@).map_values(|s: Seq<char>| spaces(4) + s);
    let mut inner = String::new();
    let mut i: usize = 0;
    while i < items.len()
        invariant
            i <= items.len(),
            lined == views(items@).map_values(|s: Seq<char>| spaces(4) + s),
            inner@ == join(lined.take(i as int), ",\n"@),
        decreases items.len() - i,
    {
        let mut line = String::new();
        line.append("    ");
        line.append(items[i].as_str());
        proof {
            reveal_strlit("    ");
            assert(items@[i as int]@ == views(items@)[i as int]);
            assert("    "@ =~= spaces(4));
            assert(lined.take(i + 1) =~= lined.take(i as int).push(line@));
            lemma_join_push(lined.take(i as int), ",\n"@, line@);
        }
        if i > 0 {
            inner.append(",\n");
        }
        inner.append(line.as_str());
        i = i + 1;
    }
    proof {
        assert(lined.take(items.len() as int) =~= lined);
    }
    let mut r = String::from_str("[\n");
    r.append(inner.as_str());
    r.append("\n  ]");
    r
}

/// A string in double quotes.
pub open spec fn quoted(s: Seq<char>) -> Seq<char> {
    seq!['"'] + s + seq!['"']
}

/// Renders a list of strings, each in double quotes, as `spec_bracketed_list` describes.
pub fn render_list_of_quoted_strings(items: &[String]) -> (r: String)
    ensures
        r@ == spec_bracketed_list(views(items@).map_values(|s: Seq<char>| quoted(s))),
{
    let mut quoted_items: Vec<String> = Vec::new();
    let mut i: usize = 0;
    while i < items.len()
        invariant
            i <= items.len(),
            views(quoted_items@) == views(items@).map_values(|s: Seq<char>| quoted(s)).take(i as int),
        decreases items.len() - i,
    {
        let mut q = String::new();
        push_char(&mut q, '"');
        q.append(items[i].as_str());
        push_char(&mut q, '"');
        proof {
            assert(items@[i as int]@ == views(items@)[i as int]);
            assert(q@ =~= quoted(items@[i as int]@));
            assert(views(items@).map_values(|s: Seq<char>| quoted(s))[i as int] == quoted(views(items@)[i as int]));
        }
        let ghost before = views(quoted_items@);
        quoted_items.push(q);
        proof {
            assert(views(quoted_items@) =~= before.push(q@));
        }
        proof {
            assert(views(quoted_items@) =~= views(items@).map_values(|s: Seq<char>| quoted(s)).take(i + 1));
        }
        i = i + 1;
    }
    proof {
        assert(views(quoted_items@) =~= views(items@).map_values(|s: Seq<char>| quoted(s)));
    }
    render_bracketed_list(quoted_items.as_slice())
}

/// The deprecation annotation of a test mock field, on a line of its own; the reason is
/// written as it is.
pub open spec fn spec_mock_deprecation(reason: Option<Seq<char>>, config: ApolloCodegenConfiguration) -> Seq<char> {
    match reason {
        Some(r) => if config.options.warnings_on_deprecated_usage == Composition::Include {
            "@available(*, deprecated, message: \""@ + r + "\")\n"@
        } else {
            Seq::empty()
        },
        None => Seq::empty(),
    }
}

/// Renders the deprecation annotation of a test mock field, when there is a reason and
/// deprecation warnings are included.
pub fn render_mock_deprecation(deprecation_reason: Option<&str>, config: &ApolloCodegenConfiguration) -> (r: String)
    ensures
        r@ == spec_mock_deprecation(
            match deprecation_reason {
                Some(s) => Some(s@),
                None => None,
            },
            *config,
        ),
{
    match (deprecation_reason, config.options.warnings_on_deprecated_usage) {
        (Some(reason), Composition::Include) => {
            let mut r = String::from_str("@available(*, deprecated, message: \"");
            r.append(reason);
            r.append("\")\n");
            r
        },
        _ => String::new(),
    }
}

} // verus!
