//! GraphQL values written as Swift literals, for the arguments of fields.
use vstd::prelude::*;

use crate::graphql::GraphQLValue;
use crate::templates::rendering_helpers::template_blocks::spaces;
use crate::text::{i64_to_string, join, join_strings, push_part, spec_int_text, views};

verus! {

/// How deeply objects nest in a value; each object adds a level of indentation.
pub open spec fn spec_object_depth(v: GraphQLValue) -> nat
    decreases v, 1nat, 0nat,
{
    match v {
        GraphQLValue::List(items) => spec_items_depth(v, items@.len()),
        GraphQLValue::Object(entries) => 1 + spec_entries_depth(v, entries@.len()),
        _ => 0,
    }
}

/// The deepest nesting of objects among the first `n` items of a list.
pub open spec fn spec_items_depth(v: GraphQLValue, n: nat) -> nat
    decreases v, 0nat, n,
{
    match v {
        GraphQLValue::List(items) => if n == 0 || n > items@.len() {
            0
        } else {
            let rest = spec_items_depth(v, (n - 1) as nat);
            let d = spec_object_depth(items@[n - 1]);
            if d > rest {
                d
            } else {
                rest
            }
        },
        _ => 0,
    }
}

/// The deepest nesting of objects among the values of the first `n` entries of an object.
pub open spec fn spec_entries_depth(v: GraphQLValue, n: nat) -> nat
    decreases v, 0nat, n,
{
    match v {
        GraphQLValue::Object(entries) => if n == 0 || n > entries@.len() {
            0
        } else {
            let rest = spec_entries_depth(v, (n - 1) as nat);
            let d = spec_object_depth(entries@[n - 1].1);
            if d > rest {
                d
            } else {
                rest
            }
        },
        _ => 0,
    }
}

/// A value as a Swift literal: strings and enum values in quotes, numbers and booleans as
/// written, null as `.null`, variables as `.variable("name")`, lists in brackets, and
/// objects as dictionary literals; an object with two or more entries puts each on a line
/// of its own, indented by two more spaces than `indent`, and its closing bracket at `indent`.
pub open spec fn spec_input_value_literal(v: GraphQLValue, indent: nat) -> Seq<char>
    decreases v, 1nat, 0nat,
{
    match v {
        GraphQLValue::String(s) => "\""@ + s@ + "\""@,
        GraphQLValue::Boolean(b) => if b {
            "true"@
        } else {
            "false"@
        },
        GraphQLValue::Int(i) => spec_int_text(i as int),
        GraphQLValue::Float(f) => f@,
        GraphQLValue::Enum(e) => "\""@ + e@ + "\""@,
        GraphQLValue::Null => ".null"@,
        GraphQLValue::List(items) => "["@ + join(spec_literal_items(v, items@.len(), indent), ", "@) + "]"@,
        GraphQLValue::Object(entries) => if entries@.len() <= 1 {
            "["@ + join(spec_literal_entries(v, entries@.len(), indent, false), ", "@) + "]"@
        } else {
            "[\n"@ + join(spec_literal_entries(v, entries@.len(), indent, true), ",\n"@) + "\n"@ + spaces(indent) + "]"@
        },
        GraphQLValue::Variable(name) => ".variable(\""@ + name@ + "\")"@,
    }
}

/// The literals of the first `n` items of a list.
pub open spec fn spec_literal_items(v: GraphQLValue, n: nat, indent: nat) -> Seq<Seq<char>>
    decreases v, 0nat, n,
{
    match v {
        GraphQLValue::List(items) => if n == 0 || n > items@.len() {
            Seq::empty()
        } else {
            spec_literal_items(v, (n - 1) as nat, indent).push(spec_input_value_literal(items@[n - 1], indent))
        },
        _ => Seq::empty(),
    }
}

/// The entries of the first `n` entries of an object: the quoted key and the value's
/// literal, each on a line of its own indented by two more spaces when `multiline`.
pub open spec fn spec_literal_entries(v: GraphQLValue, n: nat, indent: nat, multiline: bool) -> Seq<Seq<char>>
    decreases v, 0nat, n,
{
    match v {
        GraphQLValue::Object(entries) => if n == 0 || n > entries@.len() {
            Seq::empty()
        } else {
            let rest = spec_literal_entries(v, (n - 1) as nat, indent, multiline);
            let (key, value) = entries@[n - 1];
            if multiline {
                rest.push(spaces(indent + 2) + "\""@ + key@ + "\": "@ + spec_input_value_literal(value, indent + 2))
            } else {
                rest.push("\""@ + key@ + "\": "@ + spec_input_value_literal(value, indent))
            }
        },
        _ => Seq::empty(),
    }
}

fn spaces_string(n: usize) -> (r: String)
    ensures
        r@ == spaces(n as nat),
{
    let mut r = String::new();
    let mut i: usize = 0;
    while i < n
        invariant
            i <= n,
            r@ == spaces(i as nat),
        decreases n - i,
    {
        crate::text::push_char(&mut r, ' ');
        proof {
            assert(r@ =~= spaces((i + 1) as nat));
        }
        i = i + 1;
    }
    r
}

/// Renders a value as a Swift literal, as `spec_input_value_literal` describes.
pub fn render_input_value_literal(value: &GraphQLValue, indent_level: usize) -> (r: String)
    requires
        indent_level + 2 * spec_object_depth(*value) <= usize::MAX,
    ensures
        r@ == spec_input_value_literal(*value, indent_level as nat),
    decreases value,
{
    match value {
        GraphQLValue::String(s) => {
            let mut r = String::from_str("\"");
            r.append(s.as_str());
            r.append("\"");
            r
        },
        GraphQLValue::Boolean(b) => if *b {
            String::from_str("true")
        } else {
            String::from_str("false")
        },
        GraphQLValue::Int(i) => i64_to_string(*i),
        GraphQLValue::Float(f) => String::from_str(f.as_str()),
        GraphQLValue::Enum(e) => {
            let mut r = String::from_str("\"");
            r.append(e.as_str());
            r.append("\"");
            r
        },
        GraphQLValue::Null => String::from_str(".null"),
        GraphQLValue::List(items) => {
            let mut rendered: Vec<String> = Vec::new();
            let mut i: usize = 0;
            while i < items.len()
                invariant
                    i <= items.len(),
                    *value == GraphQLValue::List(*items),
                    indent_level + 2 * spec_object_depth(*value) <= usize::MAX,
                    views(rendered@) == spec_literal_items(*value, i as nat, indent_level as nat),
                decreases items.len() - i,
            {
                proof {
                    assert(decreases_to!(*value => items@[i as int]));
                    lemma_items_depth_bound(*value, (i + 1) as nat, i as int);
                }
                let item = render_input_value_literal(&items[i], indent_level);
                push_part(&mut rendered, item);
                i = i + 1;
            }
            let joined = join_strings(&rendered, ", ");
            let mut r = String::from_str("[");
            r.append(joined.as_str());
            r.append("]");
            r
        },
        GraphQLValue::Object(entries) => {
            let multiline = entries.len() > 1;
            let entry_indent: usize = indent_level + 2;
            let mut rendered: Vec<String> = Vec::new();
            let mut i: usize = 0;
            while i < entries.len()
                invariant
                    i <= entries.len(),
                    *value == GraphQLValue::Object(*entries),
                    multiline == (entries@.len() > 1),
                    entry_indent == indent_level + 2,
                    indent_level + 2 * spec_object_depth(*value) <= usize::MAX,
                    views(rendered@) == spec_literal_entries(*value, i as nat, indent_level as nat, multiline),
                decreases entries.len() - i,
            {
                proof {
                    assert(decreases_to!(*value => entries@[i as int].1));
                    lemma_entries_depth_bound(*value, (i + 1) as nat, i as int);
                }
                let (key, item) = &entries[i];
                let mut entry = if multiline {
                    spaces_string(entry_indent)
                } else {
                    String::new()
                };
                entry.append("\"");
                entry.append(key.as_str());
                entry.append("\": ");
                let literal = if multiline {
                    render_input_value_literal(item, entry_indent)
                } else {
                    render_input_value_literal(item, indent_level)
                };
                entry.append(literal.as_str());
                push_part(&mut rendered, entry);
                i = i + 1;
            }
            if multiline {
                let joined = join_strings(&rendered, ",\n");
                let mut r = String::from_str("[\n");
                r.append(joined.as_str());
                r.append("\n");
                let closing = spaces_string(indent_level);
                r.append(closing.as_str());
                r.append("]");
                r
            } else {
                let joined = join_strings(&rendered, ", ");
                let mut r = String::from_str("[");
                r.append(joined.as_str());
                r.append("]");
                r
            }
        },
        GraphQLValue::Variable(name) => {
            let mut r = String::from_str(".variable(\"");
            r.append(name.as_str());
            r.append("\")");
            r
        },
    }
}

/// The depth of each of the first `n` items of a list is at most the list's depth.
pub proof fn lemma_items_depth_bound(v: GraphQLValue, n: nat, k: int)
    requires
        v is List,
        n <= v->List_0@.len(),
        0 <= k < n,
    ensures
        spec_object_depth(v->List_0@[k]) <= spec_items_depth(v, n),
        spec_items_depth(v, n) <= spec_object_depth(v),
    decreases n,
{
    if k < n - 1 {
        lemma_items_depth_bound(v, (n - 1) as nat, k);
    }
    lemma_items_depth_monotone(v, n);
}

/// The depth over the first `n` items grows with `n`.
pub proof fn lemma_items_depth_monotone(v: GraphQLValue, n: nat)
    requires
        v is List,
        n <= v->List_0@.len(),
    ensures
        spec_items_depth(v, n) <= spec_object_depth(v),
    decreases v->List_0@.len() - n,
{
    if n < v->List_0@.len() {
        lemma_items_depth_monotone(v, n + 1);
    }
}

/// The depth of the value of each of the first `n` entries of an object is less than the
/// object's depth.
pub proof fn lemma_entries_depth_bound(v: GraphQLValue, n: nat, k: int)
    requires
        v is Object,
        n <= v->Object_0@.len(),
        0 <= k < n,
    ensures
        spec_object_depth(v->Object_0@[k].1) <= spec_entries_depth(v, n),
        spec_entries_depth(v, n) < spec_object_depth(v),
    decreases n,
{
    if k < n - 1 {
        lemma_entries_depth_bound(v, (n - 1) as nat, k);
    }
    lemma_entries_depth_monotone(v, n);
}

/// The depth over the first `n` entries grows with `n`.
pub proof fn lemma_entries_depth_monotone(v: GraphQLValue, n: nat)
    requires
        v is Object,
        n <= v->Object_0@.len(),
    ensures
        spec_entries_depth(v, n) < spec_object_depth(v),
    decreases v->Object_0@.len() - n,
{
    if n < v->Object_0@.len() {
        lemma_entries_depth_monotone(v, n + 1);
    }
}

} // verus!
