//! The metadata of the deferred fragments of an operation: an identifier for each deferred
//! fragment and the selection set type that each identifier stands for.
use vstd::prelude::*;

use crate::graphql::{spec_operation_type_name, DeferCondition};
use crate::ir::{
    spec_entity_field_key, spec_selections_wf, spec_type_info_defer_condition, spec_type_info_wf, InlineFragmentSelections,
    NamedFragmentSelections, Operation, SelectionTree,
};
use crate::pluralizer::Pluralizer;
use crate::templates::rendering_helpers::selection_set_name_generator::{
    spec_generated_selection_set_name, NameFormat, SelectionSetNameGenerator,
};
use crate::templates::rendering_helpers::string_casing::{first_uppercased, spec_first_uppercased};
use crate::templates::rendering_helpers::string_swift_name_escaping::{as_fragment_name, spec_as_fragment_name};
use crate::templates::ConfigurationContext;
use crate::templates::rendering_helpers::ir_definition_rendering::{
    generated_definition_name, spec_generated_definition_name,
};
use crate::templates::rendering_helpers::template_blocks::{indent, spec_indent};
use crate::text::{concat, copy_str, copy_strings, join, join_strings, lemma_join_push, opt_view, push_part, str_eq, views};

verus! {

/// A deferred fragment: the response keys of the fields that lead to it, its `@defer`
/// condition, and the name of its selection set type.
pub struct DeferredPathTypeInfo {
    pub path: Vec<String>,
    pub defer_condition: DeferCondition,
    pub selection_set_type: String,
}

/// A deferred fragment as plain values: its path, the label and variable of its `@defer`
/// condition, and the name of its selection set type.
pub ghost struct DeferredPath {
    pub path: Seq<Seq<char>>,
    pub label: Seq<char>,
    pub variable: Option<Seq<char>>,
    pub selection_set_type: Seq<char>,
}

impl View for DeferredPathTypeInfo {
    type V = DeferredPath;

    open spec fn view(&self) -> DeferredPath {
        DeferredPath {
            path: views(self.path@),
            label: self.defer_condition.label@,
            variable: opt_view(self.defer_condition.variable),
            selection_set_type: self.selection_set_type@,
        }
    }
}

/// The deferred fragments as the metadata reads them.
pub open spec fn spec_paths(infos: Seq<DeferredPathTypeInfo>) -> Seq<DeferredPath> {
    infos.map_values(|i: DeferredPathTypeInfo| i@)
}

/// Whether two deferred fragments have the same path and the same label; such fragments
/// share one identifier.
pub open spec fn spec_same_key(a: DeferredPath, b: DeferredPath) -> bool {
    a.path == b.path && a.label == b.label
}

impl DeferredPathTypeInfo {
    /// The key that identifiers are shared by: the path and the label.
    pub fn path_defer_condition_key(&self) -> (r: (Vec<String>, String))
        ensures
            views(r.0@) == views(self.path@),
            r.1@ == self.defer_condition.label@,
    {
        (copy_strings(&self.path), copy_str(self.defer_condition.label.as_str()))
    }
}

/// Returns whether two deferred fragments have the same key.
fn same_key(a: &DeferredPathTypeInfo, b: &DeferredPathTypeInfo) -> (r: bool)
    ensures
        r == spec_same_key(a@, b@),
{
    if !str_eq(a.defer_condition.label.as_str(), b.defer_condition.label.as_str()) {
        return false;
    }
    if a.path.len() != b.path.len() {
        proof {
            assert(views(a.path@).len() != views(b.path@).len());
        }
        return false;
    }
    let mut i: usize = 0;
    while i < a.path.len()
        invariant
            i <= a.path@.len(),
            a.path@.len() == b.path@.len(),
            forall|j: int| 0 <= j < i ==> a.path@[j]@ == b.path@[j]@,
        decreases a.path.len() - i,
    {
        if !str_eq(a.path[i].as_str(), b.path[i].as_str()) {
            proof {
                assert(views(a.path@)[i as int] != views(b.path@)[i as int]);
            }
            return false;
        }
        i = i + 1;
    }
    proof {
        assert(views(a.path@) =~= views(b.path@));
    }
    true
}

/// The declaration of the identifier of a deferred fragment.
pub open spec fn spec_identifier_line(info: DeferredPath) -> Seq<char> {
    let label = info.label;
    "  static let "@ + label + " = DeferredFragmentIdentifier(label: \""@ + label + "\", fieldPath: ["@
        + join(info.path.map_values(|p: Seq<char>| "\""@ + p + "\""@), ", "@) + "])\n"@
}

/// The field path of an identifier is a Swift array literal of the quoted path elements,
/// separated by `, `: with no elements it reads `[]`, with one element `x` it reads
/// `["x"]`, and one more element `x` after a non-empty path inserts `, "x"` before the
/// closing bracket.
pub proof fn law_identifier_field_path_is_array_literal(info: DeferredPath, x: Seq<char>)
    ensures
        ({
            let empty = spec_identifier_line(DeferredPath { path: Seq::empty(), ..info });
            let one = spec_identifier_line(DeferredPath { path: seq![x], ..info });
            &&& empty.len() >= 3
            &&& empty.skip(empty.len() - 3) == "])\n"@
            &&& one == empty.take(empty.len() - 3) + "\""@ + x + "\""@ + "])\n"@
        }),
        info.path.len() > 0 ==> {
            let line = spec_identifier_line(info);
            let longer = spec_identifier_line(DeferredPath { path: info.path.push(x), ..info });
            &&& line.len() >= 3
            &&& line.skip(line.len() - 3) == "])\n"@
            &&& longer == line.take(line.len() - 3) + ", \""@ + x + "\""@ + "])\n"@
        },
{
    let quote = |p: Seq<char>| "\""@ + p + "\""@;
    let tail = "])\n"@;
    reveal_strlit("])\n");
    reveal_strlit(", \"");
    reveal_strlit(", ");
    reveal_strlit("\"");
    let e = DeferredPath { path: Seq::empty(), ..info };
    let o = DeferredPath { path: seq![x], ..info };
    assert(e.path.map_values(quote) =~= Seq::<Seq<char>>::empty());
    assert(o.path.map_values(quote) =~= Seq::<Seq<char>>::empty().push(quote(x)));
    lemma_join_push(Seq::<Seq<char>>::empty(), ", "@, quote(x));
    let empty = spec_identifier_line(e);
    let head = "  static let "@ + info.label + " = DeferredFragmentIdentifier(label: \""@ + info.label + "\", fieldPath: ["@;
    assert(empty =~= head + tail);
    assert(empty.take(empty.len() - 3) =~= head);
    assert(empty.skip(empty.len() - 3) =~= tail);
    assert(spec_identifier_line(o) =~= empty.take(empty.len() - 3) + "\""@ + x + "\""@ + tail);
    if info.path.len() > 0 {
        let l = DeferredPath { path: info.path.push(x), ..info };
        assert(l.path.map_values(quote) =~= info.path.map_values(quote).push(quote(x)));
        lemma_join_push(info.path.map_values(quote), ", "@, quote(x));
        let line = spec_identifier_line(info);
        let body = join(info.path.map_values(quote), ", "@);
        assert(line =~= head + body + tail);
        assert(line.take(line.len() - 3) =~= head + body);
        assert(line.skip(line.len() - 3) =~= tail);
        assert(spec_identifier_line(l) =~= head + (body + ", "@ + quote(x)) + tail);
        assert(spec_identifier_line(l) =~= line.take(line.len() - 3) + ", \""@ + x + "\""@ + tail);
    }
}

/// Whether an earlier deferred fragment than the one at `i` has the same key.
pub open spec fn spec_key_seen_before(infos: Seq<DeferredPath>, i: int) -> bool {
    exists|j: int| 0 <= j < i && spec_same_key(#[trigger] infos[j], infos[i])
}

/// The identifier declarations, one for each key, at the first fragment that has it.
pub open spec fn spec_identifier_lines(infos: Seq<DeferredPath>) -> Seq<char>
    decreases infos.len(),
{
    if infos.len() == 0 {
        Seq::empty()
    } else {
        spec_identifier_lines(infos.drop_last()) + if spec_key_seen_before(infos, infos.len() - 1) {
            Seq::empty()
        } else {
            spec_identifier_line(infos.last())
        }
    }
}

/// The enum of the identifiers of the deferred fragments.
pub open spec fn spec_deferred_fragment_identifiers(infos: Seq<DeferredPath>) -> Seq<char> {
    "enum DeferredFragmentIdentifiers {\n"@ + spec_identifier_lines(infos) + "}\n"@
}

/// The entry of a deferred fragment in the `deferredFragments` property.
pub open spec fn spec_property_line(info: DeferredPath) -> Seq<char> {
    "  DeferredFragmentIdentifiers."@ + info.label + ": "@ + info.selection_set_type + ".self,\n"@
}

/// The `deferredFragments` property: one entry per deferred fragment, in order.
pub open spec fn spec_deferred_fragments_property(infos: Seq<DeferredPath>) -> Seq<char> {
    "static var deferredFragments: [DeferredFragmentIdentifier: any ApolloAPI.SelectionSet.Type]? {[\n"@
        + concat(infos.map_values(|i: DeferredPath| spec_property_line(i))) + "]}\n"@
}

/// The metadata of the deferred fragments: nothing without deferred fragments; otherwise an
/// extension of the operation with the identifiers and the property, indented.
pub open spec fn spec_deferred_metadata(
    infos: Seq<DeferredPath>,
    definition_name: Seq<char>,
    access: Seq<char>,
) -> Seq<char> {
    if infos.len() == 0 {
        Seq::empty()
    } else {
        let inner = spec_deferred_fragment_identifiers(infos) + "\n"@ + spec_deferred_fragments_property(infos);
        "\n// MARK: Deferred Fragment Metadata\n\n"@ + access + "extension "@ + definition_name + " {\n"@
            + spec_indent(inner, 2) + "\n}"@
    }
}

/// Renders the identifier enum of the deferred fragments, as
/// `spec_deferred_fragment_identifiers` describes.
pub fn render_deferred_fragment_identifiers(infos: &[DeferredPathTypeInfo]) -> (r: String)
    ensures
        r@ == spec_deferred_fragment_identifiers(spec_paths(infos@)),
{
    let ghost all = spec_paths(infos@);
    let mut lines = String::new();
    let mut i: usize = 0;
    while i < infos.len()
        invariant
            i <= all.len(),
            all == spec_paths(infos@),
            lines@ == spec_identifier_lines(all.take(i as int)),
        decreases all.len() - i,
    {
        let mut seen = false;
        let mut j: usize = 0;
        while j < i
            invariant
                j <= i < all.len(),
                all == spec_paths(infos@),
                seen == exists|k: int| 0 <= k < j && spec_same_key(#[trigger] all[k], all[i as int]),
            decreases i - j,
        {
            proof {
                assert(all[j as int] == infos@[j as int]@);
                assert(all[i as int] == infos@[i as int]@);
            }
            if same_key(&infos[j], &infos[i]) {
                seen = true;
            }
            j = j + 1;
        }
        let ghost prefix = all.take(i + 1);
        proof {
            assert(prefix.drop_last() =~= all.take(i as int));
            assert(prefix.last() == all[i as int]);
            assert(seen == spec_key_seen_before(prefix, i as int)) by {
                if seen {
                    let k = choose|k: int| 0 <= k < i && spec_same_key(#[trigger] all[k], all[i as int]);
                    assert(prefix[k] == all[k]);
                }
                if spec_key_seen_before(prefix, i as int) {
                    let k = choose|k: int| 0 <= k < i && spec_same_key(#[trigger] prefix[k], prefix[i as int]);
                    assert(prefix[k] == all[k]);
                }
            }
        }
        if !seen {
            let info = &infos[i];
            assert(info@ == all[i as int]);
            let mut quoted: Vec<String> = Vec::new();
            let mut p: usize = 0;
            while p < info.path.len()
                invariant
                    p <= info.path@.len(),
                    views(quoted@) == views(info.path@).map_values(|s: Seq<char>| "\""@ + s + "\""@).take(p as int),
                    i < all.len(),
                    info@ == all[i as int],
                decreases info.path.len() - p,
            {
                let mut q = String::from_str("\"");
                q.append(info.path[p].as_str());
                q.append("\"");
                push_part(&mut quoted, q);
                proof {
                    assert(views(info.path@)[p as int] == info.path@[p as int]@);
                    assert(views(quoted@) =~= views(info.path@).map_values(|s: Seq<char>| "\""@ + s + "\""@).take(p + 1));
                }
                p = p + 1;
            }
            proof {
                assert(views(info.path@).map_values(|s: Seq<char>| "\""@ + s + "\""@).take(info.path@.len() as int)
                    =~= views(info.path@).map_values(|s: Seq<char>| "\""@ + s + "\""@));
            }
            lines.append("  static let ");
            lines.append(info.defer_condition.label.as_str());
            lines.append(" = DeferredFragmentIdentifier(label: \"");
            lines.append(info.defer_condition.label.as_str());
            lines.append("\", fieldPath: [");
            lines.append(join_strings(&quoted, ", ").as_str());
            lines.append("])\n");
        }
        i = i + 1;
    }
    proof {
        assert(all.take(all.len() as int) =~= all);
    }
    let mut r = String::from_str("enum DeferredFragmentIdentifiers {\n");
    r.append(lines.as_str());
    r.append("}\n");
    r
}

/// Renders the `deferredFragments` property, as `spec_deferred_fragments_property`
/// describes.
pub fn render_deferred_fragments_property(infos: &[DeferredPathTypeInfo]) -> (r: String)
    ensures
        r@ == spec_deferred_fragments_property(spec_paths(infos@)),
{
    let ghost entries = spec_paths(infos@).map_values(|i: DeferredPath| spec_property_line(i));
    let mut body = String::new();
    let mut i: usize = 0;
    while i < infos.len()
        invariant
            i <= infos@.len(),
            entries == spec_paths(infos@).map_values(|i: DeferredPath| spec_property_line(i)),
            body@ == concat(entries.take(i as int)),
        decreases infos.len() - i,
    {
        let mut line = String::from_str("  DeferredFragmentIdentifiers.");
        line.append(infos[i].defer_condition.label.as_str());
        line.append(": ");
        line.append(infos[i].selection_set_type.as_str());
        line.append(".self,\n");
        proof {
            assert(entries.take(i + 1) =~= entries.take(i as int).push(line@));
            lemma_join_push(entries.take(i as int), Seq::empty(), line@);
        }
        body.append(line.as_str());
        i = i + 1;
    }
    proof {
        assert(entries.take(infos@.len() as int) =~= entries);
    }
    let mut r = String::from_str("static var deferredFragments: [DeferredFragmentIdentifier: any ApolloAPI.SelectionSet.Type]? {[\n");
    r.append(body.as_str());
    r.append("]}\n");
    r
}

/// The deferred fragments found in direct selections reached by the given path: for each
/// entity field in order, those in its selections, with its response key added to the
/// path; then for each inline fragment in order, the fragment itself where it is deferred
/// (its type is `Data.` and its generated name below the root) followed by those in its
/// selections; then for each named fragment spread in order, the spread itself where it
/// is deferred (its type is the fragment's name) followed by those in the fragment's
/// selections.
pub open spec fn spec_deferred_paths(selections: Option<SelectionTree>, path: Seq<Seq<char>>, pluralizer: Pluralizer) -> Seq<DeferredPath>
    decreases selections, 1nat, 0nat,
{
    match selections {
        None => Seq::empty(),
        Some(t) => spec_entity_field_paths(t, path, pluralizer, t.entity_fields@.len())
            + spec_inline_fragment_paths(t, path, pluralizer, t.inline_fragments@.len())
            + spec_named_fragment_paths(t, path, pluralizer, t.named_fragments@.len()),
    }
}

/// The deferred fragments found under the first `n` entity fields of the selections.
pub open spec fn spec_entity_field_paths(t: SelectionTree, path: Seq<Seq<char>>, pluralizer: Pluralizer, n: nat) -> Seq<DeferredPath>
    decreases t, 0nat, n,
{
    if n == 0 || n > t.entity_fields@.len() {
        Seq::empty()
    } else {
        spec_entity_field_paths(t, path, pluralizer, (n - 1) as nat) + spec_deferred_paths(
            t.entity_fields@[n - 1].selections,
            path.push(spec_entity_field_key(t.entity_fields@[n - 1])),
            pluralizer,
        )
    }
}

/// The deferred fragment that an inline fragment is, where it is deferred.
pub open spec fn spec_inline_fragment_path(fragment: InlineFragmentSelections, path: Seq<Seq<char>>, pluralizer: Pluralizer) -> Seq<DeferredPath> {
    match spec_type_info_defer_condition(fragment.type_info) {
        Some(d) => seq![
            DeferredPath {
                path: path,
                label: d.label@,
                variable: opt_view(d.variable),
                selection_set_type: "Data."@ + spec_generated_selection_set_name(
                    fragment.type_info,
                    None,
                    NameFormat::OmittingRoot,
                    pluralizer,
                ),
            },
        ],
        None => Seq::empty(),
    }
}

/// The deferred fragments of and under the first `n` inline fragments of the selections.
pub open spec fn spec_inline_fragment_paths(t: SelectionTree, path: Seq<Seq<char>>, pluralizer: Pluralizer, n: nat) -> Seq<DeferredPath>
    decreases t, 0nat, n,
{
    if n == 0 || n > t.inline_fragments@.len() {
        Seq::empty()
    } else {
        spec_inline_fragment_paths(t, path, pluralizer, (n - 1) as nat) + spec_inline_fragment_path(
            t.inline_fragments@[n - 1],
            path,
            pluralizer,
        ) + spec_deferred_paths(t.inline_fragments@[n - 1].selections, path, pluralizer)
    }
}

/// The deferred fragment that a named fragment spread is, where it is deferred.
pub open spec fn spec_named_fragment_path(fragment: NamedFragmentSelections, path: Seq<Seq<char>>) -> Seq<DeferredPath> {
    match fragment.defer_condition {
        Some(d) => seq![
            DeferredPath {
                path: path,
                label: d.label@,
                variable: opt_view(d.variable),
                selection_set_type: spec_as_fragment_name(spec_first_uppercased(fragment.fragment_name@)),
            },
        ],
        None => Seq::empty(),
    }
}

/// The deferred fragments of and under the first `n` named fragment spreads of the
/// selections.
pub open spec fn spec_named_fragment_paths(t: SelectionTree, path: Seq<Seq<char>>, pluralizer: Pluralizer, n: nat) -> Seq<DeferredPath>
    decreases t, 0nat, n,
{
    if n == 0 || n > t.named_fragments@.len() {
        Seq::empty()
    } else {
        spec_named_fragment_paths(t, path, pluralizer, (n - 1) as nat) + spec_named_fragment_path(t.named_fragments@[n - 1], path)
            + spec_deferred_paths(t.named_fragments@[n - 1].selections, path, pluralizer)
    }
}

/// The deferred fragment metadata of an operation, rendered outside the operation's
/// declaration with the given access control.
pub struct DeferredFragmentsMetadataTemplate<'a> {
    pub operation: &'a Operation,
    pub config: &'a ConfigurationContext,
    pub render_access_control: String,
}

fn push_deferred(infos: &mut Vec<DeferredPathTypeInfo>, path: &Vec<String>, defer_condition: &DeferCondition, selection_set_type: String)
    ensures
        spec_paths(final(infos)@) == spec_paths(old(infos)@).push(
            DeferredPath {
                path: views(path@),
                label: defer_condition.label@,
                variable: opt_view(defer_condition.variable),
                selection_set_type: selection_set_type@,
            },
        ),
{
    let ghost before = spec_paths(infos@);
    infos.push(
        DeferredPathTypeInfo {
            path: copy_strings(path),
            defer_condition: DeferCondition {
                label: copy_str(defer_condition.label.as_str()),
                variable: match &defer_condition.variable {
                    Some(v) => Some(copy_str(v.as_str())),
                    None => None,
                },
            },
            selection_set_type,
        },
    );
    proof {
        assert(spec_paths(infos@) =~= before.push(infos@.last()@));
    }
}

fn append_deferred(infos: &mut Vec<DeferredPathTypeInfo>, more: Vec<DeferredPathTypeInfo>)
    ensures
        spec_paths(final(infos)@) == spec_paths(old(infos)@) + spec_paths(more@),
{
    let ghost a = infos@;
    let ghost b = more@;
    let mut more = more;
    infos.append(&mut more);
    proof {
        assert(spec_paths(infos@) =~= spec_paths(a) + spec_paths(b));
    }
}

impl<'a> DeferredFragmentsMetadataTemplate<'a> {
    /// Collects the deferred fragments found in the selections reached by `path`, as
    /// `spec_deferred_paths` describes, naming selection sets with the configuration's
    /// pluralizer.
    fn collect_deferred_paths(&self, selections: &Option<SelectionTree>, path: &Vec<String>) -> (r: Vec<DeferredPathTypeInfo>)
        requires
            spec_selections_wf(*selections),
        ensures
            spec_paths(r@) == spec_deferred_paths(*selections, views(path@), self.config.pluralizer),
        decreases *selections, 1nat, 0nat,
    {
        let t = match selections {
            Some(t) => t,
            None => return Vec::new(),
        };
        let ghost p = views(path@);
        let ghost pl = self.config.pluralizer;
        let mut infos: Vec<DeferredPathTypeInfo> = Vec::new();
        let mut i: usize = 0;
        while i < t.entity_fields.len()
            invariant
                i <= t.entity_fields@.len(),
                spec_selections_wf(*selections),
                *selections == Some(*t),
                p == views(path@),
                pl == self.config.pluralizer,
                spec_paths(infos@) == spec_entity_field_paths(*t, p, pl, i as nat),
            decreases t.entity_fields.len() - i,
        {
            let field = &t.entity_fields[i];
            let key = match &field.alias {
                Some(a) => a,
                None => &field.name,
            };
            let mut field_path = copy_strings(path);
            push_part(&mut field_path, copy_str(key.as_str()));
            proof {
                assert(spec_selections_wf(t.entity_fields@[i as int].selections));
                assert(views(field_path@) == p.push(spec_entity_field_key(t.entity_fields@[i as int])));
            }
            let found = self.collect_deferred_paths(&field.selections, &field_path);
            append_deferred(&mut infos, found);
            i = i + 1;
        }
        let ghost entity_part = spec_paths(infos@);
        let mut j: usize = 0;
        while j < t.inline_fragments.len()
            invariant
                j <= t.inline_fragments@.len(),
                spec_selections_wf(*selections),
                *selections == Some(*t),
                p == views(path@),
                pl == self.config.pluralizer,
                entity_part == spec_entity_field_paths(*t, p, pl, t.entity_fields@.len()),
                spec_paths(infos@) == entity_part + spec_inline_fragment_paths(*t, p, pl, j as nat),
            decreases t.inline_fragments.len() - j,
        {
            let fragment = &t.inline_fragments[j];
            proof {
                assert(spec_type_info_wf(t.inline_fragments@[j as int].type_info));
                assert(spec_selections_wf(t.inline_fragments@[j as int].selections));
            }
            let ghost before = spec_paths(infos@);
            if let Some(defer_condition) = fragment.type_info.defer_condition() {
                let name = SelectionSetNameGenerator::generated_selection_set_name(
                    &fragment.type_info,
                    None,
                    NameFormat::OmittingRoot,
                    &self.config.pluralizer,
                );
                let mut selection_set_type = String::from_str("Data.");
                selection_set_type.append(name.as_str());
                push_deferred(&mut infos, path, defer_condition, selection_set_type);
            }
            proof {
                assert(spec_paths(infos@) =~= before + spec_inline_fragment_path(t.inline_fragments@[j as int], p, pl));
            }
            let found = self.collect_deferred_paths(&fragment.selections, path);
            append_deferred(&mut infos, found);
            proof {
                assert(spec_paths(infos@) =~= entity_part + spec_inline_fragment_paths(*t, p, pl, (j + 1) as nat));
            }
            j = j + 1;
        }
        let ghost inline_part = spec_paths(infos@);
        let mut k: usize = 0;
        while k < t.named_fragments.len()
            invariant
                k <= t.named_fragments@.len(),
                spec_selections_wf(*selections),
                *selections == Some(*t),
                p == views(path@),
                pl == self.config.pluralizer,
                inline_part == spec_entity_field_paths(*t, p, pl, t.entity_fields@.len())
                    + spec_inline_fragment_paths(*t, p, pl, t.inline_fragments@.len()),
                spec_paths(infos@) == inline_part + spec_named_fragment_paths(*t, p, pl, k as nat),
            decreases t.named_fragments.len() - k,
        {
            let fragment = &t.named_fragments[k];
            proof {
                assert(spec_selections_wf(t.named_fragments@[k as int].selections));
            }
            let ghost before = spec_paths(infos@);
            if let Some(defer_condition) = &fragment.defer_condition {
                let name = as_fragment_name(first_uppercased(fragment.fragment_name.as_str()).as_str());
                push_deferred(&mut infos, path, defer_condition, name);
            }
            proof {
                assert(spec_paths(infos@) =~= before + spec_named_fragment_path(t.named_fragments@[k as int], p));
            }
            let found = self.collect_deferred_paths(&fragment.selections, path);
            append_deferred(&mut infos, found);
            proof {
                assert(spec_paths(infos@) =~= inline_part + spec_named_fragment_paths(*t, p, pl, (k + 1) as nat));
            }
            k = k + 1;
        }
        infos
    }

    /// Renders the metadata, as `spec_deferred_metadata` describes for the deferred
    /// fragments found in the operation's root selections and its definition name.
    pub fn render(&self) -> (r: String)
        requires
            spec_selections_wf(self.operation.root_selections),
        ensures
            r@ == spec_deferred_metadata(
                spec_deferred_paths(self.operation.root_selections, Seq::empty(), self.config.pluralizer),
                spec_generated_definition_name(
                    self.operation.definition.name@,
                    spec_operation_type_name(self.operation.definition.operation_type),
                    self.operation.definition.is_local_cache_mutation,
                ),
                self.render_access_control@,
            ),
    {
        let root_path: Vec<String> = Vec::new();
        proof {
            assert(views(root_path@) =~= Seq::<Seq<char>>::empty());
        }
        let path_type_info = self.collect_deferred_paths(&self.operation.root_selections, &root_path);
        let infos = path_type_info.as_slice();
        if infos.len() == 0 {
            return String::new();
        }
        let definition = &self.operation.definition;
        let definition_name = generated_definition_name(
            definition.name.as_str(),
            definition.operation_type.display_name(),
            definition.is_local_cache_mutation,
        );
        let mut inner = render_deferred_fragment_identifiers(infos);
        inner.append("\n");
        inner.append(render_deferred_fragments_property(infos).as_str());
        let mut r = String::from_str("\n// MARK: Deferred Fragment Metadata\n\n");
        r.append(self.render_access_control.as_str());
        r.append("extension ");
        r.append(definition_name.as_str());
        r.append(" {\n");
        r.append(indent(inner.as_str(), 2).as_str());
        r.append("\n}");
        r
    }
}

/// Adding a deferred fragment whose path and label an earlier one already has adds no
/// identifier.
pub proof fn law_repeated_key_adds_no_identifier(infos: Seq<DeferredPath>, info: DeferredPath)
    requires
        exists|j: int| 0 <= j < infos.len() && spec_same_key(#[trigger] infos[j], info),
    ensures
        spec_deferred_fragment_identifiers(infos.push(info)) == spec_deferred_fragment_identifiers(infos),
{
    let all = infos.push(info);
    assert(all.drop_last() =~= infos);
    let j = choose|j: int| 0 <= j < infos.len() && spec_same_key(#[trigger] infos[j], info);
    assert(all[j] == infos[j]);
    assert(spec_key_seen_before(all, all.len() - 1));
    assert(spec_identifier_lines(all) =~= spec_identifier_lines(infos));
}

/// Adding a deferred fragment with a new path or label adds its identifier after the
/// others.
pub proof fn law_new_key_adds_identifier(infos: Seq<DeferredPath>, info: DeferredPath)
    requires
        forall|j: int| 0 <= j < infos.len() ==> !spec_same_key(#[trigger] infos[j], info),
    ensures
        spec_identifier_lines(infos.push(info)) == spec_identifier_lines(infos) + spec_identifier_line(info),
{
    let all = infos.push(info);
    assert(all.drop_last() =~= infos);
    assert(!spec_key_seen_before(all, all.len() - 1)) by {
        if spec_key_seen_before(all, all.len() - 1) {
            let k = choose|k: int| 0 <= k < all.len() - 1 && spec_same_key(#[trigger] all[k], all[all.len() - 1]);
            assert(all[k] == infos[k]);
        }
    }
}

/// Whether every deferred fragment's path starts with `prefix`.
pub open spec fn spec_all_under(paths: Seq<DeferredPath>, prefix: Seq<Seq<char>>) -> bool {
    forall|i: int| 0 <= i < paths.len() ==> #[trigger] paths[i].path.len() >= prefix.len()
        && paths[i].path.subrange(0, prefix.len() as int) == prefix
}

proof fn lemma_all_under_concat(a: Seq<DeferredPath>, b: Seq<DeferredPath>, prefix: Seq<Seq<char>>)
    requires
        spec_all_under(a, prefix),
        spec_all_under(b, prefix),
    ensures
        spec_all_under(a + b, prefix),
{
    assert forall|i: int| 0 <= i < (a + b).len() implies #[trigger] (a + b)[i].path.len() >= prefix.len()
        && (a + b)[i].path.subrange(0, prefix.len() as int) == prefix by {
        if i < a.len() {
            assert((a + b)[i] == a[i]);
        } else {
            assert((a + b)[i] == b[i - a.len()]);
        }
    }
}

proof fn lemma_all_under_shorter(paths: Seq<DeferredPath>, prefix: Seq<Seq<char>>, key: Seq<char>)
    requires
        spec_all_under(paths, prefix.push(key)),
    ensures
        spec_all_under(paths, prefix),
{
    assert forall|i: int| 0 <= i < paths.len() implies #[trigger] paths[i].path.len() >= prefix.len()
        && paths[i].path.subrange(0, prefix.len() as int) == prefix by {
        let p = paths[i].path;
        assert(p.subrange(0, prefix.len() + 1int) == prefix.push(key));
        assert(p.subrange(0, prefix.len() as int) =~= p.subrange(0, prefix.len() + 1int).subrange(0, prefix.len() as int));
        assert(prefix.push(key).subrange(0, prefix.len() as int) =~= prefix);
    }
}

/// The path of every deferred fragment found in selections starts with the path that
/// reaches the selections.
pub proof fn law_deferred_paths_start_with_the_path(selections: Option<SelectionTree>, path: Seq<Seq<char>>, pluralizer: Pluralizer)
    ensures
        spec_all_under(spec_deferred_paths(selections, path, pluralizer), path),
    decreases selections, 1nat, 0nat,
{
    match selections {
        None => {},
        Some(t) => {
            lemma_entity_field_paths_under(t, path, pluralizer, t.entity_fields@.len());
            lemma_inline_fragment_paths_under(t, path, pluralizer, t.inline_fragments@.len());
            lemma_named_fragment_paths_under(t, path, pluralizer, t.named_fragments@.len());
            lemma_all_under_concat(
                spec_entity_field_paths(t, path, pluralizer, t.entity_fields@.len()),
                spec_inline_fragment_paths(t, path, pluralizer, t.inline_fragments@.len()),
                path,
            );
            lemma_all_under_concat(
                spec_entity_field_paths(t, path, pluralizer, t.entity_fields@.len())
                    + spec_inline_fragment_paths(t, path, pluralizer, t.inline_fragments@.len()),
                spec_named_fragment_paths(t, path, pluralizer, t.named_fragments@.len()),
                path,
            );
        },
    }
}

proof fn lemma_entity_field_paths_under(t: SelectionTree, path: Seq<Seq<char>>, pluralizer: Pluralizer, n: nat)
    ensures
        spec_all_under(spec_entity_field_paths(t, path, pluralizer, n), path),
    decreases t, 0nat, n,
{
    if n == 0 || n > t.entity_fields@.len() {
    } else {
        let f = t.entity_fields@[n - 1];
        let key = spec_entity_field_key(f);
        lemma_entity_field_paths_under(t, path, pluralizer, (n - 1) as nat);
        law_deferred_paths_start_with_the_path(f.selections, path.push(key), pluralizer);
        lemma_all_under_shorter(spec_deferred_paths(f.selections, path.push(key), pluralizer), path, key);
        lemma_all_under_concat(
            spec_entity_field_paths(t, path, pluralizer, (n - 1) as nat),
            spec_deferred_paths(f.selections, path.push(key), pluralizer),
            path,
        );
    }
}

proof fn lemma_inline_fragment_paths_under(t: SelectionTree, path: Seq<Seq<char>>, pluralizer: Pluralizer, n: nat)
    ensures
        spec_all_under(spec_inline_fragment_paths(t, path, pluralizer, n), path),
    decreases t, 0nat, n,
{
    if n == 0 || n > t.inline_fragments@.len() {
    } else {
        let f = t.inline_fragments@[n - 1];
        lemma_inline_fragment_paths_under(t, path, pluralizer, (n - 1) as nat);
        law_deferred_paths_start_with_the_path(f.selections, path, pluralizer);
        assert(spec_all_under(spec_inline_fragment_path(f, path, pluralizer), path)) by {
            assert(path.subrange(0, path.len() as int) =~= path);
        }
        lemma_all_under_concat(
            spec_inline_fragment_paths(t, path, pluralizer, (n - 1) as nat),
            spec_inline_fragment_path(f, path, pluralizer),
            path,
        );
        lemma_all_under_concat(
            spec_inline_fragment_paths(t, path, pluralizer, (n - 1) as nat) + spec_inline_fragment_path(f, path, pluralizer),
            spec_deferred_paths(f.selections, path, pluralizer),
            path,
        );
    }
}

proof fn lemma_named_fragment_paths_under(t: SelectionTree, path: Seq<Seq<char>>, pluralizer: Pluralizer, n: nat)
    ensures
        spec_all_under(spec_named_fragment_paths(t, path, pluralizer, n), path),
    decreases t, 0nat, n,
{
    if n == 0 || n > t.named_fragments@.len() {
    } else {
        let f = t.named_fragments@[n - 1];
        lemma_named_fragment_paths_under(t, path, pluralizer, (n - 1) as nat);
        law_deferred_paths_start_with_the_path(f.selections, path, pluralizer);
        assert(spec_all_under(spec_named_fragment_path(f, path), path)) by {
            assert(path.subrange(0, path.len() as int) =~= path);
        }
        lemma_all_under_concat(
            spec_named_fragment_paths(t, path, pluralizer, (n - 1) as nat),
            spec_named_fragment_path(f, path),
            path,
        );
        lemma_all_under_concat(
            spec_named_fragment_paths(t, path, pluralizer, (n - 1) as nat) + spec_named_fragment_path(f, path),
            spec_deferred_paths(f.selections, path, pluralizer),
            path,
        );
    }
}

} // verus!
