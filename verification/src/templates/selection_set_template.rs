//! Parts of generated selection sets: the variable conditions under which selections are
//! included, the `__selections` metadata of the direct selections with the arguments of
//! fields, and the declarations that every selection set holds.
use vstd::prelude::*;

use crate::config::{Composition, FieldMerging};
use crate::graphql::{Argument, DeferCondition, GraphQLCompositeType, GraphQLName};
use crate::ir::{
    same_inclusion_conditions, same_scope_descriptor, spec_same_inclusion_conditions, spec_same_scope_descriptor,
    spec_node_scope_condition, spec_same_type_condition, spec_scope, spec_type_info_wf, AnyOf, ComputedSelectionSet, DirectSelections, Field,
    FragmentDefinition, GroupedByInclusionCondition, InclusionCondition, InclusionConditionGroup,
    InclusionConditions, MergedSource, MergingStrategy, NamedFragmentSpread, ScopeCondition, ScopeDescriptor, SelectionSetNode,
    TypeInfo,
};
use crate::pluralizer::Pluralizer;
use crate::templates::selection_set_accessors::{
    field_accessors_template, fragment_accessors_template, initializer_template, inline_fragment_accessor_template,
    spec_field_accessors, spec_fragment_accessors, spec_initializer, spec_inline_fragment_accessor,
    spec_inline_fragment_accessor_list,
};
use crate::templates::rendering_helpers::template_blocks::{indent, spec_indent};
use crate::templates::rendering_helpers::composite_type_namespace::{schema_types_namespace, spec_schema_types_namespace};
use crate::templates::rendering_helpers::field_argument_rendering::{
    render_input_value_literal, spec_input_value_literal, spec_object_depth,
};
use crate::templates::rendering_helpers::graphql_type_rendered::{rendered, spec_rendered, TypeRenderContext};
use crate::templates::rendering_helpers::selection_set_name_generator::{
    defer_condition_rendered_type_name, render_composite_type_name, selection_set_name_component,
    compute_generated_selection_set_name, spec_composite_type_name, spec_computed_selection_set_name,
    spec_condition_path, spec_defer_condition_rendered_type_name, spec_field_path,
    spec_generated_selection_set_name, spec_name_from_nodes, spec_selection_set_name_component, NameFormat,
    SelectionSetNameGenerator,
};
use crate::templates::rendering_helpers::ir_definition_rendering::generated_fragment_definition_name;
use crate::templates::rendering_helpers::string_casing::{first_uppercased, spec_first_lowercased, spec_first_uppercased};
use crate::templates::ConfigurationContext;
use crate::templates::rendering_helpers::string_swift_name_escaping::{as_fragment_name, spec_as_fragment_name};
use crate::templates::rendering_helpers::template_constants::APOLLO_API_TARGET_NAME;
use crate::templates::rendering_helpers::template_string_deprecation::{
    render_field_argument_warning, spec_field_argument_warning,
};
use crate::text::{concat, copy_str, join, join_strings, lemma_join_push, opt_view, push_part, str_eq, views};

verus! {

/// The expression of an inclusion condition: the variable name in quotes, negated with `!`
/// when the condition is inverted.
pub open spec fn spec_condition_variable_expression_single(c: InclusionCondition) -> Seq<char> {
    (if c.is_inverted {
        "!"@
    } else {
        Seq::empty()
    }) + "\""@ + c.variable@ + "\""@
}

/// Renders the expression of an inclusion condition, as
/// `spec_condition_variable_expression_single` describes.
pub fn condition_variable_expression_single(condition: &InclusionCondition) -> (r: String)
    ensures
        r@ == spec_condition_variable_expression_single(*condition),
{
    let mut r = if condition.is_inverted {
        String::from_str("!")
    } else {
        String::new()
    };
    r.append("\"");
    r.append(condition.variable.as_str());
    r.append("\"");
    r
}

/// The expressions of the conditions, in order.
pub open spec fn spec_single_expressions(cs: Seq<InclusionCondition>) -> Seq<Seq<char>> {
    cs.map_values(|c: InclusionCondition| spec_condition_variable_expression_single(c))
}

/// The expression of conditions that must all hold: their expressions joined with `&&`,
/// in parentheses when asked for and there is more than one condition.
pub open spec fn spec_conditions_variable_expression(cs: Seq<InclusionCondition>, wrap_in_parens_if_multiple: bool) -> Seq<char> {
    let joined = join(spec_single_expressions(cs), " && "@);
    if wrap_in_parens_if_multiple && cs.len() > 1 {
        "("@ + joined + ")"@
    } else {
        joined
    }
}

/// Renders the expression of conditions that must all hold, as
/// `spec_conditions_variable_expression` describes.
pub fn conditions_variable_expression(conditions: &InclusionConditions, wrap_in_parens_if_multiple: bool) -> (r: String)
    ensures
        r@ == spec_conditions_variable_expression(conditions.conditions@, wrap_in_parens_if_multiple),
{
    let ghost cs = conditions.conditions@;
    let mut parts: Vec<String> = Vec::new();
    let mut i: usize = 0;
    while i < conditions.conditions.len()
        invariant
            i <= cs.len(),
            cs == conditions.conditions@,
            views(parts@) == spec_single_expressions(cs.take(i as int)),
        decreases cs.len() - i,
    {
        push_part(&mut parts, condition_variable_expression_single(&conditions.conditions[i]));
        proof {
            assert(cs.take(i + 1) =~= cs.take(i as int).push(cs[i as int]));
            assert(views(parts@) =~= spec_single_expressions(cs.take(i + 1)));
        }
        i = i + 1;
    }
    proof {
        assert(cs.take(cs.len() as int) =~= cs);
    }
    let joined = join_strings(&parts, " && ");
    if wrap_in_parens_if_multiple && conditions.len() > 1 {
        let mut r = String::from_str("(");
        r.append(joined.as_str());
        r.append(")");
        r
    } else {
        joined
    }
}

/// The expressions of the alternatives, each parenthesized where it has several conditions
/// and there are several alternatives.
pub open spec fn spec_alternative_expressions(alternatives: Seq<InclusionConditions>) -> Seq<Seq<char>> {
    alternatives.map_values(
        |a: InclusionConditions| spec_conditions_variable_expression(a.conditions@, alternatives.len() > 1),
    )
}

/// The expression of alternatives of which one must hold: their expressions joined with
/// `||`.
pub open spec fn spec_condition_variable_expression(alternatives: Seq<InclusionConditions>) -> Seq<char> {
    join(spec_alternative_expressions(alternatives), " || "@)
}

/// Renders the expression of alternative conditions, as
/// `spec_condition_variable_expression` describes.
pub fn condition_variable_expression(any_of: &AnyOf<InclusionConditions>) -> (r: String)
    ensures
        r@ == spec_condition_variable_expression(any_of.elements@),
{
    let ghost alts = any_of.elements@;
    let several = any_of.elements.len() > 1;
    let mut parts: Vec<String> = Vec::new();
    let mut i: usize = 0;
    while i < any_of.elements.len()
        invariant
            i <= alts.len(),
            alts == any_of.elements@,
            several == (alts.len() > 1),
            views(parts@) == spec_alternative_expressions(alts).take(i as int),
        decreases alts.len() - i,
    {
        push_part(&mut parts, conditions_variable_expression(&any_of.elements[i], several));
        proof {
            assert(views(parts@) =~= spec_alternative_expressions(alts).take(i + 1));
        }
        i = i + 1;
    }
    proof {
        assert(spec_alternative_expressions(alts).take(alts.len() as int) =~= spec_alternative_expressions(alts));
    }
    join_strings(&parts, " || ")
}

/// Returns whether any of the scope conditions that inline fragments are keyed by is a
/// deferred fragment.
pub fn contains_deferred_inline_fragment(scope_conditions: &[ScopeCondition]) -> (r: bool)
    ensures
        r == exists|i: int| 0 <= i < scope_conditions@.len() && (#[trigger] scope_conditions@[i]).defer_condition.is_some(),
{
    let mut i: usize = 0;
    while i < scope_conditions.len()
        invariant
            i <= scope_conditions@.len(),
            forall|j: int| 0 <= j < i ==> (#[trigger] scope_conditions@[j]).defer_condition.is_none(),
        decreases scope_conditions.len() - i,
    {
        if scope_conditions[i].is_deferred() {
            return true;
        }
        i = i + 1;
    }
    false
}

/// Returns whether any of the named fragment spreads is deferred.
pub fn contains_deferred_named_fragment(spreads: &[NamedFragmentSpread]) -> (r: bool)
    ensures
        r == exists|i: int| 0 <= i < spreads@.len() && (#[trigger] spreads@[i]).defer_condition.is_some(),
{
    let mut i: usize = 0;
    while i < spreads.len()
        invariant
            i <= spreads@.len(),
            forall|j: int| 0 <= j < i ==> (#[trigger] spreads@[j]).defer_condition.is_none(),
        decreases spreads.len() - i,
    {
        if spreads[i].defer_condition.is_some() {
            return true;
        }
        i = i + 1;
    }
    false
}

/// A deprecated argument given to a field: the field's name, the argument's name and the
/// reason of the deprecation.
pub struct DeprecatedArgument {
    pub field: String,
    pub arg: String,
    pub reason: String,
}

/// The names and reason of deprecated arguments, as characters.
pub open spec fn spec_deprecated_views(d: Seq<DeprecatedArgument>) -> Seq<(Seq<char>, Seq<char>, Seq<char>)> {
    d.map_values(|a: DeprecatedArgument| (a.field@, a.arg@, a.reason@))
}

/// The deprecated arguments among `args` given to the field `field_name`, in order.
pub open spec fn spec_deprecated_of(args: Seq<Argument>, field_name: Seq<char>) -> Seq<(Seq<char>, Seq<char>, Seq<char>)>
    decreases args.len(),
{
    if args.len() == 0 {
        Seq::empty()
    } else {
        spec_deprecated_of(args.drop_last(), field_name) + match args.last().deprecation_reason {
            Some(r) => seq![(field_name, args.last().name@, r@)],
            None => Seq::empty(),
        }
    }
}

/// The indentation of the values of arguments: deeper when the arguments stand on lines of
/// their own.
pub open spec fn spec_argument_value_indent(n: nat) -> nat {
    if n <= 1 {
        2
    } else {
        4
    }
}

/// An argument as an entry of the arguments dictionary.
pub open spec fn spec_argument_item(a: Argument, indent: nat) -> Seq<char> {
    "\""@ + a.name@ + "\": "@ + spec_input_value_literal(a.value, indent)
}

/// The entries of the arguments dictionary, in order.
pub open spec fn spec_argument_items(args: Seq<Argument>) -> Seq<Seq<char>> {
    args.map_values(|a: Argument| spec_argument_item(a, spec_argument_value_indent(args.len())))
}

/// The arguments dictionary of a field: on one line when there is at most one argument,
/// otherwise each argument on a line of its own.
pub open spec fn spec_render_arguments(args: Seq<Argument>) -> Seq<char> {
    if args.len() <= 1 {
        "["@ + join(spec_argument_items(args), ", "@) + "]"@
    } else {
        "[\n    "@ + join(spec_argument_items(args), ",\n    "@) + "\n  ]"@
    }
}

/// Whether every argument value is shallow enough to be written with the deepest
/// indentation that an argument list uses.
pub open spec fn spec_arguments_writable(args: Seq<Argument>) -> bool {
    forall|i: int| 0 <= i < args.len() ==> 4 + 2 * spec_object_depth(#[trigger] args[i].value) <= usize::MAX
}

/// Renders the arguments dictionary of the field `field_name`, as `spec_render_arguments`
/// describes; when `track_deprecated` holds, the deprecated arguments are added to
/// `deprecated_args`, in order.
pub fn render_arguments(
    arguments: &[Argument],
    field_name: &str,
    deprecated_args: &mut Vec<DeprecatedArgument>,
    track_deprecated: bool,
) -> (r: String)
    requires
        spec_arguments_writable(arguments@),
    ensures
        r@ == spec_render_arguments(arguments@),
        spec_deprecated_views(final(deprecated_args)@) == spec_deprecated_views(old(deprecated_args)@) + if track_deprecated {
            spec_deprecated_of(arguments@, field_name@)
        } else {
            Seq::empty()
        },
{
    let ghost args = arguments@;
    let ghost before = spec_deprecated_views(deprecated_args@);
    let value_indent: usize = if arguments.len() <= 1 {
        2
    } else {
        4
    };
    let mut items: Vec<String> = Vec::new();
    let mut i: usize = 0;
    while i < arguments.len()
        invariant
            i <= args.len(),
            args == arguments@,
            value_indent == spec_argument_value_indent(args.len()),
            spec_arguments_writable(args),
            views(items@) == spec_argument_items(args).take(i as int),
            spec_deprecated_views(deprecated_args@) == before + if track_deprecated {
                spec_deprecated_of(args.take(i as int), field_name@)
            } else {
                Seq::empty()
            },
        decreases args.len() - i,
    {
        let arg = &arguments[i];
        proof {
            assert(args.take(i + 1).drop_last() =~= args.take(i as int));
            assert(args.take(i + 1).last() == args[i as int]);
            assert(4 + 2 * spec_object_depth(args[i as int].value) <= usize::MAX);
        }
        if track_deprecated {
            if let Some(reason) = &arg.deprecation_reason {
                let ghost d_before = deprecated_args@;
                deprecated_args.push(DeprecatedArgument {
                    field: copy_str(field_name),
                    arg: copy_str(arg.name.as_str()),
                    reason: copy_str(reason.as_str()),
                });
                proof {
                    assert(spec_deprecated_views(deprecated_args@) =~= spec_deprecated_views(d_before).push(
                        (field_name@, arg.name@, reason@),
                    ));
                }
            }
        }
        let mut item = String::from_str("\"");
        item.append(arg.name.as_str());
        item.append("\": ");
        item.append(render_input_value_literal(&arg.value, value_indent).as_str());
        push_part(&mut items, item);
        proof {
            assert(views(items@) =~= spec_argument_items(args).take(i + 1));
        }
        i = i + 1;
    }
    proof {
        assert(args.take(args.len() as int) =~= args);
        assert(spec_argument_items(args).take(args.len() as int) =~= spec_argument_items(args));
    }
    if items.len() <= 1 {
        let mut r = String::from_str("[");
        r.append(join_strings(&items, ", ").as_str());
        r.append("]");
        r
    } else {
        let mut r = String::from_str("[\n    ");
        r.append(join_strings(&items, ",\n    ").as_str());
        r.append("\n  ]");
        r
    }
}

/// The Swift type of the value of a field in a selection set: the field's type, named by
/// its selection set for a field of a composite type.
pub open spec fn spec_field_type_name(f: Field, config: ConfigurationContext) -> Seq<char> {
    spec_rendered(f.type_, TypeRenderContext::SelectionSetField { force_non_null: false }, match f.selection_set {
        Some(t) => Some(spec_computed_selection_set_name(t, config.pluralizer)),
        None => None,
    }, config.config)
}

/// The selection of a field: its name, its alias, its type and its arguments, where it has
/// them.
pub open spec fn spec_field_selection(f: Field, config: ConfigurationContext) -> Seq<char> {
    ".field(\""@ + f.name@ + "\""@ + match f.alias {
        Some(a) => ", alias: \""@ + a@ + "\""@,
        None => Seq::empty(),
    } + ", "@ + spec_field_type_name(f, config) + ".self"@ + (if f.arguments@.len() > 0 {
        ", arguments: "@ + spec_render_arguments(f.arguments@)
    } else {
        Seq::empty()
    }) + ")"@
}

/// Renders the selection of a field, as `spec_field_selection` describes, collecting its
/// deprecated arguments when `track_deprecated` holds.
pub fn field_selection_template(
    field: &Field,
    config: &ConfigurationContext,
    deprecated_args: &mut Vec<DeprecatedArgument>,
    track_deprecated: bool,
) -> (r: String)
    requires
        spec_arguments_writable(field.arguments@),
    ensures
        r@ == spec_field_selection(*field, *config),
        spec_deprecated_views(final(deprecated_args)@) == spec_deprecated_views(old(deprecated_args)@) + if track_deprecated {
            spec_deprecated_of(field.arguments@, field.name@)
        } else {
            Seq::empty()
        },
{
    let mut r = String::from_str(".field(\"");
    r.append(field.name.as_str());
    r.append("\"");
    if let Some(alias) = &field.alias {
        r.append(", alias: \"");
        r.append(alias.as_str());
        r.append("\"");
    }
    r.append(", ");
    let context = TypeRenderContext::SelectionSetField { force_non_null: false };
    let swift_type = match &field.selection_set {
        Some(t) => {
            let name = compute_generated_selection_set_name(t, &config.pluralizer);
            rendered(&field.type_, &context, Some(name.as_str()), &config.config)
        },
        None => rendered(&field.type_, &context, None, &config.config),
    };
    r.append(swift_type.as_str());
    r.append(".self");
    if field.arguments.len() > 0 {
        r.append(", arguments: ");
        r.append(render_arguments(field.arguments.as_slice(), field.name.as_str(), deprecated_args, track_deprecated).as_str());
    } else {
        proof {
            assert(spec_deprecated_of(field.arguments@, field.name@) =~= Seq::empty());
        }
    }
    r.append(")");
    r
}

/// The selection of a deferred fragment: the variable that switches it, if any, its type
/// and its label.
pub open spec fn spec_deferred_selection(d: DeferCondition, swift_type: Seq<char>) -> Seq<char> {
    ".deferred("@ + match d.variable {
        Some(v) => "if: \""@ + v@ + "\", "@,
        None => Seq::empty(),
    } + swift_type + ".self, label: \""@ + d.label@ + "\")"@
}

fn deferred_selection_template(defer_condition: &DeferCondition, swift_type: &str) -> (r: String)
    ensures
        r@ == spec_deferred_selection(*defer_condition, swift_type@),
{
    let mut r = String::from_str(".deferred(");
    if let Some(v) = &defer_condition.variable {
        r.append("if: \"");
        r.append(v.as_str());
        r.append("\", ");
    }
    r.append(swift_type);
    r.append(".self, label: \"");
    r.append(defer_condition.label.as_str());
    r.append("\")");
    r
}

/// The selection of an inline fragment, given by the last condition of its scope: deferred
/// when the condition is, otherwise the fragment's type.
pub open spec fn spec_inline_fragment_selection(c: ScopeCondition) -> Seq<char> {
    match c.defer_condition {
        Some(d) => spec_deferred_selection(d, spec_defer_condition_rendered_type_name(d.label@)),
        None => ".inlineFragment("@ + spec_selection_set_name_component(c) + ".self)"@,
    }
}

/// Renders the selection of an inline fragment, as `spec_inline_fragment_selection`
/// describes.
pub fn inline_fragment_selection_template(scope_condition: &ScopeCondition) -> (r: String)
    ensures
        r@ == spec_inline_fragment_selection(*scope_condition),
{
    match &scope_condition.defer_condition {
        Some(d) => deferred_selection_template(d, defer_condition_rendered_type_name(d).as_str()),
        None => {
            let mut r = String::from_str(".inlineFragment(");
            r.append(selection_set_name_component(scope_condition).as_str());
            r.append(".self)");
            r
        },
    }
}

/// The selection of a named fragment spread: deferred when the spread is, otherwise the
/// fragment's type.
pub open spec fn spec_fragment_selection(f: NamedFragmentSpread) -> Seq<char> {
    match f.defer_condition {
        Some(d) => spec_deferred_selection(d, spec_as_fragment_name(f.fragment_name@)),
        None => ".fragment("@ + spec_as_fragment_name(f.fragment_name@) + ".self)"@,
    }
}

/// Renders the selection of a named fragment spread, as `spec_fragment_selection`
/// describes.
pub fn fragment_selection_template(fragment: &NamedFragmentSpread) -> (r: String)
    ensures
        r@ == spec_fragment_selection(*fragment),
{
    let name = as_fragment_name(fragment.fragment_name.as_str());
    match &fragment.defer_condition {
        Some(d) => deferred_selection_template(d, name.as_str()),
        None => {
            let mut r = String::from_str(".fragment(");
            r.append(name.as_str());
            r.append(".self)");
            r
        },
    }
}

/// Whether every field's argument values can be written.
pub open spec fn spec_selections_writable(s: DirectSelections) -> bool {
    forall|i: int| 0 <= i < s.fields@.len() ==> spec_arguments_writable(#[trigger] s.fields@[i].arguments@)
}

/// The selections of direct selections: the fields, then the inline fragments, then the
/// named fragments, each in order.
pub open spec fn spec_rendered_selections(s: DirectSelections, config: ConfigurationContext) -> Seq<Seq<char>> {
    s.fields@.map_values(|f: Field| spec_field_selection(f, config))
        + s.inline_fragments@.map_values(|c: ScopeCondition| spec_inline_fragment_selection(c))
        + s.named_fragments@.map_values(|f: NamedFragmentSpread| spec_fragment_selection(f))
}

/// The deprecated arguments of the fields of direct selections, field by field.
pub open spec fn spec_fields_deprecated(fields: Seq<Field>) -> Seq<(Seq<char>, Seq<char>, Seq<char>)>
    decreases fields.len(),
{
    if fields.len() == 0 {
        Seq::empty()
    } else {
        spec_fields_deprecated(fields.drop_last()) + spec_deprecated_of(fields.last().arguments@, fields.last().name@)
    }
}

/// Renders the selections of direct selections, as `spec_rendered_selections` describes,
/// collecting the deprecated arguments of their fields when `track_deprecated` holds.
pub fn rendered_selections(
    selections: &DirectSelections,
    config: &ConfigurationContext,
    deprecated_args: &mut Vec<DeprecatedArgument>,
    track_deprecated: bool,
) -> (r: Vec<String>)
    requires
        spec_selections_writable(*selections),
    ensures
        views(r@) == spec_rendered_selections(*selections, *config),
        spec_deprecated_views(final(deprecated_args)@) == spec_deprecated_views(old(deprecated_args)@) + if track_deprecated {
            spec_fields_deprecated(selections.fields@)
        } else {
            Seq::empty()
        },
{
    let ghost fields = selections.fields@;
    let ghost before = spec_deprecated_views(deprecated_args@);
    let ghost field_parts = fields.map_values(|f: Field| spec_field_selection(f, *config));
    let mut r: Vec<String> = Vec::new();
    let mut i: usize = 0;
    while i < selections.fields.len()
        invariant
            i <= fields.len(),
            fields == selections.fields@,
            field_parts == fields.map_values(|f: Field| spec_field_selection(f, *config)),
            spec_selections_writable(*selections),
            views(r@) == field_parts.take(i as int),
            spec_deprecated_views(deprecated_args@) == before + if track_deprecated {
                spec_fields_deprecated(fields.take(i as int))
            } else {
                Seq::empty()
            },
        decreases fields.len() - i,
    {
        proof {
            assert(spec_arguments_writable(fields[i as int].arguments@));
            assert(fields.take(i + 1).drop_last() =~= fields.take(i as int));
            assert(fields.take(i + 1).last() == fields[i as int]);
        }
        let part = field_selection_template(&selections.fields[i], config, deprecated_args, track_deprecated);
        push_part(&mut r, part);
        proof {
            assert(views(r@) =~= field_parts.take(i + 1));
        }
        i = i + 1;
    }
    proof {
        assert(fields.take(fields.len() as int) =~= fields);
        assert(field_parts.take(fields.len() as int) =~= field_parts);
    }
    let ghost inline_parts = selections.inline_fragments@.map_values(|c: ScopeCondition| spec_inline_fragment_selection(c));
    let mut j: usize = 0;
    while j < selections.inline_fragments.len()
        invariant
            j <= selections.inline_fragments@.len(),
            inline_parts == selections.inline_fragments@.map_values(|c: ScopeCondition| spec_inline_fragment_selection(c)),
            views(r@) == field_parts + inline_parts.take(j as int),
        decreases selections.inline_fragments.len() - j,
    {
        push_part(&mut r, inline_fragment_selection_template(&selections.inline_fragments[j]));
        proof {
            assert(views(r@) =~= field_parts + inline_parts.take(j + 1));
        }
        j = j + 1;
    }
    proof {
        assert(inline_parts.take(selections.inline_fragments@.len() as int) =~= inline_parts);
    }
    let ghost named_parts = selections.named_fragments@.map_values(|f: NamedFragmentSpread| spec_fragment_selection(f));
    let mut k: usize = 0;
    while k < selections.named_fragments.len()
        invariant
            k <= selections.named_fragments@.len(),
            named_parts == selections.named_fragments@.map_values(|f: NamedFragmentSpread| spec_fragment_selection(f)),
            views(r@) == field_parts + inline_parts + named_parts.take(k as int),
        decreases selections.named_fragments.len() - k,
    {
        push_part(&mut r, fragment_selection_template(&selections.named_fragments[k]));
        proof {
            assert(views(r@) =~= field_parts + inline_parts + named_parts.take(k + 1));
        }
        k = k + 1;
    }
    proof {
        assert(named_parts.take(selections.named_fragments@.len() as int) =~= named_parts);
    }
    r
}

/// A selection as an item of the `__selections` list.
pub open spec fn spec_selection_item(s: Seq<char>) -> Seq<char> {
    "  "@ + s + ","@
}

/// The items of the `__selections` list for a group of conditional selections: when the
/// scope already implies the conditions, each selection as it is; otherwise the selections
/// wrapped in one `.include(if:)` item, as a list when there are several.
pub open spec fn spec_group_items(g: InclusionConditionGroup, config: ConfigurationContext) -> Seq<Seq<char>> {
    let rendered = spec_rendered_selections(g.selections, config);
    if !g.matched_by_scope {
        let expr = spec_condition_variable_expression(g.conditions.elements@);
        if rendered.len() > 1 {
            seq![
                "  .include(if: "@ + expr + ", ["@ + join(rendered.map_values(|s: Seq<char>| "    "@ + s), ",\n"@)
                    + "]),"@,
            ]
        } else if rendered.len() == 1 {
            seq!["  .include(if: "@ + expr + ", "@ + rendered[0] + "),"@]
        } else {
            Seq::empty()
        }
    } else {
        rendered.map_values(|s: Seq<char>| spec_selection_item(s))
    }
}

/// The items of the groups of conditional selections, group by group.
pub open spec fn spec_groups_items(gs: Seq<InclusionConditionGroup>, config: ConfigurationContext) -> Seq<Seq<char>>
    decreases gs.len(),
{
    if gs.len() == 0 {
        Seq::empty()
    } else {
        spec_groups_items(gs.drop_last(), config) + spec_group_items(gs.last(), config)
    }
}

/// The deprecated arguments of the fields of the groups, group by group.
pub open spec fn spec_groups_deprecated(gs: Seq<InclusionConditionGroup>) -> Seq<(Seq<char>, Seq<char>, Seq<char>)>
    decreases gs.len(),
{
    if gs.len() == 0 {
        Seq::empty()
    } else {
        spec_groups_deprecated(gs.drop_last()) + spec_fields_deprecated(gs.last().selections.fields@)
    }
}

/// Whether there are no selections, unconditional or conditional.
pub open spec fn spec_grouped_is_empty(g: GroupedByInclusionCondition) -> bool {
    &&& g.unconditional_selections.fields@.len() == 0
    &&& g.unconditional_selections.inline_fragments@.len() == 0
    &&& g.unconditional_selections.named_fragments@.len() == 0
    &&& g.inclusion_condition_groups@.len() == 0
}

/// Whether the argument values of every field of the grouped selections can be written.
pub open spec fn spec_grouped_writable(g: GroupedByInclusionCondition) -> bool {
    &&& spec_selections_writable(g.unconditional_selections)
    &&& forall|i: int| 0 <= i < g.inclusion_condition_groups@.len() ==> spec_selections_writable(
        #[trigger] g.inclusion_condition_groups@[i].selections,
    )
}

/// The `#warning` lines of deprecated arguments.
pub open spec fn spec_deprecation_warnings(d: Seq<(Seq<char>, Seq<char>, Seq<char>)>) -> Seq<char> {
    concat(d.map_values(|a: (Seq<char>, Seq<char>, Seq<char>)| spec_field_argument_warning(a.0, a.1, a.2) + "\n"@))
}

/// The `__selections` metadata of the direct selections of a selection set: nothing when
/// there is nothing to select; otherwise the warnings for deprecated arguments, when
/// deprecated usage is warned about, and the list of the `__typename` field (where asked
/// for), the unconditional selections and the groups of conditional selections.
pub open spec fn spec_selections_metadata(
    grouped: GroupedByInclusionCondition,
    include_typename: bool,
    access: Seq<char>,
    config: ConfigurationContext,
) -> Seq<char> {
    if spec_grouped_is_empty(grouped) && !include_typename {
        Seq::empty()
    } else {
        let track = config.config.options.warnings_on_deprecated_usage == Composition::Include;
        let items = (if include_typename {
            seq!["  .field(\"__typename\", String.self),"@]
        } else {
            Seq::empty()
        }) + spec_rendered_selections(grouped.unconditional_selections, config).map_values(
            |s: Seq<char>| spec_selection_item(s),
        ) + spec_groups_items(grouped.inclusion_condition_groups@, config);
        let deprecated = spec_fields_deprecated(grouped.unconditional_selections.fields@) + spec_groups_deprecated(
            grouped.inclusion_condition_groups@,
        );
        (if track && deprecated.len() > 0 {
            spec_deprecation_warnings(deprecated)
        } else {
            Seq::empty()
        }) + access + "static var __selections: ["@ + APOLLO_API_TARGET_NAME@ + ".Selection] { [\n"@ + join(items, "\n"@)
            + "\n] }"@
    }
}

/// Appends each selection as an item of the `__selections` list.
fn push_selection_items(items: &mut Vec<String>, rendered: &Vec<String>)
    ensures
        views(final(items)@) == views(old(items)@) + views(rendered@).map_values(|s: Seq<char>| spec_selection_item(s)),
{
    let ghost start = views(items@);
    let ghost target = views(rendered@).map_values(|s: Seq<char>| spec_selection_item(s));
    let mut i: usize = 0;
    while i < rendered.len()
        invariant
            i <= rendered@.len(),
            target == views(rendered@).map_values(|s: Seq<char>| spec_selection_item(s)),
            views(items@) == start + target.take(i as int),
        decreases rendered.len() - i,
    {
        let mut item = String::from_str("  ");
        item.append(rendered[i].as_str());
        item.append(",");
        push_part(items, item);
        proof {
            assert(views(rendered@)[i as int] == rendered@[i as int]@);
            assert(views(items@) =~= start + target.take(i + 1));
        }
        i = i + 1;
    }
    proof {
        assert(target.take(rendered@.len() as int) =~= target);
    }
}

/// Appends the items of a group of conditional selections, as `spec_group_items`
/// describes, collecting the deprecated arguments of its fields.
fn push_group_items(
    items: &mut Vec<String>,
    group: &InclusionConditionGroup,
    config: &ConfigurationContext,
    deprecated_args: &mut Vec<DeprecatedArgument>,
    track_deprecated: bool,
)
    requires
        spec_selections_writable(group.selections),
    ensures
        views(final(items)@) == views(old(items)@) + spec_group_items(*group, *config),
        spec_deprecated_views(final(deprecated_args)@) == spec_deprecated_views(old(deprecated_args)@) + if track_deprecated {
            spec_fields_deprecated(group.selections.fields@)
        } else {
            Seq::empty()
        },
{
    let rendered = rendered_selections(&group.selections, config, deprecated_args, track_deprecated);
    if !group.matched_by_scope {
        let expr = condition_variable_expression(&group.conditions);
        if rendered.len() > 1 {
            let ghost inner_target = views(rendered@).map_values(|s: Seq<char>| "    "@ + s);
            let mut inner: Vec<String> = Vec::new();
            let mut i: usize = 0;
            while i < rendered.len()
                invariant
                    i <= rendered@.len(),
                    inner_target == views(rendered@).map_values(|s: Seq<char>| "    "@ + s),
                    views(inner@) == inner_target.take(i as int),
                decreases rendered.len() - i,
            {
                let mut line = String::from_str("    ");
                line.append(rendered[i].as_str());
                push_part(&mut inner, line);
                proof {
                    assert(views(rendered@)[i as int] == rendered@[i as int]@);
                    assert(views(inner@) =~= inner_target.take(i + 1));
                }
                i = i + 1;
            }
            proof {
                assert(inner_target.take(rendered@.len() as int) =~= inner_target);
            }
            let mut item = String::from_str("  .include(if: ");
            item.append(expr.as_str());
            item.append(", [");
            item.append(join_strings(&inner, ",\n").as_str());
            item.append("]),");
            push_part(items, item);
        } else if rendered.len() == 1 {
            let mut item = String::from_str("  .include(if: ");
            item.append(expr.as_str());
            item.append(", ");
            item.append(rendered[0].as_str());
            item.append("),");
            proof {
                assert(views(rendered@)[0] == rendered@[0]@);
            }
            push_part(items, item);
        } else {
            proof {
                assert(views(items@) =~= views(items@) + Seq::<Seq<char>>::empty());
            }
        }
    } else {
        push_selection_items(items, &rendered);
    }
}

/// Renders the `__selections` metadata of the direct selections of a selection set, as
/// `spec_selections_metadata` describes.
pub fn direct_selections_metadata_template(
    grouped: &GroupedByInclusionCondition,
    include_typename: bool,
    access: &str,
    config: &ConfigurationContext,
) -> (r: String)
    requires
        spec_grouped_writable(*grouped),
    ensures
        r@ == spec_selections_metadata(*grouped, include_typename, access@, *config),
{
    let unconditional = &grouped.unconditional_selections;
    if unconditional.fields.len() == 0 && unconditional.inline_fragments.len() == 0
        && unconditional.named_fragments.len() == 0 && grouped.inclusion_condition_groups.len() == 0
        && !include_typename {
        return String::new();
    }
    let track = match config.config.options.warnings_on_deprecated_usage {
        Composition::Include => true,
        Composition::Exclude => false,
    };
    proof {
        assert(track == (config.config.options.warnings_on_deprecated_usage == Composition::Include));
    }
    let mut deprecated: Vec<DeprecatedArgument> = Vec::new();
    let mut items: Vec<String> = Vec::new();
    if include_typename {
        push_part(&mut items, String::from_str("  .field(\"__typename\", String.self),"));
        proof {
            assert(views(items@) =~= seq!["  .field(\"__typename\", String.self),"@]);
        }
    } else {
        proof {
            assert(views(items@) =~= Seq::<Seq<char>>::empty());
        }
    }
    proof {
        assert(spec_deprecated_views(deprecated@) =~= Seq::empty());
    }
    let rendered = rendered_selections(unconditional, config, &mut deprecated, track);
    push_selection_items(&mut items, &rendered);
    let ghost groups = grouped.inclusion_condition_groups@;
    let ghost head = views(items@);
    let ghost dep_head = spec_deprecated_views(deprecated@);
    let mut g: usize = 0;
    while g < grouped.inclusion_condition_groups.len()
        invariant
            g <= groups.len(),
            groups == grouped.inclusion_condition_groups@,
            spec_grouped_writable(*grouped),
            views(items@) == head + spec_groups_items(groups.take(g as int), *config),
            spec_deprecated_views(deprecated@) == dep_head + if track {
                spec_groups_deprecated(groups.take(g as int))
            } else {
                Seq::empty()
            },
        decreases groups.len() - g,
    {
        proof {
            assert(spec_selections_writable(groups[g as int].selections));
            assert(groups.take(g + 1).drop_last() =~= groups.take(g as int));
            assert(groups.take(g + 1).last() == groups[g as int]);
        }
        push_group_items(&mut items, &grouped.inclusion_condition_groups[g], config, &mut deprecated, track);
        proof {
            assert(views(items@) =~= head + spec_groups_items(groups.take(g + 1), *config));
        }
        g = g + 1;
    }
    proof {
        assert(groups.take(groups.len() as int) =~= groups);
        let deprecated_spec = spec_fields_deprecated(unconditional.fields@) + spec_groups_deprecated(groups);
        if track {
            assert(spec_deprecated_views(deprecated@) =~= deprecated_spec);
        } else {
            assert(spec_deprecated_views(deprecated@) =~= Seq::empty());
        }
        assert(spec_deprecated_views(deprecated@).len() == deprecated@.len());
    }
    let mut r = String::new();
    if track && deprecated.len() > 0 {
        let ghost ds = spec_deprecated_views(deprecated@);
        let ghost lines = ds.map_values(|a: (Seq<char>, Seq<char>, Seq<char>)| spec_field_argument_warning(a.0, a.1, a.2) + "\n"@);
        let mut i: usize = 0;
        while i < deprecated.len()
            invariant
                i <= deprecated@.len(),
                ds == spec_deprecated_views(deprecated@),
                lines == ds.map_values(|a: (Seq<char>, Seq<char>, Seq<char>)| spec_field_argument_warning(a.0, a.1, a.2) + "\n"@),
                r@ == concat(lines.take(i as int)),
            decreases deprecated.len() - i,
        {
            let d = &deprecated[i];
            let mut line = render_field_argument_warning(d.field.as_str(), d.arg.as_str(), d.reason.as_str());
            line.append("\n");
            proof {
                assert(ds[i as int] == (d.field@, d.arg@, d.reason@));
                assert(lines.take(i + 1) =~= lines.take(i as int).push(line@));
                lemma_join_push(lines.take(i as int), Seq::empty(), line@);
            }
            r.append(line.as_str());
            i = i + 1;
        }
        proof {
            assert(lines.take(deprecated@.len() as int) =~= lines);
        }
    }
    r.append(access);
    r.append("static var __selections: [");
    r.append(APOLLO_API_TARGET_NAME);
    r.append(".Selection] { [\n");
    r.append(join_strings(&items, "\n").as_str());
    r.append("\n] }");
    r
}

/// Whether two schema names are the same name with the same custom name.
pub open spec fn spec_same_name(a: GraphQLName, b: GraphQLName) -> bool {
    a.schema_name@ == b.schema_name@ && opt_view(a.custom_name) == opt_view(b.custom_name)
}

/// Whether two composite types are the same kind of type with the same name.
pub open spec fn spec_same_composite(a: GraphQLCompositeType, b: GraphQLCompositeType) -> bool {
    match (a, b) {
        (GraphQLCompositeType::Object(x), GraphQLCompositeType::Object(y)) => spec_same_name(x.name, y.name),
        (GraphQLCompositeType::Interface(x), GraphQLCompositeType::Interface(y)) => spec_same_name(x.name, y.name),
        (GraphQLCompositeType::Union(x), GraphQLCompositeType::Union(y)) => spec_same_name(x.name, y.name),
        _ => false,
    }
}

fn same_name(a: &GraphQLName, b: &GraphQLName) -> (r: bool)
    ensures
        r == spec_same_name(*a, *b),
{
    if !str_eq(a.schema_name.as_str(), b.schema_name.as_str()) {
        return false;
    }
    match (&a.custom_name, &b.custom_name) {
        (Some(x), Some(y)) => str_eq(x.as_str(), y.as_str()),
        (None, None) => true,
        _ => false,
    }
}

fn same_composite(a: &GraphQLCompositeType, b: &GraphQLCompositeType) -> (r: bool)
    ensures
        r == spec_same_composite(*a, *b),
{
    match (a, b) {
        (GraphQLCompositeType::Object(x), GraphQLCompositeType::Object(y)) => same_name(&x.name, &y.name),
        (GraphQLCompositeType::Interface(x), GraphQLCompositeType::Interface(y)) => same_name(&x.name, &y.name),
        (GraphQLCompositeType::Union(x), GraphQLCompositeType::Union(y)) => same_name(&x.name, &y.name),
        _ => false,
    }
}

/// Returns whether the `__typename` field is selected: in the selection set of an entity's
/// root scope (a scope path of one condition), unless its type is one of the schema's root
/// operation types.
pub fn should_include_typename_selection(
    scope_path_count: usize,
    scope_type: &GraphQLCompositeType,
    root_types: &[GraphQLCompositeType],
) -> (r: bool)
    ensures
        r == (scope_path_count == 1 && !exists|i: int|
            0 <= i < root_types@.len() && spec_same_composite(#[trigger] root_types@[i], *scope_type)),
{
    if scope_path_count != 1 {
        return false;
    }
    let mut i: usize = 0;
    while i < root_types.len()
        invariant
            i <= root_types@.len(),
            forall|j: int| 0 <= j < i ==> !spec_same_composite(#[trigger] root_types@[j], *scope_type),
        decreases root_types.len() - i,
    {
        if same_composite(&root_types[i], scope_type) {
            return false;
        }
        i = i + 1;
    }
    true
}

/// The protocol that a generated selection set conforms to, qualified by the schema
/// namespace: mutable for local cache mutations, an inline fragment where asked for.
pub open spec fn spec_selection_set_type(namespace: Seq<char>, is_mutable: bool, as_inline_fragment: bool) -> Seq<char> {
    spec_first_uppercased(namespace) + "."@ + if is_mutable {
        if as_inline_fragment {
            "MutableInlineFragment"@
        } else {
            "MutableSelectionSet"@
        }
    } else if as_inline_fragment {
        "InlineFragment"@
    } else {
        "SelectionSet"@
    }
}

/// Returns the protocol of a generated selection set, as `spec_selection_set_type`
/// describes.
pub fn selection_set_type(config: &ConfigurationContext, is_mutable: bool, as_inline_fragment: bool) -> (r: String)
    ensures
        r@ == spec_selection_set_type(config.config.schema_namespace@, is_mutable, as_inline_fragment),
{
    let mut r = first_uppercased(config.schema_namespace());
    r.append(".");
    r.append(
        if is_mutable {
            if as_inline_fragment {
                "MutableInlineFragment"
            } else {
                "MutableSelectionSet"
            }
        } else if as_inline_fragment {
            "InlineFragment"
        } else {
            "SelectionSet"
        },
    );
    r
}

/// The `__data` property of a selection set: a variable in a mutable selection set, a
/// constant otherwise.
pub open spec fn spec_data_property(access: Seq<char>, is_mutable: bool) -> Seq<char> {
    access + (if is_mutable {
        "var"@
    } else {
        "let"@
    }) + " __data: DataDict"@
}

/// Renders the `__data` property, as `spec_data_property` describes.
pub fn data_property_template(access: &str, is_mutable: bool) -> (r: String)
    ensures
        r@ == spec_data_property(access@, is_mutable),
{
    let mut r = String::from_str(access);
    r.append(if is_mutable {
        "var"
    } else {
        "let"
    });
    r.append(" __data: DataDict");
    r
}

/// The designated initializer of a selection set: on one line, or with the given further
/// statements after the data assignment when there are some.
pub open spec fn spec_designated_initializer(access: Seq<char>, extra_props: Option<Seq<char>>) -> Seq<char> {
    match extra_props {
        Some(p) if p.len() > 0 => access + "init(_dataDict: DataDict) {\n  __data = _dataDict\n  "@ + p + "\n}"@,
        _ => access + "init(_dataDict: DataDict) { __data = _dataDict }"@,
    }
}

/// Renders the designated initializer, as `spec_designated_initializer` describes.
pub fn designated_initializer_template(access: &str, extra_props: Option<&str>) -> (r: String)
    ensures
        r@ == spec_designated_initializer(access@, match extra_props {
            Some(p) => Some(p@),
            None => None,
        }),
{
    let mut r = String::from_str(access);
    match extra_props {
        Some(p) if !p.is_empty() => {
            r.append("init(_dataDict: DataDict) {\n  __data = _dataDict\n  ");
            r.append(p);
            r.append("\n}");
        },
        _ => {
            r.append("init(_dataDict: DataDict) { __data = _dataDict }");
        },
    }
    r
}

/// The reference to a composite type of the schema: the schema namespace, the namespace of
/// the type's kind, and its name.
pub open spec fn spec_generated_schema_type_reference(namespace: Seq<char>, t: GraphQLCompositeType) -> Seq<char> {
    spec_first_uppercased(namespace) + "."@ + spec_schema_types_namespace(t) + "."@ + spec_composite_type_name(t)
}

/// Renders the reference to a composite type of the schema, as
/// `spec_generated_schema_type_reference` describes.
pub fn generated_schema_type_reference(config: &ConfigurationContext, t: &GraphQLCompositeType) -> (r: String)
    ensures
        r@ == spec_generated_schema_type_reference(config.config.schema_namespace@, *t),
{
    let mut r = first_uppercased(config.schema_namespace());
    r.append(".");
    r.append(schema_types_namespace(t));
    r.append(".");
    r.append(render_composite_type_name(t).as_str());
    r
}

/// The `__parentType` property of a selection set.
pub open spec fn spec_parent_type(access: Seq<char>, namespace: Seq<char>, t: GraphQLCompositeType) -> Seq<char> {
    access + "static var __parentType: any "@ + APOLLO_API_TARGET_NAME@ + ".ParentType { "@
        + spec_generated_schema_type_reference(namespace, t) + " }"@
}

/// Renders the `__parentType` property, as `spec_parent_type` describes.
pub fn parent_type_template(access: &str, config: &ConfigurationContext, t: &GraphQLCompositeType) -> (r: String)
    ensures
        r@ == spec_parent_type(access@, config.config.schema_namespace@, *t),
{
    let mut r = String::from_str(access);
    r.append("static var __parentType: any ");
    r.append(APOLLO_API_TARGET_NAME);
    r.append(".ParentType { ");
    r.append(generated_schema_type_reference(config, t).as_str());
    r.append(" }");
    r
}

// ---------------------------------------------------------------------------
// The body of a selection set
// ---------------------------------------------------------------------------

/// Renders the selection sets of a definition: each selection set's data, metadata,
/// accessors and initializer, and the selection sets nested in it.
pub struct SelectionSetTemplate<'a> {
    /// Whether the definition is a local cache mutation, whose selection sets are mutable.
    pub is_mutable: bool,
    pub generate_initializers: bool,
    pub config: &'a ConfigurationContext,
    /// The access modifier of the declarations, rendered.
    pub access_control: String,
}

/// Whether the merged sources are well formed.
pub open spec fn spec_merged_sources_wf(sources: Seq<MergedSource>) -> bool {
    forall|i: int| 0 <= i < sources.len() ==> spec_type_info_wf(#[trigger] sources[i].type_info)
}

/// Whether the names of a selection set can be generated: its type info and those of its
/// merged sources are well formed, and so is the merged source it refers to when it only
/// refers to one, whose name path is then defined.
pub open spec fn spec_node_names_defined(node: SelectionSetNode) -> bool {
    &&& spec_type_info_wf(node.type_info)
    &&& spec_merged_sources_wf(node.selection_set.merged.merged_sources@)
    &&& node.selection_set.direct is None && node.type_info.derived_from_merged_sources@.len() == 1 ==> {
        &&& spec_type_info_wf(node.type_info.derived_from_merged_sources@[0].type_info)
        &&& spec_name_path_defined(node.type_info.derived_from_merged_sources@[0], node.type_info)
    }
}

/// Whether a selection set and the selection sets nested in it can be rendered: their
/// names can be generated and the argument values of every field can be written.
pub open spec fn spec_node_writable(node: SelectionSetNode) -> bool
    decreases node,
{
    &&& spec_node_names_defined(node)
    &&& match node.grouped_direct {
        Some(g) => spec_grouped_writable(g),
        None => true,
    }
    &&& forall|i: int| 0 <= i < node.child_entities@.len() ==> spec_node_writable(#[trigger] node.child_entities@[i])
    &&& forall|i: int| 0 <= i < node.child_inline_fragments@.len() ==> spec_node_writable(#[trigger] node.child_inline_fragments@[i])
}

/// Whether a selection set only gathers merged selections under a type condition: it is
/// neither an entity's root nor written in the definition, and has no direct selections.
pub open spec fn spec_is_composite_inline_fragment(node: SelectionSetNode) -> bool {
    &&& !node.is_entity_root
    &&& !node.is_user_defined
    &&& match node.selection_set.direct {
        Some(d) => d.fields@.len() == 0 && d.inline_fragments@.len() == 0 && d.named_fragments@.len() == 0,
        None => true,
    }
}

/// Returns whether a selection set only gathers merged selections under a type condition,
/// as `spec_is_composite_inline_fragment` describes.
pub fn is_composite_inline_fragment(node: &SelectionSetNode) -> (r: bool)
    ensures
        r == spec_is_composite_inline_fragment(*node),
{
    let direct_empty = match &node.selection_set.direct {
        Some(d) => d.fields.len() == 0 && d.inline_fragments.len() == 0 && d.named_fragments.len() == 0,
        None => true,
    };
    !node.is_entity_root && !node.is_user_defined && direct_empty
}

/// Returns the type name of a selection set: the name component of the last condition of
/// its scope.
pub fn rendered_type_name(node: &SelectionSetNode) -> (r: String)
    requires
        spec_type_info_wf(node.type_info),
    ensures
        r@ == spec_selection_set_name_component(spec_node_scope_condition(*node)),
{
    let scope = node.type_info.scope();
    proof {
        assert(scope.scope_path@.len() > 0);
    }
    selection_set_name_component(&scope.scope_path[scope.scope_path.len() - 1])
}

/// The `__mergedSources` property of a composite inline fragment.
pub open spec fn spec_merged_sources(names: Seq<Seq<char>>) -> Seq<char> {
    "public static var __mergedSources: [any "@ + APOLLO_API_TARGET_NAME@ + ".SelectionSet.Type] { [\n"@
        + join(names.map_values(|n: Seq<char>| "  "@ + n + ".self"@), ",\n"@) + "\n] }"@
}

/// Renders the `__mergedSources` property, as `spec_merged_sources` describes.
pub fn merged_sources_template(names: &[String]) -> (r: String)
    ensures
        r@ == spec_merged_sources(views(names@)),
{
    let ghost items = views(names@).map_values(|n: Seq<char>| "  "@ + n + ".self"@);
    let mut parts: Vec<String> = Vec::new();
    let mut i: usize = 0;
    while i < names.len()
        invariant
            i <= names@.len(),
            items == views(names@).map_values(|n: Seq<char>| "  "@ + n + ".self"@),
            views(parts@) == items.take(i as int),
        decreases names.len() - i,
    {
        let mut item = String::from_str("  ");
        item.append(names[i].as_str());
        item.append(".self");
        push_part(&mut parts, item);
        proof {
            assert(views(names@)[i as int] == names@[i as int]@);
            assert(views(parts@) =~= items.take(i + 1));
        }
        i = i + 1;
    }
    proof {
        assert(items.take(names@.len() as int) =~= items);
    }
    let mut r = String::from_str("public static var __mergedSources: [any ");
    r.append(APOLLO_API_TARGET_NAME);
    r.append(".SelectionSet.Type] { [\n");
    r.append(join_strings(&parts, ",\n").as_str());
    r.append("\n] }");
    r
}

/// The fully qualified names of merged sources, in order.
pub open spec fn spec_merged_source_names(sources: Seq<MergedSource>, pluralizer: Pluralizer) -> Seq<Seq<char>> {
    sources.map_values(
        |s: MergedSource| spec_generated_selection_set_name(s.type_info, None, NameFormat::FullyQualified, pluralizer),
    )
}

/// Generates the fully qualified names of merged sources, as `spec_merged_source_names`
/// describes.
pub fn merged_source_names(sources: &[MergedSource], pluralizer: &Pluralizer) -> (r: Vec<String>)
    requires
        spec_merged_sources_wf(sources@),
    ensures
        views(r@) == spec_merged_source_names(sources@, *pluralizer),
{
    let ghost all = spec_merged_source_names(sources@, *pluralizer);
    let mut names: Vec<String> = Vec::new();
    let mut i: usize = 0;
    while i < sources.len()
        invariant
            i <= sources@.len(),
            spec_merged_sources_wf(sources@),
            all == spec_merged_source_names(sources@, *pluralizer),
            views(names@) == all.take(i as int),
        decreases sources.len() - i,
    {
        proof {
            assert(spec_type_info_wf(sources@[i as int].type_info));
        }
        push_part(&mut names, SelectionSetNameGenerator::generated_selection_set_name_for_merged_source(
            &sources[i],
            None,
            NameFormat::FullyQualified,
            pluralizer,
        ));
        proof {
            assert(views(names@) =~= all.take(i + 1));
        }
        i = i + 1;
    }
    proof {
        assert(all.take(sources@.len() as int) =~= all);
    }
    names
}

/// The names of the selection sets that a selection set fulfills, before duplicates are
/// dropped: for each condition of its scope, its fully qualified name up to that
/// condition; then the names fulfilled by each merged source, in order.
pub open spec fn spec_initializer_fulfilled_names(type_info: TypeInfo, sources: Seq<MergedSource>, pluralizer: Pluralizer) -> Seq<Seq<char>> {
    let last_index = type_info.scope_path@.len() - 1;
    Seq::new(
        spec_scope(type_info).scope_path@.len(),
        |k: int|
            spec_generated_selection_set_name(
                type_info,
                Some((last_index as usize, k as usize)),
                NameFormat::FullyQualified,
                pluralizer,
            ),
    ) + spec_sources_fulfilled_names(sources, pluralizer)
}

/// The names fulfilled by each merged source, in order.
pub open spec fn spec_sources_fulfilled_names(sources: Seq<MergedSource>, pluralizer: Pluralizer) -> Seq<Seq<char>>
    decreases sources.len(),
{
    if sources.len() == 0 {
        Seq::empty()
    } else {
        spec_sources_fulfilled_names(sources.drop_last(), pluralizer) + spec_fulfilled_fragment_names(sources.last(), pluralizer)
    }
}

/// Generates the names of the selection sets that a selection set fulfills, as
/// `spec_initializer_fulfilled_names` describes.
pub fn initializer_fulfilled_names(type_info: &TypeInfo, sources: &[MergedSource], pluralizer: &Pluralizer) -> (r: Vec<String>)
    requires
        spec_type_info_wf(*type_info),
        spec_merged_sources_wf(sources@),
    ensures
        views(r@) == spec_initializer_fulfilled_names(*type_info, sources@, *pluralizer),
{
    let last_index = type_info.scope_path.len() - 1;
    let conditions = &type_info.scope_path[last_index].scope_path;
    let ghost own = Seq::new(
        spec_scope(*type_info).scope_path@.len(),
        |k: int|
            spec_generated_selection_set_name(
                *type_info,
                Some((last_index as usize, k as usize)),
                NameFormat::FullyQualified,
                *pluralizer,
            ),
    );
    let mut names: Vec<String> = Vec::new();
    let mut k: usize = 0;
    while k < conditions.len()
        invariant
            k <= conditions@.len(),
            conditions@ == spec_scope(*type_info).scope_path@,
            last_index == type_info.scope_path@.len() - 1,
            spec_type_info_wf(*type_info),
            own.len() == conditions@.len(),
            forall|j: int| 0 <= j < own.len() ==> #[trigger] own[j] == spec_generated_selection_set_name(
                *type_info,
                Some((last_index as usize, j as usize)),
                NameFormat::FullyQualified,
                *pluralizer,
            ),
            views(names@) == own.take(k as int),
        decreases conditions.len() - k,
    {
        push_part(&mut names, SelectionSetNameGenerator::generated_selection_set_name(
            type_info,
            Some((last_index, k)),
            NameFormat::FullyQualified,
            pluralizer,
        ));
        proof {
            assert(views(names@) =~= own.take(k + 1));
        }
        k = k + 1;
    }
    proof {
        assert(own.take(conditions@.len() as int) =~= own);
    }
    let mut i: usize = 0;
    while i < sources.len()
        invariant
            i <= sources@.len(),
            spec_merged_sources_wf(sources@),
            views(names@) == own + spec_sources_fulfilled_names(sources@.take(i as int), *pluralizer),
        decreases sources.len() - i,
    {
        proof {
            assert(spec_type_info_wf(sources@[i as int].type_info));
        }
        let ghost before = views(names@);
        let more = generated_selection_set_names_of_fulfilled_fragments(&sources[i], pluralizer);
        let mut j: usize = 0;
        while j < more.len()
            invariant
                j <= more@.len(),
                views(names@) == before + views(more@).take(j as int),
            decreases more.len() - j,
        {
            push_part(&mut names, copy_str(more[j].as_str()));
            proof {
                assert(views(names@) =~= before + views(more@).take(j + 1));
            }
            j = j + 1;
        }
        proof {
            assert(views(more@).take(more@.len() as int) =~= views(more@));
            assert(sources@.take(i + 1).drop_last() =~= sources@.take(i as int));
            assert(sources@.take(i + 1).last() == sources@[i as int]);
            assert(views(names@) =~= own + spec_sources_fulfilled_names(sources@.take(i + 1), *pluralizer));
        }
        i = i + 1;
    }
    proof {
        assert(sources@.take(sources@.len() as int) =~= sources@);
    }
    names
}

/// The generated name of a selection set below the root of its definition.
pub open spec fn spec_documentation_name(node: SelectionSetNode, config: ConfigurationContext) -> Seq<char> {
    spec_generated_selection_set_name(node.type_info, None, NameFormat::OmittingRoot, config.pluralizer)
}

/// The fully qualified name of the root selection set of a selection set's entity.
pub open spec fn spec_root_entity_name(node: SelectionSetNode, config: ConfigurationContext) -> Seq<char> {
    spec_generated_selection_set_name(
        node.type_info,
        Some(((node.type_info.scope_path@.len() - 1) as usize, 0usize)),
        NameFormat::FullyQualified,
        config.pluralizer,
    )
}

/// The documentation of a nested selection set: its generated name, and its parent type
/// when schema documentation is included.
pub open spec fn spec_selection_set_name_documentation(node: SelectionSetNode, config: ConfigurationContext) -> Seq<char> {
    "/// "@ + spec_documentation_name(node, config) + "\n"@ + if config.config.options.schema_documentation == Composition::Include {
        "///\n/// Parent Type: `"@ + spec_composite_type_name(node.selection_set.parent_type) + "`\n"@
    } else {
        Seq::empty()
    }
}

/// A section of the body: a blank line and the section, or nothing for an empty section.
pub open spec fn spec_section(text: Seq<char>) -> Seq<char> {
    if text.len() > 0 {
        "\n\n"@ + text
    } else {
        Seq::empty()
    }
}

/// The declarations that open the body of a selection set: its data property and
/// designated initializer, then its root entity alias (below the entity's root) and its
/// parent type.
pub open spec fn spec_head_declarations(is_mutable: bool, generate_initializers: bool, config: ConfigurationContext, access: Seq<char>, node: SelectionSetNode) -> Seq<char> {
        spec_data_property(access, is_mutable) + "\n"@ + spec_designated_initializer(access, None) + "\n\n"@
        + (if !node.is_entity_root {
        access + "typealias RootEntityType = "@ + spec_root_entity_name(node, config) + "\n"@
    } else {
        Seq::empty()
    }) + spec_parent_type(access, config.config.schema_namespace@, node.selection_set.parent_type)
}

/// The metadata of the direct selections of a selection set, on a line of its own, where
/// there is some.
pub open spec fn spec_head_metadata(is_mutable: bool, generate_initializers: bool, config: ConfigurationContext, access: Seq<char>, node: SelectionSetNode) -> Seq<char> {
    match node.grouped_direct {
        Some(g) => {
            let meta = spec_selections_metadata(g, node.include_typename, access, config);
            if meta.len() > 0 {
                "\n"@ + meta
            } else {
                Seq::empty()
            }
        },
        None => Seq::empty(),
    }
}

/// The merged sources of a composite inline fragment, on a line of their own.
pub open spec fn spec_head_merged_sources(node: SelectionSetNode, config: ConfigurationContext) -> Seq<char> {
    if spec_is_composite_inline_fragment(node) {
        "\n"@ + spec_merged_sources(spec_merged_source_names(node.selection_set.merged.merged_sources@, config.pluralizer))
    } else {
        Seq::empty()
    }
}

/// The head of the body of a selection set: its opening declarations, the metadata of its
/// direct selections, and the merged sources of a composite inline fragment.
pub open spec fn spec_body_head(is_mutable: bool, generate_initializers: bool, config: ConfigurationContext, access: Seq<char>, node: SelectionSetNode) -> Seq<char> {
    spec_head_declarations(is_mutable, generate_initializers, config, access, node) + spec_head_metadata(is_mutable, generate_initializers, config, access, node) + spec_head_merged_sources(node, config)
}

/// The scope conditions of the inline fragments nested in a selection set.
pub open spec fn spec_child_scope_conditions(node: SelectionSetNode) -> Seq<ScopeCondition> {
    node.child_inline_fragments@.map_values(|c: SelectionSetNode| spec_node_scope_condition(c))
}

/// The body of a selection set: its head, then as sections its field accessors, its inline
/// fragment accessors, its fragment container, its initializer (where initializers are
/// generated), the selection sets of its entity fields and those of its inline fragments.
pub open spec fn spec_body(is_mutable: bool, generate_initializers: bool, config: ConfigurationContext, access: Seq<char>, node: SelectionSetNode) -> Seq<char>
    decreases node, 1nat, 0nat,
{
        spec_body_head(is_mutable, generate_initializers, config, access, node) + spec_section(spec_field_accessors(node.selection_set, access, is_mutable, config))
        + spec_section(join(spec_inline_fragment_accessor_list(spec_child_scope_conditions(node), access), "\n"@))
        + spec_section(spec_fragment_accessors(node.selection_set, access, is_mutable)) + spec_section(
        if generate_initializers {
            spec_initializer(
                node.selection_set,
                access,
                config,
                spec_initializer_fulfilled_names(node.type_info, node.selection_set.merged.merged_sources@, config.pluralizer),
            )
        } else {
            Seq::empty()
        },
    ) + spec_section(join(spec_child_entity_parts(is_mutable, generate_initializers, config, access, node, node.child_entities@.len()), "\n\n"@)) + spec_section(
        join(spec_inline_fragment_parts(is_mutable, generate_initializers, config, access, node, node.child_inline_fragments@.len()), "\n\n"@),
    )
}

/// The declarations of the first `n` entity field selection sets that render one.
pub open spec fn spec_child_entity_parts(is_mutable: bool, generate_initializers: bool, config: ConfigurationContext, access: Seq<char>, node: SelectionSetNode, n: nat) -> Seq<Seq<char>>
    decreases node, 0nat, n,
{
    if n == 0 || n > node.child_entities@.len() {
        Seq::empty()
    } else {
        spec_child_entity_parts(is_mutable, generate_initializers, config, access, node, (n - 1) as nat) + match spec_child_entity(is_mutable, generate_initializers, config, access, node.child_entities@[n - 1]) {
            Some(d) => seq![d],
            None => Seq::empty(),
        }
    }
}

/// The declaration of the selection set of an entity field: a type alias when it
/// references another selection set of a different name, nothing when it references one
/// of its own name, and otherwise a struct holding its body.
pub open spec fn spec_child_entity(is_mutable: bool, generate_initializers: bool, config: ConfigurationContext, access: Seq<char>, child: SelectionSetNode) -> Option<Seq<char>>
    decreases child, 2nat, 0nat,
{
        let name = spec_computed_selection_set_name(child.type_info, config.pluralizer);
        match spec_name_for_referenced_selection_set(child.selection_set, child.type_info, config.pluralizer) {
        Some(r) => if r == name {
            None
        } else {
            Some(access + "typealias "@ + name + " = "@ + r)
        },
        None => Some(
            spec_selection_set_name_documentation(child, config) + access + "struct "@ + name + ": "@
                + spec_selection_set_type(config.config.schema_namespace@, is_mutable, false) + " {\n"@
                + spec_indent(spec_body(is_mutable, generate_initializers, config, access, child), 2) + "\n}"@,
        ),
    }
}

/// The declarations of the first `n` inline fragment selection sets.
pub open spec fn spec_inline_fragment_parts(is_mutable: bool, generate_initializers: bool, config: ConfigurationContext, access: Seq<char>, node: SelectionSetNode, n: nat) -> Seq<Seq<char>>
    decreases node, 0nat, n,
{
    if n == 0 || n > node.child_inline_fragments@.len() {
        Seq::empty()
    } else {
        spec_inline_fragment_parts(is_mutable, generate_initializers, config, access, node, (n - 1) as nat).push(spec_inline_fragment(is_mutable, generate_initializers, config, access, node.child_inline_fragments@[n - 1]))
    }
}

/// The opening of the declaration of an inline fragment's selection set: its
/// documentation and a struct named by its type condition, marked as a composite inline
/// fragment where it is one.
pub open spec fn spec_inline_fragment_opening(
    is_mutable: bool,
    config: ConfigurationContext,
    access: Seq<char>,
    child: SelectionSetNode,
) -> Seq<char> {
    spec_selection_set_name_documentation(child, config) + access + "struct "@
        + spec_selection_set_name_component(spec_node_scope_condition(child)) + ": "@
        + spec_selection_set_type(config.config.schema_namespace@, is_mutable, true) + if spec_is_composite_inline_fragment(child) {
        ", "@ + APOLLO_API_TARGET_NAME@ + ".CompositeInlineFragment"@
    } else {
        Seq::empty()
    }
}

/// The declaration of the selection set of an inline fragment: its opening and its body.
pub open spec fn spec_inline_fragment(is_mutable: bool, generate_initializers: bool, config: ConfigurationContext, access: Seq<char>, child: SelectionSetNode) -> Seq<char>
    decreases child, 2nat, 0nat,
{
    spec_inline_fragment_opening(is_mutable, config, access, child) + " {\n"@ + spec_indent(
        spec_body(is_mutable, generate_initializers, config, access, child),
        2,
    ) + "\n}"@
}

fn push_section(r: &mut String, text: String)
    ensures
        final(r)@ == old(r)@ + spec_section(text@),
{
    if !text.as_str().is_empty() {
        r.append("\n\n");
        r.append(text.as_str());
    }
}

impl<'a> SelectionSetTemplate<'a> {
    /// A template for the selection sets of a definition that is a local cache mutation or
    /// not, generating initializers or not, with the given configuration and rendered
    /// access modifier.
    pub fn new(is_mutable: bool, generate_initializers: bool, config: &'a ConfigurationContext, access_control: String) -> (r: Self)
        ensures
            r.is_mutable == is_mutable,
            r.generate_initializers == generate_initializers,
            *r.config == *config,
            r.access_control@ == access_control@,
    {
        SelectionSetTemplate { is_mutable, generate_initializers, config, access_control }
    }

    /// Renders the body of a selection set, as `spec_body` describes.
    pub fn render_body(&self, root: &SelectionSetNode) -> (r: String)
        requires
            spec_node_writable(*root),
        ensures
            r@ == spec_body(self.is_mutable, self.generate_initializers, *self.config, self.access_control@, *root),
    {
        self.body_template(root)
    }

    /// Renders the documentation of a nested selection set, as
    /// `spec_selection_set_name_documentation` describes.
    pub fn selection_set_name_documentation(&self, node: &SelectionSetNode) -> (r: String)
        requires
            spec_type_info_wf(node.type_info),
        ensures
            r@ == spec_selection_set_name_documentation(*node, *self.config),
    {
        let name = SelectionSetNameGenerator::generated_selection_set_name(
            &node.type_info,
            None,
            NameFormat::OmittingRoot,
            &self.config.pluralizer,
        );
        let mut r = String::from_str("/// ");
        r.append(name.as_str());
        r.append("\n");
        if self.config.options().schema_documentation == Composition::Include {
            r.append("///\n/// Parent Type: `");
            r.append(render_composite_type_name(&node.selection_set.parent_type).as_str());
            r.append("`\n");
        }
        r
    }

    fn head_declarations(&self, node: &SelectionSetNode) -> (r: String)
        requires
            spec_type_info_wf(node.type_info),
        ensures
            r@ == spec_head_declarations(self.is_mutable, self.generate_initializers, *self.config, self.access_control@, *node),
    {
        let access = self.access_control.as_str();
        let mut r = data_property_template(access, self.is_mutable);
        r.append("\n");
        r.append(designated_initializer_template(access, None).as_str());
        r.append("\n\n");
        if !node.is_entity_root {
            r.append(access);
            r.append("typealias RootEntityType = ");
            let root_entity_name = SelectionSetNameGenerator::generated_selection_set_name(
                &node.type_info,
                Some((node.type_info.scope_path.len() - 1, 0)),
                NameFormat::FullyQualified,
                &self.config.pluralizer,
            );
            r.append(root_entity_name.as_str());
            r.append("\n");
        }
        r.append(parent_type_template(access, self.config, &node.selection_set.parent_type).as_str());
        r
    }

    fn head_metadata(&self, node: &SelectionSetNode) -> (r: String)
        requires
            spec_node_writable(*node),
        ensures
            r@ == spec_head_metadata(self.is_mutable, self.generate_initializers, *self.config, self.access_control@, *node),
    {
        let mut r = String::new();
        if let Some(g) = &node.grouped_direct {
            let meta = direct_selections_metadata_template(g, node.include_typename, self.access_control.as_str(), self.config);
            if !meta.as_str().is_empty() {
                r.append("\n");
                r.append(meta.as_str());
            }
        }
        r
    }

    fn body_head(&self, node: &SelectionSetNode) -> (r: String)
        requires
            spec_node_writable(*node),
        ensures
            r@ == spec_body_head(self.is_mutable, self.generate_initializers, *self.config, self.access_control@, *node),
    {
        let mut r = self.head_declarations(node);
        r.append(self.head_metadata(node).as_str());
        if is_composite_inline_fragment(node) {
            r.append("\n");
            let names = merged_source_names(node.selection_set.merged.merged_sources.as_slice(), &self.config.pluralizer);
            r.append(merged_sources_template(names.as_slice()).as_str());
        }
        r
    }

    fn child_inline_fragment_accessors(&self, node: &SelectionSetNode) -> (accessors: Vec<String>)
        requires
            spec_node_writable(*node),
        ensures
            views(accessors@) == spec_inline_fragment_accessor_list(spec_child_scope_conditions(*node), self.access_control@),
    {
        let access = self.access_control.as_str();
        let ghost conditions = spec_child_scope_conditions(*node);
        let mut accessors: Vec<String> = Vec::new();
        let mut i: usize = 0;
        while i < node.child_inline_fragments.len()
            invariant
                i <= node.child_inline_fragments@.len(),
                spec_node_writable(*node),
                conditions == spec_child_scope_conditions(*node),
                access@ == self.access_control@,
                views(accessors@) == spec_inline_fragment_accessor_list(conditions.take(i as int), access@),
            decreases node.child_inline_fragments.len() - i,
        {
            proof {
                assert(conditions.take(i + 1).drop_last() =~= conditions.take(i as int));
                assert(conditions.take(i + 1).last() == spec_node_scope_condition(node.child_inline_fragments@[i as int]));
                assert(spec_node_writable(node.child_inline_fragments@[i as int]));
            }
            let child_scope = node.child_inline_fragments[i].type_info.scope();
            assert(child_scope.scope_path@.len() > 0);
            let accessor = inline_fragment_accessor_template(&child_scope.scope_path[child_scope.scope_path.len() - 1], access);
            if !accessor.as_str().is_empty() {
                push_part(&mut accessors, accessor);
            }
            proof {
                let c = spec_node_scope_condition(node.child_inline_fragments@[i as int]);
                if c.defer_condition is None {
                    let name = spec_selection_set_name_component(c);
                    assert(spec_inline_fragment_accessor(c, access@) =~= access@ + ("var "@ + spec_first_lowercased(name) + ": "@ + name + "? { _asInlineFragment() }"@));
                    assert(accessor@.len() > 0) by {
                        reveal_strlit("? { _asInlineFragment() }");
                    }
                }
                assert(views(accessors@) =~= spec_inline_fragment_accessor_list(conditions.take(i + 1), access@));
            }
            i = i + 1;
        }
        proof {
            assert(conditions.take(node.child_inline_fragments@.len() as int) =~= conditions);
        }
        accessors
    }

    fn initializer_section(&self, node: &SelectionSetNode) -> (r: String)
        requires
            spec_node_writable(*node),
        ensures
            r@ == if self.generate_initializers {
                spec_initializer(
                    node.selection_set,
                    self.access_control@,
                    *self.config,
                    spec_initializer_fulfilled_names(node.type_info, node.selection_set.merged.merged_sources@, self.config.pluralizer),
                )
            } else {
                Seq::empty()
            },
    {
        if self.generate_initializers {
            let fulfilled = initializer_fulfilled_names(
                &node.type_info,
                node.selection_set.merged.merged_sources.as_slice(),
                &self.config.pluralizer,
            );
            initializer_template(&node.selection_set, self.access_control.as_str(), self.config, fulfilled.as_slice())
        } else {
            String::new()
        }
    }

    fn body_template(&self, node: &SelectionSetNode) -> (r: String)
        requires
            spec_node_writable(*node),
        ensures
            r@ == spec_body(self.is_mutable, self.generate_initializers, *self.config, self.access_control@, *node),
        decreases *node, 1nat, 0nat,
    {
        let access = self.access_control.as_str();
        let mut r = self.body_head(node);
        push_section(&mut r, field_accessors_template(&node.selection_set, access, self.is_mutable, self.config));
        let accessors = self.child_inline_fragment_accessors(node);
        push_section(&mut r, join_strings(&accessors, "\n"));
        push_section(&mut r, fragment_accessors_template(&node.selection_set, access, self.is_mutable));
        let initializer = self.initializer_section(node);
        push_section(&mut r, initializer);
        let mut entities: Vec<String> = Vec::new();
        let mut j: usize = 0;
        while j < node.child_entities.len()
            invariant
                j <= node.child_entities@.len(),
                spec_node_writable(*node),
                views(entities@) == spec_child_entity_parts(self.is_mutable, self.generate_initializers, *self.config, self.access_control@, *node, j as nat),
            decreases node.child_entities.len() - j,
        {
            proof {
                assert(spec_node_writable(node.child_entities@[j as int]));
            }
            match self.render_child_entity(&node.child_entities[j]) {
                Some(d) => push_part(&mut entities, d),
                None => {},
            }
            proof {
                assert(views(entities@) =~= spec_child_entity_parts(self.is_mutable, self.generate_initializers, *self.config, self.access_control@, *node, (j + 1) as nat));
            }
            j = j + 1;
        }
        push_section(&mut r, join_strings(&entities, "\n\n"));
        let mut fragments: Vec<String> = Vec::new();
        let mut k: usize = 0;
        while k < node.child_inline_fragments.len()
            invariant
                k <= node.child_inline_fragments@.len(),
                spec_node_writable(*node),
                views(fragments@) == spec_inline_fragment_parts(self.is_mutable, self.generate_initializers, *self.config, self.access_control@, *node, k as nat),
            decreases node.child_inline_fragments.len() - k,
        {
            proof {
                assert(spec_node_writable(node.child_inline_fragments@[k as int]));
            }
            push_part(&mut fragments, self.render_inline_fragment(&node.child_inline_fragments[k]));
            proof {
                assert(views(fragments@) =~= spec_inline_fragment_parts(self.is_mutable, self.generate_initializers, *self.config, self.access_control@, *node, (k + 1) as nat));
            }
            k = k + 1;
        }
        push_section(&mut r, join_strings(&fragments, "\n\n"));
        r
    }

    fn render_child_entity(&self, child: &SelectionSetNode) -> (r: Option<String>)
        requires
            spec_node_writable(*child),
        ensures
            opt_view(r) == spec_child_entity(self.is_mutable, self.generate_initializers, *self.config, self.access_control@, *child),
        decreases *child, 2nat, 0nat,
    {
        let access = self.access_control.as_str();
        let name = compute_generated_selection_set_name(&child.type_info, &self.config.pluralizer);
        match name_for_referenced_selection_set(&child.selection_set, &child.type_info, self.config) {
            Some(referenced) => {
                if str_eq(referenced.as_str(), name.as_str()) {
                    None
                } else {
                    let mut r = String::from_str(access);
                    r.append("typealias ");
                    r.append(name.as_str());
                    r.append(" = ");
                    r.append(referenced.as_str());
                    Some(r)
                }
            },
            None => {
                let body = self.body_template(child);
                let mut r = self.selection_set_name_documentation(child);
                r.append(access);
                r.append("struct ");
                r.append(name.as_str());
                r.append(": ");
                r.append(selection_set_type(self.config, self.is_mutable, false).as_str());
                r.append(" {\n");
                r.append(indent(body.as_str(), 2).as_str());
                r.append("\n}");
                Some(r)
            },
        }
    }

    fn inline_fragment_opening(&self, child: &SelectionSetNode) -> (r: String)
        requires
            spec_type_info_wf(child.type_info),
        ensures
            r@ == spec_inline_fragment_opening(self.is_mutable, *self.config, self.access_control@, *child),
    {
        let mut r = self.selection_set_name_documentation(child);
        r.append(self.access_control.as_str());
        r.append("struct ");
        r.append(rendered_type_name(child).as_str());
        r.append(": ");
        r.append(selection_set_type(self.config, self.is_mutable, true).as_str());
        if is_composite_inline_fragment(child) {
            r.append(", ");
            r.append(APOLLO_API_TARGET_NAME);
            r.append(".CompositeInlineFragment");
        }
        r
    }

    fn render_inline_fragment(&self, child: &SelectionSetNode) -> (r: String)
        requires
            spec_node_writable(*child),
        ensures
            r@ == spec_inline_fragment(self.is_mutable, self.generate_initializers, *self.config, self.access_control@, *child),
        decreases *child, 2nat, 0nat,
    {
        let body = self.body_template(child);
        let mut r = self.inline_fragment_opening(child);
        r.append(" {\n");
        r.append(indent(body.as_str(), 2).as_str());
        r.append("\n}");
        r
    }
}

/// Whether the scope `target` stands for the scope `source`: the two are the same, or
/// they have the same first type condition and the inclusion conditions of the source's
/// first condition are those of the target's second condition, which has no type
/// condition.
pub open spec fn spec_represents_same_scope(target: ScopeDescriptor, source: ScopeDescriptor) -> bool {
    ||| spec_same_scope_descriptor(target, source)
    ||| {
        &&& spec_same_type_condition(target.scope_path@[0].type_, source.scope_path@[0].type_)
        &&& source.scope_path@[0].conditions is Some
        &&& target.scope_path@.len() > 1
        &&& target.scope_path@[1].type_ is None
        &&& target.scope_path@[1].conditions matches Some(tc)
        &&& spec_same_inclusion_conditions(source.scope_path@[0].conditions.unwrap(), tc)
    }
}

fn represents_same_scope(target: &ScopeDescriptor, source: &ScopeDescriptor) -> (r: bool)
    requires
        target.scope_path@.len() > 0,
        source.scope_path@.len() > 0,
    ensures
        r == spec_represents_same_scope(*target, *source),
{
    if same_scope_descriptor(target, source) {
        return true;
    }
    if crate::ir::same_type_condition_of(&target.scope_path[0].type_, &source.scope_path[0].type_) {
        if let Some(source_conditions) = &source.scope_path[0].conditions {
            if target.scope_path.len() > 1 {
                let target_second = &target.scope_path[1];
                if target_second.type_.is_none() {
                    if let Some(target_conditions) = &target_second.conditions {
                        return same_inclusion_conditions(source_conditions, target_conditions);
                    }
                }
            }
        }
    }
    false
}

/// From the entities at `i` of the path `a` and `j` of the path `b`, steps back one entity
/// on both paths while their scopes stand for each other and both have an entity before:
/// the indices reached and `n` plus the number of steps.
pub open spec fn spec_shared_root(a: Seq<ScopeDescriptor>, b: Seq<ScopeDescriptor>, i: int, j: int, n: nat) -> (int, int, nat)
    decreases i,
{
    if 0 < i < a.len() && 0 < j < b.len() && spec_represents_same_scope(a[i], b[j]) {
        spec_shared_root(a, b, i - 1, j - 1, n + 1)
    } else {
        (i, j, n)
    }
}

/// The shared root of a merged source and the selection set it is merged into: where the
/// walk back from the last entity of each type path stops.
pub open spec fn spec_merged_shared_root(source: MergedSource, target: TypeInfo) -> (int, int, nat) {
    spec_shared_root(
        source.type_info.scope_path@,
        target.scope_path@,
        source.type_info.scope_path@.len() - 1,
        target.scope_path@.len() - 1,
        0,
    )
}

/// The name of a merged selection set of a fragment: the fragment's definition name, the
/// path of the conditions of its root entity after the first, and the names from the
/// entity below the root on, each where present, joined with dots.
pub open spec fn spec_name_in_fragment(source: MergedSource, fragment: FragmentDefinition, pluralizer: Pluralizer) -> Seq<char> {
    let type_path = source.type_info.scope_path@;
    let root_conditions = type_path[0].scope_path@;
    join(
        seq![spec_first_uppercased(fragment.name@)] + (if root_conditions.len() > 1 {
            seq![spec_condition_path(root_conditions.skip(1))]
        } else {
            Seq::empty()
        }) + (if type_path.len() > 1 {
            seq![spec_name_from_nodes(type_path, 1, None, spec_field_path(source.type_info), Some(0), false, pluralizer)]
        } else {
            Seq::empty()
        }),
        "."@,
    )
}

/// The fully qualified name that a merged source is referred to by from the selection set
/// it is merged into. For a fragment's selection set, the name inside the fragment. Else
/// the two type paths are walked back to their shared root: at the root of the
/// definition, the source's fully qualified name; below it, the names from the shared root
/// on with the source's field path from the matching field, without the first name when
/// at most one step was taken.
pub open spec fn spec_generated_selection_set_name_path(source: MergedSource, target: TypeInfo, pluralizer: Pluralizer) -> Seq<char> {
    match source.fragment {
        Some(fragment) => spec_name_in_fragment(source, fragment, pluralizer),
        None => {
            let walked = spec_merged_shared_root(source, target);
            let target_index = walked.1;
            let steps = walked.2;
            let fully_qualified = spec_generated_selection_set_name(source.type_info, None, NameFormat::FullyQualified, pluralizer);
            if target_index == 0 {
                fully_qualified
            } else {
                let field_path = spec_field_path(source.type_info);
                let shared_root_index = if field_path.len() >= steps + 1 {
                    field_path.len() - (steps + 1)
                } else {
                    0
                };
                if shared_root_index < field_path.len() {
                    spec_name_from_nodes(target.scope_path@, target_index, None, field_path, Some(shared_root_index), steps <= 1, pluralizer)
                } else {
                    fully_qualified
                }
            }
        },
    }
}

/// Whether the name path of a merged source can be generated: the field path of the
/// source is there wherever the name walks it.
pub open spec fn spec_name_path_defined(source: MergedSource, target: TypeInfo) -> bool {
    match source.fragment {
        Some(_) => source.type_info.scope_path@.len() > 1 ==> source.type_info.entity_location.field_path is Some,
        None => spec_merged_shared_root(source, target).1 != 0 ==> source.type_info.entity_location.field_path is Some,
    }
}

fn generated_selection_set_name_for_merged_entity_in_fragment(
    source: &MergedSource,
    fragment: &FragmentDefinition,
    pluralizer: &Pluralizer,
) -> (r: String)
    requires
        spec_type_info_wf(source.type_info),
        source.type_info.scope_path@.len() > 1 ==> source.type_info.entity_location.field_path is Some,
    ensures
        r@ == spec_name_in_fragment(*source, *fragment, *pluralizer),
{
    let type_path = &source.type_info.scope_path;
    let root_conditions = &type_path[0].scope_path;
    let mut components: Vec<String> = Vec::new();
    push_part(&mut components, generated_fragment_definition_name(fragment.name.as_str()));
    if root_conditions.len() > 1 {
        push_part(&mut components, SelectionSetNameGenerator::condition_path(
            vstd::slice::slice_subrange(root_conditions.as_slice(), 1, root_conditions.len()),
        ));
        proof {
            assert(root_conditions@.subrange(1, root_conditions@.len() as int) =~= root_conditions@.skip(1));
        }
    }
    if type_path.len() > 1 {
        match &source.type_info.entity_location.field_path {
            Some(field_path) => {
                push_part(&mut components, SelectionSetNameGenerator::generated_selection_set_name_from_nodes(
                    type_path.as_slice(),
                    1,
                    None,
                    field_path.as_slice(),
                    Some(0),
                    false,
                    pluralizer,
                ));
            },
            None => {},
        }
    }
    proof {
        let rc = root_conditions@;
        let tp = type_path@;
        assert(views(components@) =~= seq![spec_first_uppercased(fragment.name@)] + (if rc.len() > 1 {
            seq![spec_condition_path(rc.skip(1))]
        } else {
            Seq::empty()
        }) + (if tp.len() > 1 {
            seq![spec_name_from_nodes(tp, 1, None, spec_field_path(source.type_info), Some(0), false, *pluralizer)]
        } else {
            Seq::empty()
        }));
    }
    join_strings(&components, ".")
}

/// Generates the name that a merged source is referred to by from the selection set it is
/// merged into, as `spec_generated_selection_set_name_path` describes.
pub fn generated_selection_set_name_path(source: &MergedSource, target_type_info: &TypeInfo, pluralizer: &Pluralizer) -> (r: String)
    requires
        spec_type_info_wf(source.type_info),
        spec_type_info_wf(*target_type_info),
        spec_name_path_defined(*source, *target_type_info),
    ensures
        r@ == spec_generated_selection_set_name_path(*source, *target_type_info, *pluralizer),
{
    if let Some(fragment) = &source.fragment {
        return generated_selection_set_name_for_merged_entity_in_fragment(source, fragment, pluralizer);
    }
    let source_path = &source.type_info.scope_path;
    let target_path = &target_type_info.scope_path;
    let ghost walked = spec_merged_shared_root(*source, *target_type_info);
    let mut source_index: usize = source_path.len() - 1;
    let mut target_index: usize = target_path.len() - 1;
    let mut steps: usize = 0;
    loop
        invariant
            source_index < source_path@.len(),
            target_index < target_path@.len(),
            steps + source_index == source_path@.len() - 1,
            spec_type_info_wf(source.type_info),
            spec_type_info_wf(*target_type_info),
            source_path@ == source.type_info.scope_path@,
            target_path@ == target_type_info.scope_path@,
            spec_shared_root(source_path@, target_path@, source_index as int, target_index as int, steps as nat) == walked,
        ensures
            walked == (source_index as int, target_index as int, steps as nat),
        decreases source_index,
    {
        if source_index > 0 && target_index > 0 && represents_same_scope(&source_path[source_index], &target_path[target_index]) {
            assert(steps < source_path.len());
            source_index = source_index - 1;
            target_index = target_index - 1;
            steps = steps + 1;
        } else {
            break;
        }
    }
    if target_index == 0 {
        return SelectionSetNameGenerator::generated_selection_set_name_for_merged_source(
            source,
            None,
            NameFormat::FullyQualified,
            pluralizer,
        );
    }
    let field_path = match &source.type_info.entity_location.field_path {
        Some(fp) => fp,
        None => {
            proof {
                assert(false);
            }
            return String::new();
        },
    };
    let shared_root_index: usize = if field_path.len() >= steps + 1 {
        field_path.len() - (steps + 1)
    } else {
        0
    };
    if shared_root_index < field_path.len() {
        SelectionSetNameGenerator::generated_selection_set_name_from_nodes(
            target_path.as_slice(),
            target_index,
            None,
            field_path.as_slice(),
            Some(shared_root_index),
            steps <= 1,
            pluralizer,
        )
    } else {
        SelectionSetNameGenerator::generated_selection_set_name_for_merged_source(
            source,
            None,
            NameFormat::FullyQualified,
            pluralizer,
        )
    }
}

/// The fully qualified names of the selection sets that a merged source fulfills: the name
/// of the root of its entity, then for each further condition of its scope that name
/// followed by the components of the conditions up to it.
pub open spec fn spec_fulfilled_fragment_names(source: MergedSource, pluralizer: Pluralizer) -> Seq<Seq<char>> {
    let last_index = source.type_info.scope_path@.len() - 1;
    let conditions = source.type_info.scope_path@[last_index].scope_path@;
    let root = spec_generated_selection_set_name(
        source.type_info,
        Some((last_index as usize, 0usize)),
        NameFormat::FullyQualified,
        pluralizer,
    );
    Seq::new(
        conditions.len(),
        |k: int|
            join(
                seq![root] + conditions.subrange(1, k + 1).map_values(|c: ScopeCondition| spec_selection_set_name_component(c)),
                "."@,
            ),
    )
}

/// Generates the names of the selection sets that a merged source fulfills, as
/// `spec_fulfilled_fragment_names` describes.
pub fn generated_selection_set_names_of_fulfilled_fragments(source: &MergedSource, pluralizer: &Pluralizer) -> (r: Vec<String>)
    requires
        spec_type_info_wf(source.type_info),
    ensures
        views(r@) == spec_fulfilled_fragment_names(*source, *pluralizer),
{
    let type_path = &source.type_info.scope_path;
    let last_index = type_path.len() - 1;
    let entity_root_name = SelectionSetNameGenerator::generated_selection_set_name_for_merged_source(
        source,
        Some((last_index, 0)),
        NameFormat::FullyQualified,
        pluralizer,
    );
    let conditions = &type_path[last_index].scope_path;
    let ghost cs = conditions@;
    let ghost expected = spec_fulfilled_fragment_names(*source, *pluralizer);
    let ghost root = entity_root_name@;
    assert(cs.len() > 0);
    let mut fulfilled: Vec<String> = Vec::new();
    let mut name_components: Vec<String> = Vec::new();
    push_part(&mut fulfilled, copy_str(entity_root_name.as_str()));
    push_part(&mut name_components, entity_root_name);
    proof {
        assert(cs.subrange(1, 1).map_values(|c: ScopeCondition| spec_selection_set_name_component(c)) =~= Seq::<Seq<char>>::empty());
        assert(views(name_components@) =~= seq![root] + cs.subrange(1, 1).map_values(|c: ScopeCondition| spec_selection_set_name_component(c)));
        assert(views(fulfilled@) =~= expected.take(1));
    }
    let mut k: usize = 1;
    while k < conditions.len()
        invariant
            1 <= k <= cs.len(),
            cs == conditions@,
            expected.len() == cs.len(),
            forall|i: int| 0 <= i < cs.len() ==> #[trigger] expected[i] == join(
                seq![root] + cs.subrange(1, i + 1).map_values(|c: ScopeCondition| spec_selection_set_name_component(c)),
                "."@,
            ),
            views(name_components@) == seq![root] + cs.subrange(1, k as int).map_values(|c: ScopeCondition| spec_selection_set_name_component(c)),
            views(fulfilled@) == expected.take(k as int),
        decreases cs.len() - k,
    {
        push_part(&mut name_components, selection_set_name_component(&conditions[k]));
        proof {
            assert(cs.subrange(1, k + 1) =~= cs.subrange(1, k as int).push(cs[k as int]));
            assert(views(name_components@) =~= seq![root] + cs.subrange(1, k + 1).map_values(|c: ScopeCondition| spec_selection_set_name_component(c)));
        }
        push_part(&mut fulfilled, join_strings(&name_components, "."));
        proof {
            assert(expected[k as int] == join(
                seq![root] + cs.subrange(1, k + 1).map_values(|c: ScopeCondition| spec_selection_set_name_component(c)),
                "."@,
            ));
            assert(views(fulfilled@) =~= expected.take(k + 1));
        }
        k = k + 1;
    }
    proof {
        assert(expected.take(cs.len() as int) =~= expected);
    }
    fulfilled
}

/// The name of the selection set that a selection set only refers to: with no direct
/// selections and exactly one merged source, the name path of that source; otherwise
/// none.
pub open spec fn spec_name_for_referenced_selection_set(
    selection_set: ComputedSelectionSet,
    type_info: TypeInfo,
    pluralizer: Pluralizer,
) -> Option<Seq<char>> {
    if selection_set.direct is Some || type_info.derived_from_merged_sources@.len() != 1 {
        None
    } else {
        Some(spec_generated_selection_set_name_path(type_info.derived_from_merged_sources@[0], type_info, pluralizer))
    }
}

/// Returns the name of the selection set that a selection set only refers to, as
/// `spec_name_for_referenced_selection_set` describes; the type info is that of the
/// selection set.
pub fn name_for_referenced_selection_set(
    selection_set: &ComputedSelectionSet,
    type_info: &TypeInfo,
    config: &ConfigurationContext,
) -> (r: Option<String>)
    requires
        spec_type_info_wf(*type_info),
        selection_set.direct is None && type_info.derived_from_merged_sources@.len() == 1 ==> {
            &&& spec_type_info_wf(type_info.derived_from_merged_sources@[0].type_info)
            &&& spec_name_path_defined(type_info.derived_from_merged_sources@[0], *type_info)
        },
    ensures
        opt_view(r) == spec_name_for_referenced_selection_set(*selection_set, *type_info, config.pluralizer),
{
    if selection_set.direct.is_some() || type_info.derived_from_merged_sources.len() != 1 {
        return None;
    }
    Some(generated_selection_set_name_path(&type_info.derived_from_merged_sources[0], type_info, &config.pluralizer))
}

/// The merging strategy of the intermediate representation that a field merging
/// configuration asks for: each kind of merging that the configuration holds.
pub fn field_merging_to_merging_strategy(fm: FieldMerging) -> (r: MergingStrategy)
    ensures
        r.ancestors == fm.ancestors,
        r.siblings == fm.siblings,
        r.named_fragments == fm.named_fragments,
{
    let mut strategy = MergingStrategy::empty();
    if fm.ancestors {
        strategy.ancestors = true;
    }
    if fm.siblings {
        strategy.siblings = true;
    }
    if fm.named_fragments {
        strategy.named_fragments = true;
    }
    strategy
}

/// The first name that a merged source fulfills is the fully qualified name of the root of
/// its entity, and each one after it is the one before followed by a dot and the name
/// component of one more condition of the source's scope.
pub proof fn law_fulfilled_names_extend_one_condition(source: MergedSource, pluralizer: Pluralizer, k: int)
    requires
        spec_type_info_wf(source.type_info),
        0 <= k < spec_scope(source.type_info).scope_path@.len(),
    ensures
        ({
            let names = spec_fulfilled_fragment_names(source, pluralizer);
            let last_index = source.type_info.scope_path@.len() - 1;
            let conditions = spec_scope(source.type_info).scope_path@;
            &&& names.len() == conditions.len()
            &&& k == 0 ==> names[k] == spec_generated_selection_set_name(
                source.type_info,
                Some((last_index as usize, 0usize)),
                NameFormat::FullyQualified,
                pluralizer,
            )
            &&& k > 0 ==> names[k] == names[k - 1] + "."@ + spec_selection_set_name_component(conditions[k])
        }),
{
    let names = spec_fulfilled_fragment_names(source, pluralizer);
    let last_index = source.type_info.scope_path@.len() - 1;
    let conditions = source.type_info.scope_path@[last_index].scope_path@;
    let root = spec_generated_selection_set_name(
        source.type_info,
        Some((last_index as usize, 0usize)),
        NameFormat::FullyQualified,
        pluralizer,
    );
    let component = |c: ScopeCondition| spec_selection_set_name_component(c);
    if k == 0 {
        assert(conditions.subrange(1, 1).map_values(component) =~= Seq::<Seq<char>>::empty());
        assert(seq![root] + conditions.subrange(1, 1).map_values(component) =~= seq![root]);
    } else {
        let before = seq![root] + conditions.subrange(1, k).map_values(component);
        assert(seq![root] + conditions.subrange(1, k + 1).map_values(component) =~= before.push(
            spec_selection_set_name_component(conditions[k]),
        ));
        lemma_join_push(before, "."@, spec_selection_set_name_component(conditions[k]));
    }
}

} // verus!
