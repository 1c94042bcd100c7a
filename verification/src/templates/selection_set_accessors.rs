//! The accessors of generated selection sets: a property for each field, an accessor for
//! each inline fragment, the `Fragments` container of named fragments, and the
//! initializer that builds a selection set from its fields.
use vstd::prelude::*;

use crate::config::{ApolloCodegenConfiguration, Composition, SwiftKeywords};
use crate::graphql::{spec_inner_type, GraphQLCompositeType, GraphQLType};
use crate::ir::{spec_response_key, ComputedSelectionSet, Field, NamedFragmentSpread, ScopeCondition};
use crate::templates::rendering_helpers::graphql_type_rendered::{rendered, TypeRenderContext};
use crate::templates::rendering_helpers::selection_set_name_generator::{
    compute_generated_selection_set_name,
    defer_condition_rendered_type_name, selection_set_name_component, spec_defer_condition_rendered_type_name,
    spec_selection_set_name_component,
};
use crate::templates::rendering_helpers::string_casing::{first_lowercased, spec_first_lowercased};
use crate::templates::rendering_helpers::string_swift_name_escaping::{
    as_fragment_name, render_as_field_property_name, render_as_initializer_parameter_accessor_name,
    render_as_initializer_parameter_name, spec_alias_if, spec_as_fragment_name, spec_escape_if,
    spec_escape_with_alias_if, spec_rendered_as_property_name,
};
use crate::templates::rendering_helpers::template_blocks::{indent, spec_indent};
use crate::templates::rendering_helpers::template_string_documentation::{
    render_documentation, spec_rendered_documentation,
};
use crate::templates::selection_set_template::{
    contains_deferred_inline_fragment, contains_deferred_named_fragment, data_property_template,
    designated_initializer_template, generated_schema_type_reference, spec_data_property,
    spec_designated_initializer, spec_field_type_name, spec_generated_schema_type_reference,
};
use crate::templates::ConfigurationContext;
use crate::text::{copy_str, join, join_strings, opt_view, push_part, str_eq, views};

verus! {

// ---------------------------------------------------------------------------
// Field accessors
// ---------------------------------------------------------------------------

/// The Swift type of a field's property: optional where asked for and the field is
/// non-null.
pub open spec fn spec_type_name_for_field(f: Field, force_optional: bool, config: ConfigurationContext) -> Seq<char> {
    spec_field_type_name(f, config) + if force_optional && f.type_ is NonNull {
        "?"@
    } else {
        Seq::empty()
    }
}

/// Renders the Swift type of a field's property, as `spec_type_name_for_field` describes.
pub fn type_name_for_field(field: &Field, force_optional: bool, config: &ConfigurationContext) -> (r: String)
    ensures
        r@ == spec_type_name_for_field(*field, force_optional, *config),
{
    let context = TypeRenderContext::SelectionSetField { force_non_null: false };
    let mut r = match &field.selection_set {
        Some(t) => {
            let name = compute_generated_selection_set_name(t, &config.pluralizer);
            rendered(&field.type_, &context, Some(name.as_str()), &config.config)
        },
        None => rendered(&field.type_, &context, None, &config.config),
    };
    if force_optional && !field.type_.is_nullable() {
        r.append("?");
    }
    r
}

/// The property name of a field.
pub open spec fn spec_field_property_name(f: Field, config: ApolloCodegenConfiguration) -> Seq<char> {
    spec_escape_if(spec_rendered_as_property_name(spec_response_key(f), config), SwiftKeywords::FIELD_ACCESSOR_NAMES_TO_ESCAPE@)
}

/// The documentation of a field's property, on lines before it, where it is rendered.
pub open spec fn spec_field_documentation_part(f: Field, config: ConfigurationContext) -> Seq<char> {
    match spec_rendered_documentation(opt_view(f.documentation), config.config) {
        Some(d) => d + "\n"@,
        None => Seq::empty(),
    }
}

/// The deprecation annotation of a deprecated field's property, where deprecated usage is
/// warned about.
pub open spec fn spec_field_deprecation_part(f: Field, config: ConfigurationContext) -> Seq<char> {
    match f.deprecation_reason {
        Some(r) if config.config.options.warnings_on_deprecated_usage == Composition::Include => "@available(*, deprecated, message: \""@
            + r@ + "\")\n"@,
        _ => Seq::empty(),
    }
}

/// The declaration of a field's property: reading the field from the data dictionary, and
/// writing it in a mutable selection set.
pub open spec fn spec_field_declaration(f: Field, access: Seq<char>, is_mutable: bool, config: ConfigurationContext) -> Seq<char> {
    let key = spec_response_key(f);
    access + "var "@ + spec_field_property_name(f, config.config) + ": "@ + spec_type_name_for_field(f, f.conditionally_included, config)
        + if is_mutable {
        " {\n  get { __data[\""@ + key + "\"] }\n  set { __data[\""@ + key + "\"] = newValue }\n}"@
    } else {
        " { __data[\""@ + key + "\"] }"@
    }
}

/// The property of a field: its documentation and deprecation annotation where they are
/// rendered, and its declaration.
pub open spec fn spec_field_accessor(f: Field, access: Seq<char>, is_mutable: bool, config: ConfigurationContext) -> Seq<char> {
    spec_field_documentation_part(f, config) + spec_field_deprecation_part(f, config) + spec_field_declaration(
        f,
        access,
        is_mutable,
        config,
    )
}

fn field_documentation_part(field: &Field, config: &ConfigurationContext) -> (r: String)
    ensures
        r@ == spec_field_documentation_part(*field, *config),
{
    let documentation = match &field.documentation {
        Some(d) => render_documentation(Some(d.as_str()), config),
        None => render_documentation(None, config),
    };
    match documentation {
        Some(d) => {
            let mut r = d;
            r.append("\n");
            r
        },
        None => String::new(),
    }
}

fn field_deprecation_part(field: &Field, config: &ConfigurationContext) -> (r: String)
    ensures
        r@ == spec_field_deprecation_part(*field, *config),
{
    let mut r = String::new();
    if let Some(reason) = &field.deprecation_reason {
        if config.options().warnings_on_deprecated_usage == Composition::Include {
            r.append("@available(*, deprecated, message: \"");
            r.append(reason.as_str());
            r.append("\")\n");
        }
    }
    r
}

fn field_declaration(field: &Field, access: &str, is_mutable: bool, config: &ConfigurationContext) -> (r: String)
    ensures
        r@ == spec_field_declaration(*field, access@, is_mutable, *config),
{
    let key = field.response_key();
    let mut r = String::from_str(access);
    r.append("var ");
    r.append(render_as_field_property_name(key, &config.config).as_str());
    r.append(": ");
    r.append(type_name_for_field(field, field.conditionally_included, config).as_str());
    if is_mutable {
        r.append(" {\n  get { __data[\"");
        r.append(key);
        r.append("\"] }\n  set { __data[\"");
        r.append(key);
        r.append("\"] = newValue }\n}");
    } else {
        r.append(" { __data[\"");
        r.append(key);
        r.append("\"] }");
    }
    r
}

/// Renders the property of a field, as `spec_field_accessor` describes.
pub fn field_accessor_template(field: &Field, access: &str, is_mutable: bool, config: &ConfigurationContext) -> (r: String)
    ensures
        r@ == spec_field_accessor(*field, access@, is_mutable, *config),
{
    let mut r = field_documentation_part(field, config);
    r.append(field_deprecation_part(field, config).as_str());
    r.append(field_declaration(field, access, is_mutable, config).as_str());
    r
}

/// The fields of a computed selection set: its direct fields, if it has direct selections,
/// then its merged fields.
pub open spec fn spec_all_fields(s: ComputedSelectionSet) -> Seq<Field> {
    (match s.direct {
        Some(d) => d.fields@,
        None => Seq::empty(),
    }) + s.merged.fields@
}

/// The number of direct fields of a computed selection set.
pub open spec fn spec_direct_field_count(s: ComputedSelectionSet) -> int {
    match s.direct {
        Some(d) => d.fields@.len() as int,
        None => 0,
    }
}

/// The field properties of a selection set, one per line.
pub open spec fn spec_field_accessors(s: ComputedSelectionSet, access: Seq<char>, is_mutable: bool, config: ConfigurationContext) -> Seq<char> {
    join(spec_all_fields(s).map_values(|f: Field| spec_field_accessor(f, access, is_mutable, config)), "\n"@)
}

/// Renders the field properties of a selection set, as `spec_field_accessors` describes.
pub fn field_accessors_template(
    selection_set: &ComputedSelectionSet,
    access: &str,
    is_mutable: bool,
    config: &ConfigurationContext,
) -> (r: String)
    ensures
        r@ == spec_field_accessors(*selection_set, access@, is_mutable, *config),
{
    let ghost target = spec_all_fields(*selection_set).map_values(|f: Field| spec_field_accessor(f, access@, is_mutable, *config));
    let mut lines: Vec<String> = Vec::new();
    let ghost direct_len: int = spec_direct_field_count(*selection_set);
    if let Some(direct) = &selection_set.direct {
        let mut i: usize = 0;
        while i < direct.fields.len()
            invariant
                i <= direct.fields@.len(),
                selection_set.direct == Some(*direct),
                direct_len == direct.fields@.len(),
                target == spec_all_fields(*selection_set).map_values(|f: Field| spec_field_accessor(f, access@, is_mutable, *config)),
                views(lines@) == target.take(i as int),
            decreases direct.fields.len() - i,
        {
            push_part(&mut lines, field_accessor_template(&direct.fields[i], access, is_mutable, config));
            proof {
                assert(spec_all_fields(*selection_set)[i as int] == direct.fields@[i as int]);
                assert(views(lines@) =~= target.take(i + 1));
            }
            i = i + 1;
        }
    }
    let mut j: usize = 0;
    while j < selection_set.merged.fields.len()
        invariant
            j <= selection_set.merged.fields@.len(),
            direct_len == spec_direct_field_count(*selection_set),
            target == spec_all_fields(*selection_set).map_values(|f: Field| spec_field_accessor(f, access@, is_mutable, *config)),
            views(lines@) == target.take(direct_len + j),
        decreases selection_set.merged.fields.len() - j,
    {
        push_part(&mut lines, field_accessor_template(&selection_set.merged.fields[j], access, is_mutable, config));
        proof {
            assert(spec_all_fields(*selection_set)[direct_len + j] == selection_set.merged.fields@[j as int]);
            assert(views(lines@) =~= target.take(direct_len + j + 1));
        }
        j = j + 1;
    }
    proof {
        assert(target.take(target.len() as int) =~= target);
    }
    join_strings(&lines, "\n")
}

// ---------------------------------------------------------------------------
// Inline fragment accessors
// ---------------------------------------------------------------------------

/// The accessor of an inline fragment, given by the last condition of its scope: nothing
/// for a deferred fragment; otherwise an optional property of the fragment's type.
pub open spec fn spec_inline_fragment_accessor(c: ScopeCondition, access: Seq<char>) -> Seq<char> {
    if c.defer_condition is Some {
        Seq::empty()
    } else {
        let name = spec_selection_set_name_component(c);
        access + "var "@ + spec_first_lowercased(name) + ": "@ + name + "? { _asInlineFragment() }"@
    }
}

/// Renders the accessor of an inline fragment, as `spec_inline_fragment_accessor`
/// describes.
pub fn inline_fragment_accessor_template(scope_condition: &ScopeCondition, access: &str) -> (r: String)
    ensures
        r@ == spec_inline_fragment_accessor(*scope_condition, access@),
{
    if scope_condition.is_deferred() {
        return String::new();
    }
    let name = selection_set_name_component(scope_condition);
    let mut r = String::from_str(access);
    r.append("var ");
    r.append(first_lowercased(name.as_str()).as_str());
    r.append(": ");
    r.append(name.as_str());
    r.append("? { _asInlineFragment() }");
    r
}

/// The accessors of the non-deferred inline fragments, in order.
pub open spec fn spec_inline_fragment_accessor_list(cs: Seq<ScopeCondition>, access: Seq<char>) -> Seq<Seq<char>>
    decreases cs.len(),
{
    if cs.len() == 0 {
        Seq::empty()
    } else {
        spec_inline_fragment_accessor_list(cs.drop_last(), access) + if cs.last().defer_condition is Some {
            Seq::empty()
        } else {
            seq![spec_inline_fragment_accessor(cs.last(), access)]
        }
    }
}

/// Renders the accessors of inline fragments, one per line, skipping deferred fragments.
pub fn inline_fragment_accessors_template(scope_conditions: &[ScopeCondition], access: &str) -> (r: String)
    ensures
        r@ == join(spec_inline_fragment_accessor_list(scope_conditions@, access@), "\n"@),
{
    let ghost cs = scope_conditions@;
    let mut lines: Vec<String> = Vec::new();
    let mut i: usize = 0;
    while i < scope_conditions.len()
        invariant
            i <= cs.len(),
            cs == scope_conditions@,
            views(lines@) == spec_inline_fragment_accessor_list(cs.take(i as int), access@),
        decreases cs.len() - i,
    {
        proof {
            assert(cs.take(i + 1).drop_last() =~= cs.take(i as int));
            assert(cs.take(i + 1).last() == cs[i as int]);
        }
        let accessor = inline_fragment_accessor_template(&scope_conditions[i], access);
        if !accessor.as_str().is_empty() {
            push_part(&mut lines, accessor);
        }
        proof {
            if cs[i as int].defer_condition is None {
                let name = spec_selection_set_name_component(cs[i as int]);
                assert(accessor@.len() > 0) by {
                    assert(spec_inline_fragment_accessor(cs[i as int], access@) =~= access@ + ("var "@ + spec_first_lowercased(name) + ": "@ + name + "? { _asInlineFragment() }"@));
                    assert(("var "@ + spec_first_lowercased(name) + ": "@ + name + "? { _asInlineFragment() }"@).len() > 0) by {
                        reveal_strlit("? { _asInlineFragment() }");
                    }
                }
            }
            assert(views(lines@) =~= spec_inline_fragment_accessor_list(cs.take(i + 1), access@));
        }
        i = i + 1;
    }
    proof {
        assert(cs.take(cs.len() as int) =~= cs);
    }
    join_strings(&lines, "\n")
}

// ---------------------------------------------------------------------------
// Named fragment accessors
// ---------------------------------------------------------------------------

/// The accessor of a deferred fragment.
pub open spec fn spec_deferred_fragment_accessor(property_name: Seq<char>, swift_type: Seq<char>) -> Seq<char> {
    "@Deferred public var "@ + property_name + ": "@ + swift_type + "?"@
}

/// Renders the accessor of a deferred fragment, as `spec_deferred_fragment_accessor`
/// describes.
pub fn deferred_fragment_accessor_template(property_name: &str, swift_type: &str) -> (r: String)
    ensures
        r@ == spec_deferred_fragment_accessor(property_name@, swift_type@),
{
    let mut r = String::from_str("@Deferred public var ");
    r.append(property_name);
    r.append(": ");
    r.append(swift_type);
    r.append("?");
    r
}

/// The accessor of a named fragment: the deferred accessor for a deferred spread;
/// otherwise a property converting the data to the fragment, optional when the spread is
/// conditionally included, and writable in a mutable selection set.
pub open spec fn spec_named_fragment_accessor(f: NamedFragmentSpread, access: Seq<char>, is_mutable: bool) -> Seq<char> {
    let property_name = spec_first_lowercased(f.fragment_name@);
    let swift_type = spec_as_fragment_name(f.fragment_name@);
    let optional = if f.conditionally_included {
        "?"@
    } else {
        Seq::empty()
    };
    if f.defer_condition is Some {
        spec_deferred_fragment_accessor(property_name, swift_type)
    } else if is_mutable {
        access + "var "@ + property_name + ": "@ + swift_type + optional + " {\n  get { _toFragment() }\n  _modify { var f = "@
            + property_name + "; yield &f; "@ + (if f.conditionally_included {
            "if let newData = f?.__data { __data = newData }"@
        } else {
            "__data = f.__data"@
        }) + " }\n}"@
    } else {
        access + "var "@ + property_name + ": "@ + swift_type + optional + " { _toFragment() }"@
    }
}

/// Renders the accessor of a named fragment, as `spec_named_fragment_accessor` describes.
pub fn named_fragment_accessor_template(fragment: &NamedFragmentSpread, access: &str, is_mutable: bool) -> (r: String)
    ensures
        r@ == spec_named_fragment_accessor(*fragment, access@, is_mutable),
{
    let property_name = first_lowercased(fragment.fragment_name.as_str());
    let swift_type = as_fragment_name(fragment.fragment_name.as_str());
    if fragment.defer_condition.is_some() {
        return deferred_fragment_accessor_template(property_name.as_str(), swift_type.as_str());
    }
    let mut r = String::from_str(access);
    r.append("var ");
    r.append(property_name.as_str());
    r.append(": ");
    r.append(swift_type.as_str());
    if fragment.conditionally_included {
        r.append("?");
    }
    if is_mutable {
        r.append(" {\n  get { _toFragment() }\n  _modify { var f = ");
        r.append(property_name.as_str());
        r.append("; yield &f; ");
        r.append(
            if fragment.conditionally_included {
                "if let newData = f?.__data { __data = newData }"
            } else {
                "__data = f.__data"
            },
        );
        r.append(" }\n}");
    } else {
        r.append(" { _toFragment() }");
    }
    r
}

// ---------------------------------------------------------------------------
// The Fragments container
// ---------------------------------------------------------------------------

/// Whether any of the inline fragments is deferred.
pub open spec fn spec_any_deferred_inline(cs: Seq<ScopeCondition>) -> bool {
    exists|i: int| 0 <= i < cs.len() && (#[trigger] cs[i]).defer_condition.is_some()
}

/// Whether any of the named fragment spreads is deferred.
pub open spec fn spec_any_deferred_named(fs: Seq<NamedFragmentSpread>) -> bool {
    exists|i: int| 0 <= i < fs.len() && (#[trigger] fs[i]).defer_condition.is_some()
}

/// Whether a selection set has a deferred fragment among its direct or merged selections.
pub open spec fn spec_has_deferred_fragment(s: ComputedSelectionSet) -> bool {
    ||| (match s.direct {
        Some(d) => spec_any_deferred_inline(d.inline_fragments@) || spec_any_deferred_named(d.named_fragments@),
        None => false,
    })
    ||| spec_any_deferred_inline(s.merged.inline_fragments@)
    ||| spec_any_deferred_named(s.merged.named_fragments@)
}

/// The statements that set up the deferred inline fragments, one per deferred fragment.
pub open spec fn spec_inline_deferred_inits(cs: Seq<ScopeCondition>) -> Seq<Seq<char>>
    decreases cs.len(),
{
    if cs.len() == 0 {
        Seq::empty()
    } else {
        spec_inline_deferred_inits(cs.drop_last()) + match cs.last().defer_condition {
            Some(d) => seq!["_"@ + d.label@ + " = Deferred(_dataDict: _dataDict)"@],
            None => Seq::empty(),
        }
    }
}

/// The statements that set up the deferred named fragments, one per deferred spread.
pub open spec fn spec_named_deferred_inits(fs: Seq<NamedFragmentSpread>) -> Seq<Seq<char>>
    decreases fs.len(),
{
    if fs.len() == 0 {
        Seq::empty()
    } else {
        spec_named_deferred_inits(fs.drop_last()) + if fs.last().defer_condition is Some {
            seq!["_"@ + spec_first_lowercased(fs.last().fragment_name@) + " = Deferred(_dataDict: _dataDict)"@]
        } else {
            Seq::empty()
        }
    }
}

/// The set-up statements of the deferred fragments: the direct inline fragments, the
/// direct named fragments, then the merged named fragments.
pub open spec fn spec_deferred_inits(s: ComputedSelectionSet) -> Seq<Seq<char>> {
    (match s.direct {
        Some(d) => spec_inline_deferred_inits(d.inline_fragments@) + spec_named_deferred_inits(d.named_fragments@),
        None => Seq::empty(),
    }) + spec_named_deferred_inits(s.merged.named_fragments@)
}

/// The initializer of the `Fragments` container: the designated initializer, setting up
/// the deferred fragments when there are any.
pub open spec fn spec_fragment_initializer(s: ComputedSelectionSet, access: Seq<char>) -> Seq<char> {
    if !spec_has_deferred_fragment(s) {
        spec_designated_initializer(access, None)
    } else {
        spec_designated_initializer(access, Some(join(spec_deferred_inits(s), "\n"@)))
    }
}

fn push_inline_deferred_inits(parts: &mut Vec<String>, cs: &[ScopeCondition])
    ensures
        views(final(parts)@) == views(old(parts)@) + spec_inline_deferred_inits(cs@),
{
    let ghost start = views(parts@);
    let mut i: usize = 0;
    while i < cs.len()
        invariant
            i <= cs@.len(),
            views(parts@) == start + spec_inline_deferred_inits(cs@.take(i as int)),
        decreases cs.len() - i,
    {
        proof {
            assert(cs@.take(i + 1).drop_last() =~= cs@.take(i as int));
            assert(cs@.take(i + 1).last() == cs@[i as int]);
        }
        if let Some(d) = &cs[i].defer_condition {
            let mut line = String::from_str("_");
            line.append(d.label.as_str());
            line.append(" = Deferred(_dataDict: _dataDict)");
            push_part(parts, line);
        }
        proof {
            assert(views(parts@) =~= start + spec_inline_deferred_inits(cs@.take(i + 1)));
        }
        i = i + 1;
    }
    proof {
        assert(cs@.take(cs@.len() as int) =~= cs@);
    }
}

fn push_named_deferred_inits(parts: &mut Vec<String>, fs: &[NamedFragmentSpread])
    ensures
        views(final(parts)@) == views(old(parts)@) + spec_named_deferred_inits(fs@),
{
    let ghost start = views(parts@);
    let mut i: usize = 0;
    while i < fs.len()
        invariant
            i <= fs@.len(),
            views(parts@) == start + spec_named_deferred_inits(fs@.take(i as int)),
        decreases fs.len() - i,
    {
        proof {
            assert(fs@.take(i + 1).drop_last() =~= fs@.take(i as int));
            assert(fs@.take(i + 1).last() == fs@[i as int]);
        }
        if fs[i].defer_condition.is_some() {
            let mut line = String::from_str("_");
            line.append(first_lowercased(fs[i].fragment_name.as_str()).as_str());
            line.append(" = Deferred(_dataDict: _dataDict)");
            push_part(parts, line);
        }
        proof {
            assert(views(parts@) =~= start + spec_named_deferred_inits(fs@.take(i + 1)));
        }
        i = i + 1;
    }
    proof {
        assert(fs@.take(fs@.len() as int) =~= fs@);
    }
}

/// Renders the initializer of the `Fragments` container, as `spec_fragment_initializer`
/// describes.
pub fn fragment_initializer_template(selection_set: &ComputedSelectionSet, access: &str) -> (r: String)
    ensures
        r@ == spec_fragment_initializer(*selection_set, access@),
{
    let direct_deferred = match &selection_set.direct {
        Some(d) => contains_deferred_inline_fragment(d.inline_fragments.as_slice())
            || contains_deferred_named_fragment(d.named_fragments.as_slice()),
        None => false,
    };
    let has_deferred = direct_deferred || contains_deferred_inline_fragment(selection_set.merged.inline_fragments.as_slice())
        || contains_deferred_named_fragment(selection_set.merged.named_fragments.as_slice());
    if !has_deferred {
        return designated_initializer_template(access, None);
    }
    let mut inits: Vec<String> = Vec::new();
    if let Some(d) = &selection_set.direct {
        push_inline_deferred_inits(&mut inits, d.inline_fragments.as_slice());
        push_named_deferred_inits(&mut inits, d.named_fragments.as_slice());
    }
    push_named_deferred_inits(&mut inits, selection_set.merged.named_fragments.as_slice());
    proof {
        assert(views(inits@) =~= spec_deferred_inits(*selection_set));
    }
    let joined = join_strings(&inits, "\n");
    designated_initializer_template(access, Some(joined.as_str()))
}

/// The accessors of the inline fragments that are deferred.
pub open spec fn spec_deferred_inline_accessors(cs: Seq<ScopeCondition>) -> Seq<Seq<char>>
    decreases cs.len(),
{
    if cs.len() == 0 {
        Seq::empty()
    } else {
        spec_deferred_inline_accessors(cs.drop_last()) + match cs.last().defer_condition {
            Some(d) => seq![spec_deferred_fragment_accessor(d.label@, spec_defer_condition_rendered_type_name(d.label@))],
            None => Seq::empty(),
        }
    }
}

/// The accessors of the `Fragments` container: the direct named fragments, the merged
/// named fragments, then the deferred direct inline fragments.
pub open spec fn spec_fragment_accessor_list(s: ComputedSelectionSet, access: Seq<char>, is_mutable: bool) -> Seq<Seq<char>> {
    (match s.direct {
        Some(d) => d.named_fragments@.map_values(|f: NamedFragmentSpread| spec_named_fragment_accessor(f, access, is_mutable)),
        None => Seq::empty(),
    }) + s.merged.named_fragments@.map_values(|f: NamedFragmentSpread| spec_named_fragment_accessor(f, access, is_mutable))
        + match s.direct {
        Some(d) => spec_deferred_inline_accessors(d.inline_fragments@),
        None => Seq::empty(),
    }
}

/// Whether a selection set spreads no named fragment directly.
pub open spec fn spec_no_direct_named(s: ComputedSelectionSet) -> bool {
    match s.direct {
        Some(d) => d.named_fragments@.len() == 0,
        None => true,
    }
}

/// Whether one of the direct inline fragments of a selection set is deferred.
pub open spec fn spec_direct_deferred_inline(s: ComputedSelectionSet) -> bool {
    match s.direct {
        Some(d) => spec_any_deferred_inline(d.inline_fragments@),
        None => false,
    }
}

/// The `Fragments` container of a selection set: nothing when it spreads no named fragment
/// and has no deferred inline fragment; otherwise its data property, its initializer and
/// its accessors, indented.
pub open spec fn spec_fragment_accessors(s: ComputedSelectionSet, access: Seq<char>, is_mutable: bool) -> Seq<char> {
    if spec_no_direct_named(s) && s.merged.named_fragments@.len() == 0 && !spec_direct_deferred_inline(s) {
        Seq::empty()
    } else {
        let accessors = spec_fragment_accessor_list(s, access, is_mutable);
        let inner = spec_data_property(access, is_mutable) + "\n"@ + spec_fragment_initializer(s, access) + if accessors.len() > 0 {
            "\n\n"@ + join(accessors, "\n"@)
        } else {
            Seq::empty()
        };
        access + "struct Fragments: FragmentContainer {\n"@ + spec_indent(inner, 2) + "\n}"@
    }
}

fn push_named_accessors(parts: &mut Vec<String>, fs: &[NamedFragmentSpread], access: &str, is_mutable: bool)
    ensures
        views(final(parts)@) == views(old(parts)@) + fs@.map_values(
            |f: NamedFragmentSpread| spec_named_fragment_accessor(f, access@, is_mutable),
        ),
{
    let ghost start = views(parts@);
    let ghost target = fs@.map_values(|f: NamedFragmentSpread| spec_named_fragment_accessor(f, access@, is_mutable));
    let mut i: usize = 0;
    while i < fs.len()
        invariant
            i <= fs@.len(),
            target == fs@.map_values(|f: NamedFragmentSpread| spec_named_fragment_accessor(f, access@, is_mutable)),
            views(parts@) == start + target.take(i as int),
        decreases fs.len() - i,
    {
        push_part(parts, named_fragment_accessor_template(&fs[i], access, is_mutable));
        proof {
            assert(views(parts@) =~= start + target.take(i + 1));
        }
        i = i + 1;
    }
    proof {
        assert(target.take(fs@.len() as int) =~= target);
    }
}

fn push_deferred_inline_accessors(parts: &mut Vec<String>, cs: &[ScopeCondition])
    ensures
        views(final(parts)@) == views(old(parts)@) + spec_deferred_inline_accessors(cs@),
{
    let ghost start = views(parts@);
    let mut i: usize = 0;
    while i < cs.len()
        invariant
            i <= cs@.len(),
            views(parts@) == start + spec_deferred_inline_accessors(cs@.take(i as int)),
        decreases cs.len() - i,
    {
        proof {
            assert(cs@.take(i + 1).drop_last() =~= cs@.take(i as int));
            assert(cs@.take(i + 1).last() == cs@[i as int]);
        }
        if let Some(d) = &cs[i].defer_condition {
            let swift_type = defer_condition_rendered_type_name(d);
            push_part(parts, deferred_fragment_accessor_template(d.label.as_str(), swift_type.as_str()));
        }
        proof {
            assert(views(parts@) =~= start + spec_deferred_inline_accessors(cs@.take(i + 1)));
        }
        i = i + 1;
    }
    proof {
        assert(cs@.take(cs@.len() as int) =~= cs@);
    }
}

/// Renders the `Fragments` container of a selection set, as `spec_fragment_accessors`
/// describes.
pub fn fragment_accessors_template(selection_set: &ComputedSelectionSet, access: &str, is_mutable: bool) -> (r: String)
    ensures
        r@ == spec_fragment_accessors(*selection_set, access@, is_mutable),
{
    let no_direct_named = match &selection_set.direct {
        Some(d) => d.named_fragments.len() == 0,
        None => true,
    };
    let deferred_inline = match &selection_set.direct {
        Some(d) => contains_deferred_inline_fragment(d.inline_fragments.as_slice()),
        None => false,
    };
    if no_direct_named && selection_set.merged.named_fragments.len() == 0 && !deferred_inline {
        return String::new();
    }
    let mut inner = data_property_template(access, is_mutable);
    inner.append("\n");
    inner.append(fragment_initializer_template(selection_set, access).as_str());
    let mut accessors: Vec<String> = Vec::new();
    if let Some(d) = &selection_set.direct {
        push_named_accessors(&mut accessors, d.named_fragments.as_slice(), access, is_mutable);
    }
    push_named_accessors(&mut accessors, selection_set.merged.named_fragments.as_slice(), access, is_mutable);
    if let Some(d) = &selection_set.direct {
        push_deferred_inline_accessors(&mut accessors, d.inline_fragments.as_slice());
    }
    proof {
        assert(views(accessors@) =~= spec_fragment_accessor_list(*selection_set, access@, is_mutable));
        assert(views(accessors@).len() == accessors@.len());
        assert(spec_no_direct_named(*selection_set) == no_direct_named);
        assert(spec_direct_deferred_inline(*selection_set) == deferred_inline);
    }
    if accessors.len() > 0 {
        inner.append("\n\n");
        inner.append(join_strings(&accessors, "\n").as_str());
    }
    proof {
        let list = spec_fragment_accessor_list(*selection_set, access@, is_mutable);
        assert(inner@ == spec_data_property(access@, is_mutable) + "\n"@ + spec_fragment_initializer(*selection_set, access@) + if list.len() > 0 {
            "\n\n"@ + join(list, "\n"@)
        } else {
            Seq::empty()
        });
    }
    let mut r = String::from_str(access);
    r.append("struct Fragments: FragmentContainer {\n");
    r.append(indent(inner.as_str(), 2).as_str());
    r.append("\n}");
    r
}

// ---------------------------------------------------------------------------
// Initializer
// ---------------------------------------------------------------------------

/// Whether a field's initializer parameter is optional: the field is nullable or
/// conditionally included.
pub open spec fn spec_parameter_is_optional(f: Field) -> bool {
    !(f.type_ is NonNull) || f.conditionally_included
}

/// The initializer parameter of a field: its name, its type, and a `nil` default when it
/// is optional.
pub open spec fn spec_initializer_parameter(f: Field, config: ConfigurationContext) -> Seq<char> {
    let optional = spec_parameter_is_optional(f);
    spec_escape_with_alias_if(spec_rendered_as_property_name(spec_response_key(f), config.config), SwiftKeywords::FIELD_ACCESSOR_NAMES_TO_ESCAPE@)
        + ": "@ + spec_type_name_for_field(f, optional, config) + if optional {
        " = nil"@
    } else {
        Seq::empty()
    }
}

/// Renders the initializer parameter of a field, as `spec_initializer_parameter`
/// describes.
pub fn initializer_parameter_template(field: &Field, config: &ConfigurationContext) -> (r: String)
    ensures
        r@ == spec_initializer_parameter(*field, *config),
{
    let optional = field.type_.is_nullable() || field.conditionally_included;
    let mut r = render_as_initializer_parameter_name(field.response_key(), &config.config);
    r.append(": ");
    r.append(type_name_for_field(field, optional, config).as_str());
    if optional {
        r.append(" = nil");
    }
    r
}

/// The initializer parameters of a selection set: `__typename` unless its type is an
/// object type, then one per field, separated by commas on lines of their own.
pub open spec fn spec_initializer_parameters(s: ComputedSelectionSet, config: ConfigurationContext) -> Seq<char> {
    join(
        (if s.parent_type is Object {
            Seq::empty()
        } else {
            seq!["__typename: String"@]
        }) + spec_all_fields(s).map_values(|f: Field| spec_initializer_parameter(f, config)),
        ",\n  "@,
    )
}

/// Appends one rendered piece per field of the selection set, made by `piece`.
fn push_field_parts_direct_then_merged(
    parts: &mut Vec<String>,
    selection_set: &ComputedSelectionSet,
    config: &ConfigurationContext,
    as_parameter: bool,
)
    ensures
        views(final(parts)@) == views(old(parts)@) + spec_all_fields(*selection_set).map_values(
            |f: Field| if as_parameter {
                spec_initializer_parameter(f, *config)
            } else {
                spec_data_dict_field(f, config.config)
            },
        ),
{
    let ghost start = views(parts@);
    let ghost target = spec_all_fields(*selection_set).map_values(
        |f: Field| if as_parameter {
            spec_initializer_parameter(f, *config)
        } else {
            spec_data_dict_field(f, config.config)
        },
    );
    let ghost direct_len = spec_direct_field_count(*selection_set);
    if let Some(direct) = &selection_set.direct {
        let mut i: usize = 0;
        while i < direct.fields.len()
            invariant
                i <= direct.fields@.len(),
                selection_set.direct == Some(*direct),
                direct_len == direct.fields@.len(),
                target == spec_all_fields(*selection_set).map_values(
                    |f: Field| if as_parameter {
                        spec_initializer_parameter(f, *config)
                    } else {
                        spec_data_dict_field(f, config.config)
                    },
                ),
                views(parts@) == start + target.take(i as int),
            decreases direct.fields.len() - i,
        {
            let part = if as_parameter {
                initializer_parameter_template(&direct.fields[i], config)
            } else {
                initializer_data_dict_field_template(&direct.fields[i], &config.config)
            };
            push_part(parts, part);
            proof {
                assert(spec_all_fields(*selection_set)[i as int] == direct.fields@[i as int]);
                assert(views(parts@) =~= start + target.take(i + 1));
            }
            i = i + 1;
        }
    }
    let mut j: usize = 0;
    while j < selection_set.merged.fields.len()
        invariant
            j <= selection_set.merged.fields@.len(),
            direct_len == spec_direct_field_count(*selection_set),
            target == spec_all_fields(*selection_set).map_values(
                |f: Field| if as_parameter {
                    spec_initializer_parameter(f, *config)
                } else {
                    spec_data_dict_field(f, config.config)
                },
            ),
            views(parts@) == start + target.take(direct_len + j),
        decreases selection_set.merged.fields.len() - j,
    {
        let part = if as_parameter {
            initializer_parameter_template(&selection_set.merged.fields[j], config)
        } else {
            initializer_data_dict_field_template(&selection_set.merged.fields[j], &config.config)
        };
        push_part(parts, part);
        proof {
            assert(spec_all_fields(*selection_set)[direct_len + j] == selection_set.merged.fields@[j as int]);
            assert(views(parts@) =~= start + target.take(direct_len + j + 1));
        }
        j = j + 1;
    }
    proof {
        assert(target.take(target.len() as int) =~= target);
    }
}

/// Renders the initializer parameters of a selection set, as
/// `spec_initializer_parameters` describes.
pub fn initializer_selection_parameters_template(selection_set: &ComputedSelectionSet, config: &ConfigurationContext) -> (r: String)
    ensures
        r@ == spec_initializer_parameters(*selection_set, *config),
{
    let mut parts: Vec<String> = Vec::new();
    match &selection_set.parent_type {
        GraphQLCompositeType::Object(_) => {},
        _ => push_part(&mut parts, String::from_str("__typename: String")),
    }
    let ghost head: Seq<Seq<char>> = if selection_set.parent_type is Object {
        Seq::empty()
    } else {
        seq!["__typename: String"@]
    };
    proof {
        assert(views(parts@) =~= head);
    }
    push_field_parts_direct_then_merged(&mut parts, selection_set, config, true);
    proof {
        assert(spec_all_fields(*selection_set).map_values(
            |f: Field| if true {
                spec_initializer_parameter(f, *config)
            } else {
                spec_data_dict_field(f, config.config)
            },
        ) =~= spec_all_fields(*selection_set).map_values(|f: Field| spec_initializer_parameter(f, *config)));
        assert(views(parts@) =~= head + spec_all_fields(*selection_set).map_values(|f: Field| spec_initializer_parameter(f, *config)));
    }
    join_strings(&parts, ",\n  ")
}

/// The entry of a field in the data dictionary of the initializer: the parameter's value,
/// as field data for a field of a composite type.
pub open spec fn spec_data_dict_field(f: Field, config: ApolloCodegenConfiguration) -> Seq<char> {
    let key = spec_response_key(f);
    "\""@ + key + "\": "@ + spec_alias_if(spec_rendered_as_property_name(key, config), SwiftKeywords::FIELD_ACCESSOR_NAMES_TO_ESCAPE@)
        + (if spec_inner_type(f.type_) is Entity {
        "._fieldData"@
    } else {
        Seq::empty()
    }) + ","@
}

/// A field's entry in the data dictionary depends on its type only through the named type
/// inside its list and non-null wrappers; a field of an entity type, listed or not, passes
/// its value as `._fieldData`, and otherwise its entry is the same with `._fieldData` left
/// out.
pub proof fn law_data_dict_entity_fields_pass_field_data(f: Field, g: Field, config: ApolloCodegenConfiguration)
    requires
        f.name == g.name,
        f.alias == g.alias,
    ensures
        spec_inner_type(f.type_) == spec_inner_type(g.type_) ==> spec_data_dict_field(f, config) == spec_data_dict_field(g, config),
        spec_inner_type(f.type_) is Entity ==> {
            let e = spec_data_dict_field(f, config);
            &&& e.len() >= 12
            &&& e.skip(e.len() - 12) == "._fieldData,"@
        },
        spec_inner_type(g.type_) is Entity && !(spec_inner_type(f.type_) is Entity) ==>
            spec_data_dict_field(g, config) == spec_data_dict_field(f, config).drop_last() + "._fieldData,"@,
{
    reveal_strlit("._fieldData,");
    reveal_strlit("._fieldData");
    reveal_strlit(",");
    let e = spec_data_dict_field(f, config);
    let base = "\""@ + spec_response_key(f) + "\": "@
        + spec_alias_if(spec_rendered_as_property_name(spec_response_key(f), config), SwiftKeywords::FIELD_ACCESSOR_NAMES_TO_ESCAPE@);
    if spec_inner_type(f.type_) is Entity {
        assert(e =~= base + "._fieldData,"@);
        assert(e.skip(e.len() - 12) =~= "._fieldData,"@);
    } else {
        assert(e =~= base + ","@);
        assert(e.drop_last() =~= base);
        if spec_inner_type(g.type_) is Entity {
            assert(spec_data_dict_field(g, config) =~= base + "._fieldData,"@);
        }
    }
}

/// Renders the entry of a field in the data dictionary, as `spec_data_dict_field`
/// describes.
pub fn initializer_data_dict_field_template(field: &Field, config: &ApolloCodegenConfiguration) -> (r: String)
    ensures
        r@ == spec_data_dict_field(*field, *config),
{
    let key = field.response_key();
    let mut r = String::from_str("\"");
    r.append(key);
    r.append("\": ");
    r.append(render_as_initializer_parameter_accessor_name(key, config).as_str());
    match field.type_.inner_type() {
        GraphQLType::Entity(_) => r.append("._fieldData"),
        _ => {},
    }
    r.append(",");
    r
}

/// The data dictionary of the initializer: the `__typename` entry (the object type's
/// typename for an object type, the parameter otherwise), then one entry per field.
pub open spec fn spec_data_dict(s: ComputedSelectionSet, config: ConfigurationContext) -> Seq<char> {
    join(
        seq![
            if s.parent_type is Object {
                "\"__typename\": "@ + spec_generated_schema_type_reference(config.config.schema_namespace@, s.parent_type)
                    + ".typename,"@
            } else {
                "\"__typename\": __typename,"@
            },
        ] + spec_all_fields(s).map_values(|f: Field| spec_data_dict_field(f, config.config)),
        "\n      "@,
    )
}

/// Renders the data dictionary of the initializer, as `spec_data_dict` describes.
pub fn initializer_data_dict_template(selection_set: &ComputedSelectionSet, config: &ConfigurationContext) -> (r: String)
    ensures
        r@ == spec_data_dict(*selection_set, *config),
{
    let mut parts: Vec<String> = Vec::new();
    let first = match &selection_set.parent_type {
        GraphQLCompositeType::Object(_) => {
            let mut t = String::from_str("\"__typename\": ");
            t.append(generated_schema_type_reference(config, &selection_set.parent_type).as_str());
            t.append(".typename,");
            t
        },
        _ => String::from_str("\"__typename\": __typename,"),
    };
    proof {
        assert(first@ == if selection_set.parent_type is Object {
            "\"__typename\": "@ + spec_generated_schema_type_reference(config.config.schema_namespace@, selection_set.parent_type)
                + ".typename,"@
        } else {
            "\"__typename\": __typename,"@
        });
    }
    let ghost first_view = first@;
    push_part(&mut parts, first);
    let ghost head = views(parts@);
    proof {
        assert(head =~= seq![first_view]);
    }
    push_field_parts_direct_then_merged(&mut parts, selection_set, config, false);
    proof {
        assert(spec_all_fields(*selection_set).map_values(
            |f: Field| if false {
                spec_initializer_parameter(f, *config)
            } else {
                spec_data_dict_field(f, config.config)
            },
        ) =~= spec_all_fields(*selection_set).map_values(|f: Field| spec_data_dict_field(f, config.config)));
        assert(views(parts@) =~= head + spec_all_fields(*selection_set).map_values(|f: Field| spec_data_dict_field(f, config.config)));
    }
    join_strings(&parts, "\n      ")
}

/// The names that occur in `names`, each once, in the order of their first occurrence.
pub open spec fn spec_unique_names(names: Seq<Seq<char>>) -> Seq<Seq<char>>
    decreases names.len(),
{
    if names.len() == 0 {
        Seq::empty()
    } else {
        spec_unique_names(names.drop_last()) + if names.drop_last().contains(names.last()) {
            Seq::empty()
        } else {
            seq![names.last()]
        }
    }
}

/// Deduplicating names keeps each name that occurs exactly once: the result holds no name
/// twice, and holds a name just when the input does.
pub proof fn law_unique_names_keep_each_name_once(names: Seq<Seq<char>>)
    ensures
        spec_unique_names(names).no_duplicates(),
        forall|x: Seq<char>| spec_unique_names(names).contains(x) <==> names.contains(x),
    decreases names.len(),
{
    if names.len() > 0 {
        let prev = names.drop_last();
        let last = names.last();
        law_unique_names_keep_each_name_once(prev);
        let u = spec_unique_names(prev);
        assert forall|x: Seq<char>| spec_unique_names(names).contains(x) <==> names.contains(x) by {
            if names.contains(x) {
                let k = choose|k: int| 0 <= k < names.len() && names[k] == x;
                if k < names.len() - 1 {
                    assert(prev[k] == x);
                    assert(prev.contains(x));
                    assert(u.contains(x));
                    let m = choose|m: int| 0 <= m < u.len() && u[m] == x;
                    assert(spec_unique_names(names)[m] == x);
                } else if !prev.contains(last) {
                    assert(spec_unique_names(names)[u.len() as int] == x);
                } else {
                    assert(x == last);
                    assert(prev.contains(x));
                    assert(u.contains(x));
                    let m = choose|m: int| 0 <= m < u.len() && u[m] == x;
                    assert(spec_unique_names(names)[m] == x);
                }
            }
            if spec_unique_names(names).contains(x) {
                let m = choose|m: int| 0 <= m < spec_unique_names(names).len() && spec_unique_names(names)[m] == x;
                if m < u.len() {
                    assert(u[m] == x);
                    assert(prev.contains(x));
                    let k = choose|k: int| 0 <= k < prev.len() && prev[k] == x;
                    assert(names[k] == x);
                } else {
                    assert(x == last);
                    assert(names[names.len() - 1] == x);
                }
            }
        }
        if !prev.contains(last) {
            assert(!u.contains(last));
            assert(spec_unique_names(names) =~= u.push(last));
            assert(spec_unique_names(names).no_duplicates()) by {
                assert forall|i: int, j: int| 0 <= i < j < u.len() + 1 implies spec_unique_names(names)[i] != spec_unique_names(names)[j] by {
                    if j == u.len() {
                        assert(u[i] != last) by {
                            if u[i] == last {
                                assert(u.contains(last));
                            }
                        }
                    }
                }
            }
        } else {
            assert(spec_unique_names(names) =~= u);
        }
    }
}

/// The fragments that a selection set fulfills, each once, as object identifiers.
pub open spec fn spec_fulfilled_fragments(names: Seq<Seq<char>>) -> Seq<char> {
    "[\n      "@ + join(
        spec_unique_names(names).map_values(|n: Seq<char>| "ObjectIdentifier("@ + n + ".self)"@),
        ",\n      "@,
    ) + "\n    ]"@
}

/// Renders the fragments that a selection set fulfills, given the generated names of the
/// selection sets it fulfills in the order they are found, as `spec_fulfilled_fragments`
/// describes.
pub fn initializer_fulfilled_fragments(names: &[String]) -> (r: String)
    ensures
        r@ == spec_fulfilled_fragments(views(names@)),
{
    let ghost all = views(names@);
    let mut seen: Vec<String> = Vec::new();
    let mut i: usize = 0;
    while i < names.len()
        invariant
            i <= all.len(),
            all == views(names@),
            views(seen@) == spec_unique_names(all.take(i as int)),
        decreases all.len() - i,
    {
        let mut found = false;
        let mut k: usize = 0;
        while k < i
            invariant
                k <= i < names@.len(),
                all == views(names@),
                found == exists|m: int| 0 <= m < k && #[trigger] all[m] == all[i as int],
            decreases i - k,
        {
            proof {
                assert(all[k as int] == names@[k as int]@);
                assert(all[i as int] == names@[i as int]@);
            }
            if str_eq(names[k].as_str(), names[i].as_str()) {
                found = true;
            }
            k = k + 1;
        }
        let ghost prefix = all.take(i + 1);
        proof {
            assert(prefix.drop_last() =~= all.take(i as int));
            assert(prefix.last() == all[i as int]);
            assert(found == all.take(i as int).contains(all[i as int])) by {
                if found {
                    let m = choose|m: int| 0 <= m < i && #[trigger] all[m] == all[i as int];
                    assert(all.take(i as int)[m] == all[i as int]);
                }
                if all.take(i as int).contains(all[i as int]) {
                    let m = choose|m: int| 0 <= m < i && all.take(i as int)[m] == all[i as int];
                    assert(all[m] == all[i as int]);
                }
            }
        }
        if !found {
            push_part(&mut seen, copy_str(names[i].as_str()));
        }
        proof {
            assert(all[i as int] == names@[i as int]@);
            assert(views(seen@) =~= spec_unique_names(prefix));
        }
        i = i + 1;
    }
    proof {
        assert(all.take(all.len() as int) =~= all);
    }
    let ghost items = views(seen@).map_values(|n: Seq<char>| "ObjectIdentifier("@ + n + ".self)"@);
    let mut parts: Vec<String> = Vec::new();
    let mut j: usize = 0;
    while j < seen.len()
        invariant
            j <= seen@.len(),
            items == views(seen@).map_values(|n: Seq<char>| "ObjectIdentifier("@ + n + ".self)"@),
            views(parts@) == items.take(j as int),
        decreases seen.len() - j,
    {
        let mut item = String::from_str("ObjectIdentifier(");
        item.append(seen[j].as_str());
        item.append(".self)");
        push_part(&mut parts, item);
        proof {
            assert(views(seen@)[j as int] == seen@[j as int]@);
            assert(views(parts@) =~= items.take(j + 1));
        }
        j = j + 1;
    }
    proof {
        assert(items.take(seen@.len() as int) =~= items);
    }
    let mut r = String::from_str("[\n      ");
    r.append(join_strings(&parts, ",\n      ").as_str());
    r.append("\n    ]");
    r
}

/// The initializer of a selection set from its fields: the parameters, then a call of the
/// designated initializer with the data dictionary and the fulfilled fragments.
pub open spec fn spec_initializer(
    s: ComputedSelectionSet,
    access: Seq<char>,
    config: ConfigurationContext,
    fulfilled_names: Seq<Seq<char>>,
) -> Seq<char> {
    let params = spec_initializer_parameters(s, config);
    access + (if params.len() == 0 {
        "init(\n) {\n"@
    } else {
        "init(\n  "@ + params + "\n) {\n"@
    }) + "  self.init(_dataDict: DataDict(\n    data: [\n      "@ + spec_data_dict(s, config)
        + "\n    ],\n    fulfilledFragments: "@ + spec_fulfilled_fragments(fulfilled_names) + "\n  ))\n}"@
}

/// Renders the initializer of a selection set, as `spec_initializer` describes, given the
/// generated names of the selection sets it fulfills.
pub fn initializer_template(
    selection_set: &ComputedSelectionSet,
    access: &str,
    config: &ConfigurationContext,
    fulfilled_names: &[String],
) -> (r: String)
    ensures
        r@ == spec_initializer(*selection_set, access@, *config, views(fulfilled_names@)),
{
    let params = initializer_selection_parameters_template(selection_set, config);
    let data_dict = initializer_data_dict_template(selection_set, config);
    let fulfilled = initializer_fulfilled_fragments(fulfilled_names);
    let mut r = String::from_str(access);
    if params.as_str().is_empty() {
        r.append("init(\n) {\n");
    } else {
        r.append("init(\n  ");
        r.append(params.as_str());
        r.append("\n) {\n");
    }
    r.append("  self.init(_dataDict: DataDict(\n    data: [\n      ");
    r.append(data_dict.as_str());
    r.append("\n    ],\n    fulfilledFragments: ");
    r.append(fulfilled.as_str());
    r.append("\n  ))\n}");
    r
}

} // verus!
