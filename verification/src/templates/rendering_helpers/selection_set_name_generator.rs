//! Selection set naming: the name cache, the name formats and the name generator.
use vstd::prelude::*;

use crate::config::ApolloCodegenConfiguration;
use crate::graphql::{spec_is_list_type, spec_operation_type_name, DeferCondition, GraphQLCompositeType, GraphQLNamedType};
use crate::ir::{
    spec_type_info_wf, EntityField, FieldComponent, MergedSource, SelectionSetNode, InclusionCondition, InclusionConditions, ScopeCondition, ScopeDescriptor,
    SourceDefinition, TypeInfo,
};
use crate::pluralizer::{spec_singularize, Pluralizer};
use crate::templates::rendering_helpers::ir_definition_rendering::{
    generated_definition_name, generated_fragment_definition_name, spec_generated_definition_name,
};
use crate::templates::rendering_helpers::graphql_type_rendered::{rendered, spec_rendered, TypeRenderContext};
use crate::templates::rendering_helpers::graphql_name_rendering::{
    render_named_type, spec_render_named_type, RenderContext,
};
use crate::templates::rendering_helpers::string_casing::{first_uppercased, spec_first_uppercased};
use crate::templates::rendering_helpers::string_swift_name_escaping::{
    as_selection_set_name, convert_to_camel_case, spec_as_selection_set_name, spec_convert_to_camel_case,
};
use crate::templates::ConfigurationContext;
use crate::text::{join, join_strings, lemma_join_push, push_part, views};

verus! {

/// Computes selection set names with the configuration of the templates being rendered.
pub struct SelectionSetNameCache<'a> {
    config: &'a ConfigurationContext,
}

impl<'a> SelectionSetNameCache<'a> {
    /// The configuration names are computed with.
    pub closed spec fn spec_config(&self) -> ConfigurationContext {
        *self.config
    }

    /// Creates a cache that computes names with the given configuration.
    pub fn new(config: &'a ConfigurationContext) -> (r: Self)
        ensures
            r.spec_config() == *config,
    {
        SelectionSetNameCache { config }
    }

    /// The code generation configuration of the cache.
    pub fn config_ref(&self) -> (r: &ApolloCodegenConfiguration)
        ensures
            *r == self.spec_config().config,
    {
        &self.config.config
    }

    /// The generated name of a selection set, computed with the configuration's
    /// pluralizer as `spec_computed_selection_set_name` describes.
    pub fn selection_set_name(&mut self, type_info: &TypeInfo) -> (r: String)
        ensures
            r@ == spec_computed_selection_set_name(*type_info, old(self).spec_config().pluralizer),
            final(self).spec_config() == old(self).spec_config(),
    {
        compute_generated_selection_set_name(type_info, &self.config.pluralizer)
    }

    /// The type of an entity field in a selection set: the field's type with the
    /// generated name of its selection set in place of the named type.
    pub fn selection_set_type(&mut self, field: &EntityField) -> (r: String)
        ensures
            r@ == spec_rendered(
                field.underlying_field.type_,
                TypeRenderContext::SelectionSetField { force_non_null: false },
                Some(spec_computed_selection_set_name(field.type_info, old(self).spec_config().pluralizer)),
                old(self).spec_config().config,
            ),
            final(self).spec_config() == old(self).spec_config(),
    {
        let name = self.selection_set_name(&field.type_info);
        rendered(
            &field.underlying_field.type_,
            &TypeRenderContext::SelectionSetField { force_non_null: false },
            Some(name.as_str()),
            &self.config.config,
        )
    }
}

/// The format of a generated selection set name.
#[derive(Debug, Clone, Copy, PartialEq, Eq, Structural)]
pub enum NameFormat {
    /// Fully qualifies the name, including the enclosing operation or fragment name.
    FullyQualified,
    /// Omits the root entity selection set name.
    OmittingRoot,
}

/// Generates selection set names by walking scope paths and field paths.
pub struct SelectionSetNameGenerator;

/// The type name of a deferred fragment: its label in camel case, first uppercased, and
/// suffixed where it would collide with a reserved type name.
pub open spec fn spec_defer_condition_rendered_type_name(label: Seq<char>) -> Seq<char> {
    spec_as_selection_set_name(spec_first_uppercased(spec_convert_to_camel_case(label)))
}

/// Renders the type name of a deferred fragment, as `spec_defer_condition_rendered_type_name`
/// describes.
pub fn defer_condition_rendered_type_name(condition: &DeferCondition) -> (r: String)
    ensures
        r@ == spec_defer_condition_rendered_type_name(condition.label@),
{
    let camel = convert_to_camel_case(condition.label.as_str());
    let uppercased = first_uppercased(camel.as_str());
    as_selection_set_name(uppercased.as_str())
}

/// The type name of a composite type.
pub open spec fn spec_composite_type_name(t: GraphQLCompositeType) -> Seq<char> {
    spec_render_named_type(
        match t {
            GraphQLCompositeType::Object(o) => GraphQLNamedType::Object(&o),
            GraphQLCompositeType::Interface(i) => GraphQLNamedType::Interface(&i),
            GraphQLCompositeType::Union(u) => GraphQLNamedType::Union(&u),
        },
        RenderContext::Typename { is_input_value: false },
    )
}

/// Renders the type name of a composite type, as `spec_composite_type_name` describes.
pub fn render_composite_type_name(t: &GraphQLCompositeType) -> (r: String)
    ensures
        r@ == spec_composite_type_name(*t),
{
    let context = RenderContext::Typename { is_input_value: false };
    match t {
        GraphQLCompositeType::Object(o) => render_named_type(&GraphQLNamedType::Object(o), &context),
        GraphQLCompositeType::Interface(i) => render_named_type(&GraphQLNamedType::Interface(i), &context),
        GraphQLCompositeType::Union(u) => render_named_type(&GraphQLNamedType::Union(u), &context),
    }
}

/// The name component of an inclusion condition: its variable, first uppercased, after
/// `Not` when the condition is inverted.
pub open spec fn spec_inclusion_condition_component(c: InclusionCondition) -> Seq<char> {
    (if c.is_inverted {
        "Not"@
    } else {
        Seq::empty()
    }) + spec_first_uppercased(c.variable@)
}

/// The name components of inclusion conditions, joined with `And`.
pub open spec fn spec_inclusion_conditions_components(cs: Seq<InclusionCondition>) -> Seq<char> {
    join(cs.map_values(|c: InclusionCondition| spec_inclusion_condition_component(c)), "And"@)
}

fn inclusion_conditions_type_name_components(conditions: &InclusionConditions) -> (r: String)
    ensures
        r@ == spec_inclusion_conditions_components(conditions.conditions@),
{
    let ghost cs = conditions.conditions@;
    let mut parts: Vec<String> = Vec::new();
    let mut i: usize = 0;
    while i < conditions.conditions.len()
        invariant
            i <= cs.len(),
            cs == conditions.conditions@,
            views(parts@) == cs.take(i as int).map_values(|c: InclusionCondition| spec_inclusion_condition_component(c)),
        decreases cs.len() - i,
    {
        let c = &conditions.conditions[i];
        let mut part = if c.is_inverted {
            String::from_str("Not")
        } else {
            String::new()
        };
        part.append(first_uppercased(c.variable.as_str()).as_str());
        push_part(&mut parts, part);
        proof {
            assert(cs.take(i + 1) =~= cs.take(i as int).push(cs[i as int]));
            assert(views(parts@) =~= cs.take(i + 1).map_values(|c: InclusionCondition| spec_inclusion_condition_component(c)));
        }
        i = i + 1;
    }
    proof {
        assert(cs.take(cs.len() as int) =~= cs);
    }
    join_strings(&parts, "And")
}

/// The name component of a scope condition: the type name of its deferred fragment if it
/// is one; otherwise `As` and the type name of its type condition, followed by `If` and
/// the components of its inclusion conditions, each where present.
pub open spec fn spec_selection_set_name_component(c: ScopeCondition) -> Seq<char> {
    match c.defer_condition {
        Some(d) => spec_defer_condition_rendered_type_name(d.label@),
        None => (match c.type_ {
            Some(t) => "As"@ + spec_composite_type_name(t),
            None => Seq::empty(),
        }) + match c.conditions {
            Some(cs) => "If"@ + spec_inclusion_conditions_components(cs.conditions@),
            None => Seq::empty(),
        },
    }
}

/// Renders the name component of a scope condition, as `spec_selection_set_name_component`
/// describes.
pub fn selection_set_name_component(condition: &ScopeCondition) -> (r: String)
    ensures
        r@ == spec_selection_set_name_component(*condition),
{
    if let Some(defer_condition) = &condition.defer_condition {
        return defer_condition_rendered_type_name(defer_condition);
    }
    let mut r = String::new();
    if let Some(t) = &condition.type_ {
        r.append("As");
        r.append(render_composite_type_name(t).as_str());
    }
    if let Some(conditions) = &condition.conditions {
        r.append("If");
        r.append(inclusion_conditions_type_name_components(conditions).as_str());
    }
    r
}

/// The path of name components of consecutive scope conditions, joined with dots.
pub open spec fn spec_condition_path(cs: Seq<ScopeCondition>) -> Seq<char> {
    join(cs.map_values(|c: ScopeCondition| spec_selection_set_name_component(c)), "."@)
}

impl SelectionSetNameGenerator {
    /// Renders the path of the given scope conditions, from the first to the last, as
    /// `spec_condition_path` describes.
    pub fn condition_path(conditions: &[ScopeCondition]) -> (r: String)
        ensures
            r@ == spec_condition_path(conditions@),
    {
        let ghost cs = conditions@;
        let mut parts: Vec<String> = Vec::new();
        let mut i: usize = 0;
        while i < conditions.len()
            invariant
                i <= cs.len(),
                cs == conditions@,
                views(parts@) == cs.take(i as int).map_values(|c: ScopeCondition| spec_selection_set_name_component(c)),
            decreases cs.len() - i,
        {
            push_part(&mut parts, selection_set_name_component(&conditions[i]));
            proof {
                assert(cs.take(i + 1) =~= cs.take(i as int).push(cs[i as int]));
                assert(views(parts@) =~= cs.take(i + 1).map_values(|c: ScopeCondition| spec_selection_set_name_component(c)));
            }
            i = i + 1;
        }
        proof {
            assert(cs.take(cs.len() as int) =~= cs);
        }
        join_strings(&parts, ".")
    }
}

/// The selection set name of the selection set of a field on an entity's field path: the
/// field's name first uppercased, singularized for a list field, and suffixed where it is
/// a reserved type name.
pub open spec fn spec_field_component_name(field: FieldComponent, pluralizer: Pluralizer) -> Seq<char> {
    let name = spec_first_uppercased(field.name@);
    spec_as_selection_set_name(
        if spec_is_list_type(field.type_) {
            spec_singularize(pluralizer.inflections@, name)
        } else {
            name
        },
    )
}

/// Formats the selection set name of a field component, as `spec_field_component_name`
/// describes.
pub fn formatted_selection_set_name_for_field_component(field: &FieldComponent, pluralizer: &Pluralizer) -> (r: String)
    ensures
        r@ == spec_field_component_name(*field, *pluralizer),
{
    let mut field_name = first_uppercased(field.name.as_str());
    if field.type_.is_list_type() {
        field_name = pluralizer.singularize(field_name.as_str());
    }
    as_selection_set_name(field_name.as_str())
}

/// The selection set name of the root of a definition: `Data` for an operation, the
/// fragment's definition name for a fragment.
pub open spec fn spec_source_selection_set_name(source: SourceDefinition) -> Seq<char> {
    match source {
        SourceDefinition::Operation(_) => "Data"@,
        SourceDefinition::NamedFragment(f) => spec_first_uppercased(f.name@),
    }
}

fn formatted_selection_set_name_for_source(source: &SourceDefinition) -> (r: String)
    ensures
        r@ == spec_source_selection_set_name(*source),
{
    match source {
        SourceDefinition::Operation(_) => String::from_str("Data"),
        SourceDefinition::NamedFragment(f) => generated_fragment_definition_name(f.name.as_str()),
    }
}

/// The generated name of a selection set as its own type: that of the last field on its
/// entity's field path, or that of its definition's root when the entity is the root.
pub open spec fn spec_computed_selection_set_name(type_info: TypeInfo, pluralizer: Pluralizer) -> Seq<char> {
    match type_info.entity_location.field_path {
        Some(fp) if fp@.len() > 0 => spec_field_component_name(fp@.last(), pluralizer),
        _ => spec_source_selection_set_name(type_info.entity_location.source),
    }
}

/// Computes the generated name of a selection set, as `spec_computed_selection_set_name`
/// describes.
pub fn compute_generated_selection_set_name(type_info: &TypeInfo, pluralizer: &Pluralizer) -> (r: String)
    ensures
        r@ == spec_computed_selection_set_name(*type_info, *pluralizer),
{
    match &type_info.entity_location.field_path {
        Some(fp) if fp.len() > 0 => formatted_selection_set_name_for_field_component(&fp[fp.len() - 1], pluralizer),
        _ => formatted_selection_set_name_for_source(&type_info.entity_location.source),
    }
}

/// The field component that follows `f` on a field path of `len` components; past the
/// last one (or with none yet), the path starts over at `start`.
pub open spec fn spec_next_field(f: Option<int>, len: int, start: Option<int>) -> Option<int> {
    match f {
        Some(i) => if i + 1 < len {
            Some(i + 1)
        } else {
            start
        },
        None => start,
    }
}

/// Whether `ending` is the condition at `c` of the scope of the entity at `t`.
pub open spec fn spec_is_ending(ending: Option<(usize, usize)>, t: int, c: int) -> bool {
    ending matches Some(e) && e.0 == t && e.1 == c
}

/// The name components of the conditions of a scope after its first, up to and including
/// the ending condition when it is among them.
pub open spec fn spec_scope_condition_components(conditions: Seq<ScopeCondition>, t: int, ending: Option<(usize, usize)>) -> Seq<Seq<char>> {
    let last = if ending matches Some(e) && e.0 == t && 1 <= e.1 < conditions.len() {
        ending.unwrap().1 + 1
    } else {
        conditions.len() as int
    };
    conditions.subrange(1, last).map_values(|c: ScopeCondition| spec_selection_set_name_component(c))
}

/// Whether the ending condition is a condition of the scope of the entity at `t` after
/// its first.
pub open spec fn spec_ends_in_scope(conditions: Seq<ScopeCondition>, t: int, ending: Option<(usize, usize)>) -> bool {
    ending matches Some(e) && e.0 == t && 1 <= e.1 < conditions.len()
}

/// The name components of the entities on a type path from the one at `t` on: for each,
/// the name of the field on the field path at `f` (where there is one), then the
/// components of its scope's conditions after the first; the walk stops at the ending
/// condition, and the field path advances one field per entity.
pub open spec fn spec_name_components(
    type_path: Seq<ScopeDescriptor>,
    t: int,
    ending: Option<(usize, usize)>,
    field_path: Seq<FieldComponent>,
    f: Option<int>,
    start: Option<int>,
    pluralizer: Pluralizer,
) -> Seq<Seq<char>>
    decreases type_path.len() - t,
{
    if t < 0 || t >= type_path.len() {
        Seq::empty()
    } else {
        let field_part = match f {
            Some(i) => seq![spec_field_component_name(field_path[i], pluralizer)],
            None => Seq::empty(),
        };
        let conditions = type_path[t].scope_path@;
        if spec_is_ending(ending, t, 0) {
            field_part
        } else if spec_ends_in_scope(conditions, t, ending) {
            field_part + spec_scope_condition_components(conditions, t, ending)
        } else {
            field_part + spec_scope_condition_components(conditions, t, ending) + spec_name_components(
                type_path,
                t + 1,
                ending,
                field_path,
                spec_next_field(f, field_path.len() as int, start),
                start,
                pluralizer,
            )
        }
    }
}

/// The name generated from the entity at `t` of a type path, with the field path from
/// `f`: the name components joined with dots, without the first when `removing_first`.
/// For the root entity of the type path the field path starts at the next entity.
pub open spec fn spec_name_from_nodes(
    type_path: Seq<ScopeDescriptor>,
    t: int,
    ending: Option<(usize, usize)>,
    field_path: Seq<FieldComponent>,
    f: Option<int>,
    removing_first: bool,
    pluralizer: Pluralizer,
) -> Seq<char> {
    let components = spec_name_components(type_path, t, ending, field_path, if t == 0 {
        None
    } else {
        f
    }, f, pluralizer);
    join(
        if removing_first && components.len() > 0 {
            components.drop_first()
        } else {
            components
        },
        "."@,
    )
}

/// The selection set name of the root of a definition, fully qualified: the generated
/// name of an operation followed by `.Data`, or the definition name of a fragment.
pub open spec fn spec_qualified_source_name(source: SourceDefinition) -> Seq<char> {
    match source {
        SourceDefinition::Operation(op) => spec_generated_definition_name(
            op.name@,
            spec_operation_type_name(op.operation_type),
            op.is_local_cache_mutation,
        ) + ".Data"@,
        SourceDefinition::NamedFragment(f) => spec_first_uppercased(f.name@),
    }
}

/// The field path of a type info's entity; empty when the entity is a root.
pub open spec fn spec_field_path(type_info: TypeInfo) -> Seq<FieldComponent> {
    match type_info.entity_location.field_path {
        Some(fp) => fp@,
        None => Seq::empty(),
    }
}

/// The first field of a type info's field path, if it has one.
pub open spec fn spec_field_path_head(type_info: TypeInfo) -> Option<int> {
    match type_info.entity_location.field_path {
        Some(_) => Some(0),
        None => None,
    }
}

/// The generated name of a selection set: in the fully qualified format the name of its
/// definition's root, then the path of names from the root of the definition to the
/// selection set, up to the ending condition, joined with dots.
pub open spec fn spec_generated_selection_set_name(
    type_info: TypeInfo,
    ending: Option<(usize, usize)>,
    format: NameFormat,
    pluralizer: Pluralizer,
) -> Seq<char> {
    let head = if format == NameFormat::FullyQualified {
        seq![spec_qualified_source_name(type_info.entity_location.source)]
    } else {
        Seq::empty()
    };
    let path = spec_name_from_nodes(
        type_info.scope_path@,
        0,
        ending,
        spec_field_path(type_info),
        spec_field_path_head(type_info),
        false,
        pluralizer,
    );
    join(
        head + if path.len() == 0 {
            Seq::empty()
        } else {
            seq![path]
        },
        "."@,
    )
}

/// Whether every scope on a type path has a first condition.
pub open spec fn spec_type_path_wf(type_path: Seq<ScopeDescriptor>) -> bool {
    forall|i: int| 0 <= i < type_path.len() ==> #[trigger] type_path[i].scope_path@.len() > 0
}

fn qualified_source_name(source: &SourceDefinition) -> (r: String)
    ensures
        r@ == spec_qualified_source_name(*source),
{
    match source {
        SourceDefinition::Operation(op) => {
            let mut r = generated_definition_name(
                op.name.as_str(),
                op.operation_type.display_name(),
                op.is_local_cache_mutation,
            );
            r.append(".Data");
            r
        },
        SourceDefinition::NamedFragment(f) => generated_fragment_definition_name(f.name.as_str()),
    }
}

impl SelectionSetNameGenerator {
    /// Generates the name of a selection set, as `spec_generated_selection_set_name`
    /// describes.
    pub fn generated_selection_set_name(
        type_info: &TypeInfo,
        to_node: Option<(usize, usize)>,
        format: NameFormat,
        pluralizer: &Pluralizer,
    ) -> (r: String)
        requires
            spec_type_info_wf(*type_info),
        ensures
            r@ == spec_generated_selection_set_name(*type_info, to_node, format, *pluralizer),
    {
        let mut components: Vec<String> = Vec::new();
        if format == NameFormat::FullyQualified {
            push_part(&mut components, qualified_source_name(&type_info.entity_location.source));
        }
        let empty: Vec<FieldComponent> = Vec::new();
        let (field_path, head): (&[FieldComponent], Option<usize>) = match &type_info.entity_location.field_path {
            Some(fp) => (fp.as_slice(), Some(0)),
            None => (empty.as_slice(), None),
        };
        let entity_field_path = Self::generated_selection_set_name_from_nodes(
            type_info.scope_path.as_slice(),
            0,
            to_node,
            field_path,
            head,
            false,
            pluralizer,
        );
        if !entity_field_path.as_str().is_empty() {
            push_part(&mut components, entity_field_path);
        }
        proof {
            let h = if format == NameFormat::FullyQualified {
                seq![spec_qualified_source_name(type_info.entity_location.source)]
            } else {
                Seq::<Seq<char>>::empty()
            };
            let p = spec_name_from_nodes(type_info.scope_path@, 0, to_node, spec_field_path(*type_info),
                spec_field_path_head(*type_info), false, *pluralizer);
            assert(views(components@) =~= h + if p.len() == 0 { Seq::empty() } else { seq![p] });
        }
        join_strings(&components, ".")
    }

    /// Generates the name of a computed selection set, as
    /// `spec_generated_selection_set_name` describes for its type info.
    pub fn generated_selection_set_name_for_computed(
        selection_set: &SelectionSetNode,
        to_node: Option<(usize, usize)>,
        format: NameFormat,
        pluralizer: &Pluralizer,
    ) -> (r: String)
        requires
            spec_type_info_wf(selection_set.type_info),
        ensures
            r@ == spec_generated_selection_set_name(selection_set.type_info, to_node, format, *pluralizer),
    {
        Self::generated_selection_set_name(&selection_set.type_info, to_node, format, pluralizer)
    }

    /// Generates the name of a merged source's selection set, as
    /// `spec_generated_selection_set_name` describes for its type info.
    pub fn generated_selection_set_name_for_merged_source(
        source: &MergedSource,
        to_node: Option<(usize, usize)>,
        format: NameFormat,
        pluralizer: &Pluralizer,
    ) -> (r: String)
        requires
            spec_type_info_wf(source.type_info),
        ensures
            r@ == spec_generated_selection_set_name(source.type_info, to_node, format, *pluralizer),
    {
        Self::generated_selection_set_name(&source.type_info, to_node, format, pluralizer)
    }

    /// Generates a name by walking a type path from the entity at `type_path_index` and a
    /// field path from `field_path_index`, as `spec_name_from_nodes` describes.
    pub fn generated_selection_set_name_from_nodes(
        type_path: &[ScopeDescriptor],
        type_path_index: usize,
        ending_node: Option<(usize, usize)>,
        field_path: &[FieldComponent],
        field_path_index: Option<usize>,
        removing_first: bool,
        pluralizer: &Pluralizer,
    ) -> (r: String)
        requires
            type_path_index < type_path@.len(),
            spec_type_path_wf(type_path@),
            field_path_index matches Some(i) ==> i < field_path@.len(),
        ensures
            r@ == spec_name_from_nodes(
                type_path@,
                type_path_index as int,
                ending_node,
                field_path@,
                match field_path_index {
                    Some(i) => Some(i as int),
                    None => None,
                },
                removing_first,
                *pluralizer,
            ),
    {
        let ghost tp = type_path@;
        let ghost fp = field_path@;
        let ghost start: Option<int> = match field_path_index {
            Some(i) => Some(i as int),
            None => None,
        };
        let mut t: usize = type_path_index;
        let mut f: Option<usize> = if type_path_index == 0 {
            None
        } else {
            field_path_index
        };
        let ghost all = spec_name_components(tp, t as int, ending_node, fp, match f {
            Some(i) => Some(i as int),
            None => None,
        }, start, *pluralizer);
        let mut components: Vec<String> = Vec::new();
        loop
            invariant_except_break
                all == views(components@) + spec_name_components(tp, t as int, ending_node, fp, match f {
                    Some(i) => Some(i as int),
                    None => None,
                }, start, *pluralizer),
            invariant
                type_path_index <= t <= tp.len(),
                tp == type_path@,
                fp == field_path@,
                spec_type_path_wf(tp),
                f matches Some(i) ==> i < fp.len(),
                start == match field_path_index {
                    Some(i) => Some(i as int),
                    None => None::<int>,
                },
                field_path_index matches Some(i) ==> i < fp.len(),
            ensures
                all == views(components@),
            decreases tp.len() - t,
        {
            if t >= type_path.len() {
                proof {
                    assert(all =~= views(components@));
                }
                break;
            }
            let ghost gf: Option<int> = match f {
                Some(i) => Some(i as int),
                None => None,
            };
            let ghost before = views(components@);
            if let Some(i) = f {
                push_part(&mut components, formatted_selection_set_name_for_field_component(&field_path[i], pluralizer));
            }
            let ghost field_part = match gf {
                Some(i) => seq![spec_field_component_name(fp[i], *pluralizer)],
                None => Seq::<Seq<char>>::empty(),
            };
            assert(views(components@) =~= before + field_part);
            let ends_at_root = match ending_node {
                Some(e) => e.0 == t && e.1 == 0,
                None => false,
            };
            if ends_at_root {
                proof {
                    assert(spec_name_components(tp, t as int, ending_node, fp, gf, start, *pluralizer) == field_part);
                    assert(all =~= views(components@));
                }
                break;
            }
            let conditions = &type_path[t].scope_path;
            let ghost cs = conditions@;
            assert(cs.len() > 0);
            let ghost head = views(components@);
            let mut c: usize = 1;
            let mut stopped = false;
            while c < conditions.len()
                invariant_except_break
                    1 <= c <= cs.len(),
                    !stopped,
                    views(components@) == head + cs.subrange(1, c as int).map_values(|x: ScopeCondition| spec_selection_set_name_component(x)),
                    !(ending_node matches Some(e) && e.0 == t && 1 <= e.1 < c),
                invariant
                    cs == conditions@,
                    cs.len() > 0,
                ensures
                    stopped == spec_ends_in_scope(cs, t as int, ending_node),
                    views(components@) == head + spec_scope_condition_components(cs, t as int, ending_node),
                decreases cs.len() - c,
            {
                push_part(&mut components, selection_set_name_component(&conditions[c]));
                proof {
                    assert(cs.subrange(1, c + 1) =~= cs.subrange(1, c as int).push(cs[c as int]));
                    assert(views(components@) =~= head + cs.subrange(1, c + 1).map_values(|x: ScopeCondition| spec_selection_set_name_component(x)));
                }
                let hit = match ending_node {
                    Some(e) => e.0 == t && e.1 == c,
                    None => false,
                };
                if hit {
                    stopped = true;
                    break;
                }
                c = c + 1;
            }
            if stopped {
                proof {
                    assert(all =~= views(components@));
                }
                break;
            }
            let next_f: Option<usize> = match f {
                Some(i) => if i + 1 < field_path.len() {
                    Some(i + 1)
                } else {
                    field_path_index
                },
                None => field_path_index,
            };
            t = t + 1;
            f = next_f;
        }
        if removing_first && components.len() > 0 {
            components.remove(0);
            proof {
                assert(views(components@) =~= all.drop_first());
            }
        }
        join_strings(&components, ".")
    }
}

/// The fully qualified name of a selection set is the name of its definition's root,
/// followed by a dot and the name that omits the root, where that one is not empty.
pub proof fn law_qualified_name_extends_unqualified(
    type_info: TypeInfo,
    ending: Option<(usize, usize)>,
    pluralizer: Pluralizer,
)
    ensures
        spec_generated_selection_set_name(type_info, ending, NameFormat::FullyQualified, pluralizer) == {
            let unqualified = spec_generated_selection_set_name(type_info, ending, NameFormat::OmittingRoot, pluralizer);
            let root = spec_qualified_source_name(type_info.entity_location.source);
            if unqualified.len() == 0 {
                root
            } else {
                root + "."@ + unqualified
            }
        },
{
    let root = spec_qualified_source_name(type_info.entity_location.source);
    let path = spec_name_from_nodes(
        type_info.scope_path@,
        0,
        ending,
        spec_field_path(type_info),
        spec_field_path_head(type_info),
        false,
        pluralizer,
    );
    let tail: Seq<Seq<char>> = if path.len() == 0 {
        Seq::empty()
    } else {
        seq![path]
    };
    assert(Seq::<Seq<char>>::empty() + tail =~= tail);
    assert(seq![root] + tail =~= if path.len() == 0 {
        seq![root]
    } else {
        seq![root].push(path)
    });
    if path.len() > 0 {
        lemma_join_push(seq![root], "."@, path);
    }
}

} // verus!
