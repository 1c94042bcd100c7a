//! The parts of the intermediate representation of operations that rendering reads, held
//! as plain values: compiled operations and fragments, inclusion conditions, scope
//! conditions, and the deferred fragments found in an operation's selections.
use vstd::prelude::*;

use crate::graphql::{same_composite_type, spec_same_composite_type, Argument, DeferCondition, GraphQLCompositeType, GraphQLType, OperationType};
use crate::text::str_eq;
use crate::templates::rendering_helpers::operation_template_renderer::VariableDefinition;

verus! {

/// An `@include(if:)` or `@skip(if:)` condition on a variable.
pub struct InclusionCondition {
    pub variable: String,
    /// Whether the selection is skipped (rather than included) when the variable is true.
    pub is_inverted: bool,
}

impl InclusionCondition {
    /// The condition of `@include(if: $variable)`.
    pub fn include_if(variable: String) -> (r: Self)
        ensures
            r.variable == variable,
            !r.is_inverted,
    {
        InclusionCondition { variable, is_inverted: false }
    }

    /// The condition of `@skip(if: $variable)`.
    pub fn skip_if(variable: String) -> (r: Self)
        ensures
            r.variable == variable,
            r.is_inverted,
    {
        InclusionCondition { variable, is_inverted: true }
    }
}

/// Conditions that must all hold, in the order they were written.
pub struct InclusionConditions {
    pub conditions: Vec<InclusionCondition>,
}

impl InclusionConditions {
    /// A single condition.
    pub fn new(condition: InclusionCondition) -> (r: Self)
        ensures
            r.conditions@ == seq![condition],
    {
        InclusionConditions { conditions: vec![condition] }
    }

    /// Adds a condition after the others.
    pub fn append(&mut self, condition: InclusionCondition)
        ensures
            final(self).conditions@ == old(self).conditions@.push(condition),
    {
        self.conditions.push(condition);
    }

    /// The number of conditions.
    pub fn len(&self) -> (r: usize)
        ensures
            r == self.conditions@.len(),
    {
        self.conditions.len()
    }
}

/// Alternatives of which at least one must hold.
pub struct AnyOf<T> {
    pub elements: Vec<T>,
}

impl<T> AnyOf<T> {
    /// The alternatives, in the given order.
    pub fn from_vec(elements: Vec<T>) -> (r: Self)
        ensures
            r.elements@ == elements@,
    {
        AnyOf { elements }
    }
}

/// The condition under which a selection set applies: a type condition, inclusion
/// conditions and a `@defer` condition, each optional.
pub struct ScopeCondition {
    pub type_: Option<GraphQLCompositeType>,
    pub conditions: Option<InclusionConditions>,
    pub defer_condition: Option<DeferCondition>,
}

impl ScopeCondition {
    /// A scope condition with the given parts.
    pub fn new(
        type_: Option<GraphQLCompositeType>,
        conditions: Option<InclusionConditions>,
        defer_condition: Option<DeferCondition>,
    ) -> (r: Self)
        ensures
            r.type_ == type_,
            r.conditions == conditions,
            r.defer_condition == defer_condition,
    {
        ScopeCondition { type_, conditions, defer_condition }
    }

    /// A type condition alone.
    pub fn with_type(type_: GraphQLCompositeType) -> (r: Self)
        ensures
            r.type_ == Some(type_),
            r.conditions.is_none(),
            r.defer_condition.is_none(),
    {
        ScopeCondition { type_: Some(type_), conditions: None, defer_condition: None }
    }

    /// Inclusion conditions alone.
    pub fn with_conditions(conditions: InclusionConditions) -> (r: Self)
        ensures
            r.type_.is_none(),
            r.conditions == Some(conditions),
            r.defer_condition.is_none(),
    {
        ScopeCondition { type_: None, conditions: Some(conditions), defer_condition: None }
    }

    /// Whether the scope is a deferred fragment.
    pub fn is_deferred(&self) -> (r: bool)
        ensures
            r == self.defer_condition.is_some(),
    {
        self.defer_condition.is_some()
    }
}

/// Which selections the intermediate representation merges into a selection set: those of
/// its ancestors, of its siblings and of the named fragments it spreads.
#[derive(Debug, Clone, Copy, PartialEq, Eq, Structural)]
pub struct MergingStrategy {
    pub ancestors: bool,
    pub siblings: bool,
    pub named_fragments: bool,
}

impl MergingStrategy {
    /// Every kind of merging.
    pub fn all() -> (r: Self)
        ensures
            r.ancestors && r.siblings && r.named_fragments,
    {
        MergingStrategy { ancestors: true, siblings: true, named_fragments: true }
    }

    /// No merging.
    pub fn empty() -> (r: Self)
        ensures
            !r.ancestors && !r.siblings && !r.named_fragments,
    {
        MergingStrategy { ancestors: false, siblings: false, named_fragments: false }
    }
}

/// A field selected by a selection set.
pub struct Field {
    pub name: String,
    pub alias: Option<String>,
    pub type_: GraphQLType,
    /// The arguments given to the field, in order; empty when it has none.
    pub arguments: Vec<Argument>,
    /// For a field of a composite type, what is known of its selection set; none for a
    /// field of a leaf type.
    pub selection_set: Option<TypeInfo>,
    /// The documentation of the field's definition.
    pub documentation: Option<String>,
    /// The deprecation reason of the field's definition, if it is deprecated.
    pub deprecation_reason: Option<String>,
    /// Whether the field is included under conditions that the scope of the selection set
    /// it is rendered in does not imply.
    pub conditionally_included: bool,
}

/// The key of a field in a response: its alias, or else its name.
pub open spec fn spec_response_key(f: Field) -> Seq<char> {
    match f.alias {
        Some(a) => a@,
        None => f.name@,
    }
}

impl Field {
    /// The key of the field in a response, as `spec_response_key` describes.
    pub fn response_key(&self) -> (r: &str)
        ensures
            r@ == spec_response_key(*self),
    {
        match &self.alias {
            Some(a) => a.as_str(),
            None => self.name.as_str(),
        }
    }
}

/// A spread of a named fragment in a selection set.
pub struct NamedFragmentSpread {
    pub fragment_name: String,
    /// The `@defer` condition of the spread, if it is deferred.
    pub defer_condition: Option<DeferCondition>,
    /// Whether the spread is included under conditions that the scope of the selection set
    /// it is rendered in does not imply.
    pub conditionally_included: bool,
}

/// The selections written directly in a selection set: fields, inline fragments (each
/// given by the last condition of its scope) and named fragment spreads, each in order.
pub struct DirectSelections {
    pub fields: Vec<Field>,
    pub inline_fragments: Vec<ScopeCondition>,
    pub named_fragments: Vec<NamedFragmentSpread>,
}

/// The selections merged into a selection set from the selection sets it overlaps with,
/// and those selection sets.
pub struct MergedSelections {
    pub fields: Vec<Field>,
    pub inline_fragments: Vec<ScopeCondition>,
    pub named_fragments: Vec<NamedFragmentSpread>,
    pub merged_sources: Vec<MergedSource>,
}

/// A selection set as computed for rendering: the type it is selected on, its direct
/// selections (if it has selections of its own) and the selections merged into it.
pub struct ComputedSelectionSet {
    pub parent_type: GraphQLCompositeType,
    pub direct: Option<DirectSelections>,
    pub merged: MergedSelections,
}

/// A selection set as the templates render it: its computed selections, what is known of
/// it (where its entity is, its scopes and the selection sets merged into it), what the
/// intermediate representation works out about it, and the selection sets nested in it.
pub struct SelectionSetNode {
    pub selection_set: ComputedSelectionSet,
    pub type_info: TypeInfo,
    /// The direct selections grouped by the conditions they are included under; present
    /// when the selection set has direct selections.
    pub grouped_direct: Option<GroupedByInclusionCondition>,
    /// Whether the `__typename` field is selected.
    pub include_typename: bool,
    /// Whether the selection set is the root selection set of its entity.
    pub is_entity_root: bool,
    /// Whether the selection set was written in the definition rather than merged in.
    pub is_user_defined: bool,
    /// The selection sets of the entity fields, in the order of the fields.
    pub child_entities: Vec<SelectionSetNode>,
    /// The selection sets of the inline fragments, in order.
    pub child_inline_fragments: Vec<SelectionSetNode>,
}

/// The last condition of a selection set's scope.
pub open spec fn spec_node_scope_condition(node: SelectionSetNode) -> ScopeCondition {
    spec_scope(node.type_info).scope_path@.last()
}

/// Selections included under the same inclusion conditions.
pub struct InclusionConditionGroup {
    pub conditions: AnyOf<InclusionConditions>,
    /// Whether the scope of the selection set already implies the conditions.
    pub matched_by_scope: bool,
    pub selections: DirectSelections,
}

/// The direct selections of a selection set, grouped by the conditions they are included
/// under.
pub struct GroupedByInclusionCondition {
    pub unconditional_selections: DirectSelections,
    pub inclusion_condition_groups: Vec<InclusionConditionGroup>,
}

/// A field on the path from the root of a definition to an entity.
pub struct FieldComponent {
    pub name: String,
    pub type_: GraphQLType,
}

/// The definition that an entity is selected in.
pub enum SourceDefinition {
    Operation(OperationDefinition),
    NamedFragment(FragmentDefinition),
}

/// Where an entity is: the definition it is selected in and, below the definition's root,
/// the fields that lead to it, from the first to the last.
pub struct EntityLocation {
    pub source: SourceDefinition,
    pub field_path: Option<Vec<FieldComponent>>,
}

/// The scope of an entity: its scope conditions, the first being that of the entity's
/// root.
pub struct ScopeDescriptor {
    pub scope_path: Vec<ScopeCondition>,
}

/// What is known of a selection set: where its entity is, the scopes of the entities from
/// the root of its definition down to its own, and the selection sets merged into it.
pub struct TypeInfo {
    pub entity_location: EntityLocation,
    pub scope_path: Vec<ScopeDescriptor>,
    pub derived_from_merged_sources: Vec<MergedSource>,
}

/// A selection set that selections were merged from, with the named fragment it belongs
/// to when it is a selection set of a fragment.
pub struct MergedSource {
    pub type_info: TypeInfo,
    pub fragment: Option<FragmentDefinition>,
}

/// A field of a composite type together with what is known of its selection set.
pub struct EntityField {
    pub underlying_field: Field,
    pub type_info: TypeInfo,
}

/// A type info is well formed when its scope path and the scope path of each of its scopes
/// have a first element, and its field path, if present, has one too.
pub open spec fn spec_type_info_wf(t: TypeInfo) -> bool {
    &&& t.scope_path@.len() > 0
    &&& forall|i: int| 0 <= i < t.scope_path@.len() ==> #[trigger] t.scope_path@[i].scope_path@.len() > 0
    &&& t.entity_location.field_path matches Some(fp) ==> fp@.len() > 0
}

/// The scope of the type info's own entity: the last of its scope path.
pub open spec fn spec_scope(t: TypeInfo) -> ScopeDescriptor {
    t.scope_path@.last()
}

/// The `@defer` condition of the selection set: that of the last condition of its scope.
pub open spec fn spec_type_info_defer_condition(t: TypeInfo) -> Option<DeferCondition> {
    spec_scope(t).scope_path@.last().defer_condition
}

impl TypeInfo {
    /// The scope of the type info's own entity.
    pub fn scope(&self) -> (r: &ScopeDescriptor)
        requires
            spec_type_info_wf(*self),
        ensures
            *r == spec_scope(*self),
    {
        &self.scope_path[self.scope_path.len() - 1]
    }

    /// The `@defer` condition of the selection set, if it is deferred.
    pub fn defer_condition(&self) -> (r: Option<&DeferCondition>)
        requires
            spec_type_info_wf(*self),
        ensures
            match r {
                Some(d) => spec_type_info_defer_condition(*self) == Some(*d),
                None => spec_type_info_defer_condition(*self) is None,
            },
    {
        let scope = self.scope();
        proof {
            assert(scope.scope_path@.len() > 0);
        }
        match &scope.scope_path[scope.scope_path.len() - 1].defer_condition {
            Some(d) => Some(d),
            None => None,
        }
    }
}

/// Whether two optional type conditions are the same: both absent, or the same type.
pub open spec fn spec_same_type_condition(a: Option<GraphQLCompositeType>, b: Option<GraphQLCompositeType>) -> bool {
    match (a, b) {
        (None, None) => true,
        (Some(x), Some(y)) => spec_same_composite_type(x, y),
        _ => false,
    }
}

/// Whether two inclusion conditions are the same: the same variable, inverted alike.
pub open spec fn spec_same_inclusion_condition(a: InclusionCondition, b: InclusionCondition) -> bool {
    a.variable@ == b.variable@ && a.is_inverted == b.is_inverted
}

/// Whether two lists of inclusion conditions are the same, condition by condition.
pub open spec fn spec_same_inclusion_conditions(a: InclusionConditions, b: InclusionConditions) -> bool {
    &&& a.conditions@.len() == b.conditions@.len()
    &&& forall|i: int|
        0 <= i < a.conditions@.len() ==> #[trigger] spec_same_inclusion_condition(a.conditions@[i], b.conditions@[i])
}

/// Whether two optional lists of inclusion conditions are the same.
pub open spec fn spec_same_opt_inclusion_conditions(a: Option<InclusionConditions>, b: Option<InclusionConditions>) -> bool {
    match (a, b) {
        (None, None) => true,
        (Some(x), Some(y)) => spec_same_inclusion_conditions(x, y),
        _ => false,
    }
}

/// Whether two optional `@defer` conditions are the same: the same label and variable.
pub open spec fn spec_same_opt_defer_condition(a: Option<DeferCondition>, b: Option<DeferCondition>) -> bool {
    match (a, b) {
        (None, None) => true,
        (Some(x), Some(y)) => x.label@ == y.label@ && crate::text::opt_view(x.variable) == crate::text::opt_view(y.variable),
        _ => false,
    }
}

/// Whether two scope conditions are the same, part by part.
pub open spec fn spec_same_scope_condition(a: ScopeCondition, b: ScopeCondition) -> bool {
    &&& spec_same_type_condition(a.type_, b.type_)
    &&& spec_same_opt_inclusion_conditions(a.conditions, b.conditions)
    &&& spec_same_opt_defer_condition(a.defer_condition, b.defer_condition)
}

/// Whether two scopes are the same: the same conditions, in the same order.
pub open spec fn spec_same_scope_descriptor(a: ScopeDescriptor, b: ScopeDescriptor) -> bool {
    &&& a.scope_path@.len() == b.scope_path@.len()
    &&& forall|i: int|
        0 <= i < a.scope_path@.len() ==> #[trigger] spec_same_scope_condition(a.scope_path@[i], b.scope_path@[i])
}

/// Returns whether two optional type conditions are the same, as
/// `spec_same_type_condition` describes.
pub fn same_type_condition_of(a: &Option<GraphQLCompositeType>, b: &Option<GraphQLCompositeType>) -> (r: bool)
    ensures
        r == spec_same_type_condition(*a, *b),
{
    match (a, b) {
        (None, None) => true,
        (Some(x), Some(y)) => same_composite_type(x, y),
        _ => false,
    }
}

/// Returns whether two lists of inclusion conditions are the same, as
/// `spec_same_inclusion_conditions` describes.
pub fn same_inclusion_conditions(a: &InclusionConditions, b: &InclusionConditions) -> (r: bool)
    ensures
        r == spec_same_inclusion_conditions(*a, *b),
{
    if a.conditions.len() != b.conditions.len() {
        return false;
    }
    let mut i: usize = 0;
    while i < a.conditions.len()
        invariant
            i <= a.conditions@.len(),
            a.conditions@.len() == b.conditions@.len(),
            forall|j: int| 0 <= j < i ==> #[trigger] spec_same_inclusion_condition(a.conditions@[j], b.conditions@[j]),
        decreases a.conditions.len() - i,
    {
        let x = &a.conditions[i];
        let y = &b.conditions[i];
        if !(str_eq(x.variable.as_str(), y.variable.as_str()) && x.is_inverted == y.is_inverted) {
            proof {
                assert(!spec_same_inclusion_condition(a.conditions@[i as int], b.conditions@[i as int]));
            }
            return false;
        }
        i = i + 1;
    }
    true
}

fn same_opt_inclusion_conditions(a: &Option<InclusionConditions>, b: &Option<InclusionConditions>) -> (r: bool)
    ensures
        r == spec_same_opt_inclusion_conditions(*a, *b),
{
    match (a, b) {
        (None, None) => true,
        (Some(x), Some(y)) => same_inclusion_conditions(x, y),
        _ => false,
    }
}

fn same_opt_str(a: &Option<String>, b: &Option<String>) -> (r: bool)
    ensures
        r == (crate::text::opt_view(*a) == crate::text::opt_view(*b)),
{
    match (a, b) {
        (None, None) => true,
        (Some(x), Some(y)) => str_eq(x.as_str(), y.as_str()),
        _ => false,
    }
}

fn same_opt_defer_condition(a: &Option<DeferCondition>, b: &Option<DeferCondition>) -> (r: bool)
    ensures
        r == spec_same_opt_defer_condition(*a, *b),
{
    match (a, b) {
        (None, None) => true,
        (Some(x), Some(y)) => str_eq(x.label.as_str(), y.label.as_str()) && same_opt_str(&x.variable, &y.variable),
        _ => false,
    }
}

/// Returns whether two scope conditions are the same, as `spec_same_scope_condition`
/// describes.
pub fn same_scope_condition(a: &ScopeCondition, b: &ScopeCondition) -> (r: bool)
    ensures
        r == spec_same_scope_condition(*a, *b),
{
    same_type_condition_of(&a.type_, &b.type_) && same_opt_inclusion_conditions(&a.conditions, &b.conditions)
        && same_opt_defer_condition(&a.defer_condition, &b.defer_condition)
}

/// Returns whether two scopes are the same, as `spec_same_scope_descriptor` describes.
pub fn same_scope_descriptor(a: &ScopeDescriptor, b: &ScopeDescriptor) -> (r: bool)
    ensures
        r == spec_same_scope_descriptor(*a, *b),
{
    if a.scope_path.len() != b.scope_path.len() {
        return false;
    }
    let mut i: usize = 0;
    while i < a.scope_path.len()
        invariant
            i <= a.scope_path@.len(),
            a.scope_path@.len() == b.scope_path@.len(),
            forall|j: int| 0 <= j < i ==> #[trigger] spec_same_scope_condition(a.scope_path@[j], b.scope_path@[j]),
        decreases a.scope_path.len() - i,
    {
        if !same_scope_condition(&a.scope_path[i], &b.scope_path[i]) {
            return false;
        }
        i = i + 1;
    }
    true
}

/// The direct selections of a selection set as the search for deferred fragments walks
/// them: its fields of composite type, its inline fragments and its named fragment
/// spreads, each in order.
pub struct SelectionTree {
    pub entity_fields: Vec<EntityFieldSelections>,
    pub inline_fragments: Vec<InlineFragmentSelections>,
    pub named_fragments: Vec<NamedFragmentSelections>,
}

/// A field of composite type, with the direct selections of its selection set.
pub struct EntityFieldSelections {
    pub name: String,
    pub alias: Option<String>,
    pub selections: Option<SelectionTree>,
}

/// An inline fragment: the type info and the direct selections of its selection set.
pub struct InlineFragmentSelections {
    pub type_info: TypeInfo,
    pub selections: Option<SelectionTree>,
}

/// A named fragment spread: the fragment's name, the `@defer` condition of the spread,
/// and the direct selections of the fragment's root selection set.
pub struct NamedFragmentSelections {
    pub fragment_name: String,
    pub defer_condition: Option<DeferCondition>,
    pub selections: Option<SelectionTree>,
}

/// The key of an entity field in a response: its alias, or else its name.
pub open spec fn spec_entity_field_key(f: EntityFieldSelections) -> Seq<char> {
    match f.alias {
        Some(a) => a@,
        None => f.name@,
    }
}

/// Whether the type info of every inline fragment in the selections, at any depth, is
/// well formed.
pub open spec fn spec_selections_wf(selections: Option<SelectionTree>) -> bool
    decreases selections,
{
    match selections {
        None => true,
        Some(t) => {
            &&& forall|i: int|
                0 <= i < t.entity_fields@.len() ==> spec_selections_wf(#[trigger] t.entity_fields@[i].selections)
            &&& forall|i: int|
                0 <= i < t.inline_fragments@.len() ==> spec_type_info_wf(#[trigger] t.inline_fragments@[i].type_info)
                    && spec_selections_wf(t.inline_fragments@[i].selections)
            &&& forall|i: int|
                0 <= i < t.named_fragments@.len() ==> spec_selections_wf(#[trigger] t.named_fragments@[i].selections)
        },
    }
}

/// A compiled operation definition, as the templates read it.
pub struct OperationDefinition {
    pub name: String,
    pub operation_type: OperationType,
    pub variables: Vec<VariableDefinition>,
    /// The source text of the operation.
    pub source: String,
    /// Whether the operation is marked as a local cache mutation.
    pub is_local_cache_mutation: bool,
    /// The modules that the file of the operation imports.
    pub module_imports: Vec<String>,
}

/// An operation, with what was gathered from its selections.
pub struct Operation {
    pub definition: OperationDefinition,
    /// The names of the fragments that the operation references, in order.
    pub referenced_fragments: Vec<String>,
    /// Whether any of the operation's selections is deferred.
    pub contains_deferred_fragment: bool,
    /// The direct selections of the operation's root field, as the search for deferred
    /// fragments walks them.
    pub root_selections: Option<SelectionTree>,
    /// The selection set of the operation's root field.
    pub root_selection_set: SelectionSetNode,
}

/// A compiled fragment definition, as the templates read it.
pub struct FragmentDefinition {
    pub name: String,
    /// The type the fragment is defined on.
    pub type_: GraphQLCompositeType,
    /// The source text of the fragment.
    pub source: String,
    /// Whether the fragment is marked as a local cache mutation.
    pub is_local_cache_mutation: bool,
    /// The modules that the file of the fragment imports.
    pub module_imports: Vec<String>,
}

/// A named fragment.
pub struct NamedFragment {
    pub definition: FragmentDefinition,
    /// The selection set of the fragment's root field.
    pub root_selection_set: SelectionSetNode,
}

} // verus!
