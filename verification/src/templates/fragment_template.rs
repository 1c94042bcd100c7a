//! The declaration of a named fragment: its selection set type, its definition, and the
//! body of its selection set.
use vstd::prelude::*;

use crate::graphql::GraphQLCompositeType;
use crate::ir::{Field, FragmentDefinition, NamedFragment};
use crate::templates::rendering_helpers::selection_set_initializer_check::{
    should_generate_selection_set_initializers, spec_should_generate_selection_set_initializers,
};
use crate::templates::selection_set_template::{spec_body, spec_node_writable, SelectionSetTemplate};
use crate::templates::rendering_helpers::ir_definition_rendering::{
    rendered_selection_set_type, spec_rendered_selection_set_type,
};
use crate::templates::rendering_helpers::string_casing::{first_uppercased, spec_first_uppercased};
use crate::templates::rendering_helpers::string_single_line::{converted_to_single_line, spec_converted_to_single_line};
use crate::templates::rendering_helpers::string_swift_name_escaping::{as_fragment_name, spec_as_fragment_name};
use crate::templates::rendering_helpers::template_blocks::{indent, spec_indent};
use crate::templates::{
    spec_template_access, standard_header_template, ConfigurationContext, NonFatalErrorRecorder, Scope,
    TemplateRenderer, TemplateTarget,
};
use crate::text::{copy_strings, str_eq};

verus! {

/// Whether a list of key fields is exactly `["id"]`.
pub open spec fn spec_keyed_by_id(key_fields: Option<Vec<String>>) -> bool {
    match key_fields {
        Some(k) => k@.len() == 1 && k@[0]@ == "id"@,
        None => false,
    }
}

/// Whether a composite type is identifiable: an object or interface whose key fields are
/// exactly `id`; a union never is.
pub open spec fn spec_is_composite_type_identifiable(t: GraphQLCompositeType) -> bool {
    match t {
        GraphQLCompositeType::Object(o) => spec_keyed_by_id(o.key_fields),
        GraphQLCompositeType::Interface(i) => spec_keyed_by_id(i.key_fields),
        GraphQLCompositeType::Union(_) => false,
    }
}

fn keyed_by_id(key_fields: &Option<Vec<String>>) -> (r: bool)
    ensures
        r == spec_keyed_by_id(*key_fields),
{
    match key_fields {
        Some(k) => k.len() == 1 && str_eq(k[0].as_str(), "id"),
        None => false,
    }
}

/// Returns whether a composite type is identifiable, as
/// `spec_is_composite_type_identifiable` describes.
pub fn is_composite_type_identifiable(t: &GraphQLCompositeType) -> (r: bool)
    ensures
        r == spec_is_composite_type_identifiable(*t),
{
    match t {
        GraphQLCompositeType::Object(o) => keyed_by_id(&o.key_fields),
        GraphQLCompositeType::Interface(i) => keyed_by_id(&i.key_fields),
        GraphQLCompositeType::Union(_) => false,
    }
}

/// Whether a fragment is identifiable: its root selection set selects a field named `id`
/// directly, and the type it is defined on is identifiable.
pub open spec fn spec_is_fragment_identifiable(fragment: NamedFragment) -> bool {
    &&& fragment.root_selection_set.selection_set.direct matches Some(d)
    &&& d.fields@.map_values(|f: Field| f.name@).contains("id"@)
    &&& spec_is_composite_type_identifiable(fragment.definition.type_)
}

/// Returns whether a fragment is identifiable, as `spec_is_fragment_identifiable`
/// describes.
pub fn is_fragment_identifiable(fragment: &NamedFragment) -> (r: bool)
    ensures
        r == spec_is_fragment_identifiable(*fragment),
{
    let has_id_field = match &fragment.root_selection_set.selection_set.direct {
        Some(d) => {
            let ghost names = d.fields@.map_values(|f: Field| f.name@);
            let mut found = false;
            let mut i: usize = 0;
            while i < d.fields.len()
                invariant
                    i <= d.fields@.len(),
                    names == d.fields@.map_values(|f: Field| f.name@),
                    found == exists|j: int| 0 <= j < i && names[j] == "id"@,
                decreases d.fields.len() - i,
            {
                proof {
                    reveal_strlit("id");
                }
                if str_eq(d.fields[i].name.as_str(), "id") {
                    found = true;
                }
                assert(names[i as int] == d.fields@[i as int].name@);
                i = i + 1;
            }
            proof {
                if found {
                    let j = choose|j: int| 0 <= j < i && names[j] == "id"@;
                    assert(names.contains("id"@));
                }
            }
            found
        },
        None => false,
    };
    if !has_id_field {
        return false;
    }
    is_composite_type_identifiable(&fragment.definition.type_)
}

/// The file target of a fragment: an operation file with the fragment's module imports.
pub open spec fn spec_fragment_target(d: FragmentDefinition) -> TemplateTarget {
    TemplateTarget::OperationFile { module_imports: Some(d.module_imports) }
}

/// The body of a fragment's selection set, with initializers where the configuration asks
/// for them for the fragment.
pub open spec fn spec_fragment_selection_set_body(fragment: NamedFragment, config: ConfigurationContext, member: Seq<char>) -> Seq<char> {
    let d = fragment.definition;
    spec_body(
        d.is_local_cache_mutation,
        spec_should_generate_selection_set_initializers(
            config.config.options.selection_set_initializers,
            d.name@,
            d.is_local_cache_mutation,
            true,
        ),
        config,
        member,
        fragment.root_selection_set,
    )
}

/// The body of a fragment's file: the struct of the fragment, with its definition when the
/// document format includes definitions, and the body of its selection set, indented.
pub open spec fn spec_fragment_body(
    fragment: NamedFragment,
    config: ConfigurationContext,
    parent: Seq<char>,
    member: Seq<char>,
) -> Seq<char> {
    let d = fragment.definition;
    let selection_set_body = spec_fragment_selection_set_body(fragment, config, member);
    parent + "struct "@ + spec_as_fragment_name(spec_first_uppercased(d.name@)) + ": "@
        + spec_rendered_selection_set_type(config.config.schema_namespace@, d.is_local_cache_mutation) + ", Fragment {\n"@
        + (if config.config.options.operation_document_format.definition {
        "  "@ + member + "static var fragmentDefinition: StaticString {\n    #\""@ + spec_converted_to_single_line(d.source@)
            + "\"#\n  }\n\n"@
    } else {
        Seq::empty()
    }) + spec_indent(selection_set_body, 2) + "\n}\n"@
}

/// Renders the declaration of a named fragment.
pub struct FragmentTemplate {
    fragment: NamedFragment,
    config: ConfigurationContext,
}

impl FragmentTemplate {
    /// Every argument value of the fragment's selections can be written.
    #[verifier::type_invariant]
    spec fn renderable(self) -> bool {
        spec_node_writable(self.fragment.root_selection_set)
    }

    /// A template for the fragment.
    pub fn new(fragment: NamedFragment, config: ConfigurationContext) -> (r: Self)
        requires
            spec_node_writable(fragment.root_selection_set),
        ensures
            r.spec_config() == config,
            r.spec_target() == spec_fragment_target(fragment.definition),
            r.spec_body() == spec_fragment_body(
                fragment,
                config,
                spec_template_access(spec_fragment_target(fragment.definition), config.config, Scope::Parent),
                spec_template_access(spec_fragment_target(fragment.definition), config.config, Scope::Member),
            ),
    {
        FragmentTemplate { fragment, config }
    }
}

impl TemplateRenderer for FragmentTemplate {
    closed spec fn spec_config(&self) -> ConfigurationContext {
        self.config
    }

    closed spec fn spec_target(&self) -> TemplateTarget {
        spec_fragment_target(self.fragment.definition)
    }

    closed spec fn spec_body(&self) -> Seq<char> {
        spec_fragment_body(
            self.fragment,
            self.config,
            spec_template_access(spec_fragment_target(self.fragment.definition), self.config.config, Scope::Parent),
            spec_template_access(spec_fragment_target(self.fragment.definition), self.config.config, Scope::Member),
        )
    }

    fn config(&self) -> (r: &ConfigurationContext) {
        &self.config
    }

    fn target(&self) -> (r: TemplateTarget) {
        TemplateTarget::OperationFile { module_imports: Some(copy_strings(&self.fragment.definition.module_imports)) }
    }

    fn render_header_template(&self, _non_fatal_error_recorder: &NonFatalErrorRecorder) -> (r: Option<String>) {
        standard_header_template()
    }

    fn render_detached_template(&self, _non_fatal_error_recorder: &NonFatalErrorRecorder) -> (r: Option<String>) {
        None
    }

    #[verifier::rlimit(30)]
    fn render_body_template(&self, _non_fatal_error_recorder: &NonFatalErrorRecorder) -> (r: String) {
        proof {
            use_type_invariant(self);
        }
        let member_access = self.access_control_renderer(Scope::Member).render();
        let parent_access = self.access_control_renderer(Scope::Parent).render();
        let d = &self.fragment.definition;
        let fragment_name = as_fragment_name(first_uppercased(d.name.as_str()).as_str());
        let selection_set_type = rendered_selection_set_type(&self.config, d.is_local_cache_mutation);
        let mut r = parent_access;
        r.append("struct ");
        r.append(fragment_name.as_str());
        r.append(": ");
        r.append(selection_set_type.as_str());
        r.append(", Fragment {\n");
        if self.config.config.options.operation_document_format.definition {
            r.append("  ");
            r.append(member_access.as_str());
            r.append("static var fragmentDefinition: StaticString {\n    #\"");
            r.append(converted_to_single_line(d.source.as_str()).as_str());
            r.append("\"#\n  }\n\n");
        }
        let generate_initializers = should_generate_selection_set_initializers(
            &self.config.config.options.selection_set_initializers,
            d.name.as_str(),
            d.is_local_cache_mutation,
            true,
        );
        let template = SelectionSetTemplate {
            is_mutable: d.is_local_cache_mutation,
            generate_initializers,
            config: &self.config,
            access_control: String::from_str(member_access.as_str()),
        };
        let selection_set_body = template.render_body(&self.fragment.root_selection_set);
        r.append(indent(selection_set_body.as_str(), 2).as_str());
        r.append("\n}\n");
        r
    }
}

} // verus!
