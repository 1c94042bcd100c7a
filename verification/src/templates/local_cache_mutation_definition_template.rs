//! The declaration of a local cache mutation: like an operation's, with a mutable `Data`
//! selection set and without an operation document.
use vstd::prelude::*;

use crate::graphql::spec_operation_type_name;
use crate::ir::Operation;
use crate::templates::operation_definition_template::{
    render_data_struct, render_operation_selection_set_body, render_variable_sections, spec_data_struct,
    spec_operation_selection_set_body, spec_operation_target, spec_variable_sections,
};
use crate::templates::selection_set_template::spec_node_writable;
use crate::templates::rendering_helpers::ir_definition_rendering::{
    generated_definition_name, rendered_selection_set_type, spec_generated_definition_name,
    spec_rendered_selection_set_type,
};
use crate::templates::rendering_helpers::operation_template_renderer::spec_variables_renderable;
use crate::templates::{
    spec_template_access, standard_header_template, ConfigurationContext, NonFatalErrorRecorder, Scope,
    TemplateRenderer, TemplateTarget,
};
use crate::text::copy_strings;

verus! {

/// The body of a local cache mutation's file: its declaration and operation type, its
/// variables (whose accessor names `Variables` through `GraphQLOperation`), and its
/// mutable `Data` struct.
pub open spec fn spec_local_cache_mutation_body(
    operation: Operation,
    config: ConfigurationContext,
    parent: Seq<char>,
    member: Seq<char>,
) -> Seq<char> {
    let d = operation.definition;
    let selection_set_body = spec_operation_selection_set_body(operation, config, member);
    parent + "struct "@ + spec_generated_definition_name(d.name@, spec_operation_type_name(d.operation_type), true)
        + ": LocalCacheMutation {\n"@ + "  "@ + member + "static let operationType: GraphQLOperationType = ."@
        + spec_operation_type_name(d.operation_type) + "\n"@ + spec_variable_sections(d.variables@, config.config, false)
        + spec_data_struct(member, spec_rendered_selection_set_type(config.config.schema_namespace@, true), selection_set_body)
        + "}\n"@
}

/// Renders the declaration of a local cache mutation.
pub struct LocalCacheMutationDefinitionTemplate {
    operation: Operation,
    config: ConfigurationContext,
}

impl LocalCacheMutationDefinitionTemplate {
    /// Every default value of a variable, and every argument value, can be written.
    #[verifier::type_invariant]
    spec fn renderable(self) -> bool {
        &&& spec_variables_renderable(self.operation.definition.variables@)
        &&& spec_node_writable(self.operation.root_selection_set)
    }

    /// A template for the local cache mutation.
    pub fn new(operation: Operation, config: ConfigurationContext) -> (r: Self)
        requires
            spec_variables_renderable(operation.definition.variables@),
            spec_node_writable(operation.root_selection_set),
        ensures
            r.spec_config() == config,
            r.spec_target() == spec_operation_target(operation.definition),
            r.spec_body() == spec_local_cache_mutation_body(
                operation,
                config,
                spec_template_access(spec_operation_target(operation.definition), config.config, Scope::Parent),
                spec_template_access(spec_operation_target(operation.definition), config.config, Scope::Member),
            ),
    {
        LocalCacheMutationDefinitionTemplate { operation, config }
    }
}

impl TemplateRenderer for LocalCacheMutationDefinitionTemplate {
    closed spec fn spec_config(&self) -> ConfigurationContext {
        self.config
    }

    closed spec fn spec_target(&self) -> TemplateTarget {
        spec_operation_target(self.operation.definition)
    }

    closed spec fn spec_body(&self) -> Seq<char> {
        spec_local_cache_mutation_body(
            self.operation,
            self.config,
            spec_template_access(spec_operation_target(self.operation.definition), self.config.config, Scope::Parent),
            spec_template_access(spec_operation_target(self.operation.definition), self.config.config, Scope::Member),
        )
    }

    fn config(&self) -> (r: &ConfigurationContext) {
        &self.config
    }

    fn target(&self) -> (r: TemplateTarget) {
        TemplateTarget::OperationFile { module_imports: Some(copy_strings(&self.operation.definition.module_imports)) }
    }

    fn render_header_template(&self, _non_fatal_error_recorder: &NonFatalErrorRecorder) -> (r: Option<String>) {
        standard_header_template()
    }

    fn render_detached_template(&self, _non_fatal_error_recorder: &NonFatalErrorRecorder) -> (r: Option<String>) {
        None
    }

    fn render_body_template(&self, _non_fatal_error_recorder: &NonFatalErrorRecorder) -> (r: String) {
        proof {
            use_type_invariant(self);
        }
        let member_access = self.access_control_renderer(Scope::Member).render();
        let parent_access = self.access_control_renderer(Scope::Parent).render();
        let d = &self.operation.definition;
        let definition_name = generated_definition_name(d.name.as_str(), d.operation_type.display_name(), true);
        let mut r = parent_access;
        r.append("struct ");
        r.append(definition_name.as_str());
        r.append(": LocalCacheMutation {\n");
        r.append("  ");
        r.append(member_access.as_str());
        r.append("static let operationType: GraphQLOperationType = .");
        r.append(d.operation_type.display_name());
        r.append("\n");
        r.append(render_variable_sections(d.variables.as_slice(), &self.config.config, false).as_str());
        let selection_set_type = rendered_selection_set_type(&self.config, true);
        let selection_set_body = render_operation_selection_set_body(&self.operation, &self.config, member_access.as_str());
        r.append(render_data_struct(member_access.as_str(), selection_set_type.as_str(), selection_set_body.as_str()).as_str());
        r.append("}\n");
        r
    }
}

} // verus!
