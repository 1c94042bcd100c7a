//! The declaration of an operation: its name, its document, its variables, its `Data`
//! selection set and the metadata of its deferred fragments.
use vstd::prelude::*;

use crate::config::{ApolloCodegenConfiguration, OperationDocumentFormat};
use crate::graphql::{spec_operation_type_name, OperationType};
use crate::ir::{spec_selections_wf, Operation, OperationDefinition};
use crate::templates::deferred_fragments_metadata_template::{
    spec_deferred_metadata, spec_deferred_paths, DeferredFragmentsMetadataTemplate,
};
use crate::templates::rendering_helpers::ir_definition_rendering::{
    generated_definition_name, rendered_selection_set_type, spec_generated_definition_name,
    spec_rendered_selection_set_type,
};
use crate::templates::rendering_helpers::selection_set_initializer_check::{
    should_generate_selection_set_initializers, spec_should_generate_selection_set_initializers,
};
use crate::templates::selection_set_template::{spec_body, spec_node_writable, SelectionSetTemplate};
use crate::templates::rendering_helpers::operation_template_renderer::{
    render_initializer, render_variable_accessors, render_variable_properties, spec_initializer,
    spec_variable_accessors, spec_variable_properties, spec_variables_renderable, VariableDefinition,
};
use crate::templates::rendering_helpers::string_single_line::{converted_to_single_line, spec_converted_to_single_line};
use crate::templates::rendering_helpers::string_swift_name_escaping::{as_fragment_name, spec_as_fragment_name};
use crate::templates::rendering_helpers::template_blocks::{indent, spec_indent};
use crate::templates::rendering_helpers::template_constants::APOLLO_API_TARGET_NAME;
use crate::templates::{
    spec_template_access, standard_header_template, ConfigurationContext, NonFatalErrorRecorder, Scope,
    TemplateRenderer, TemplateTarget,
};
use crate::text::{copy_strings, join, join_strings, opt_view, push_part, views};

verus! {

/// The Swift protocol that an operation of the given type conforms to.
pub open spec fn spec_rendered_protocol_name(t: OperationType) -> Seq<char> {
    match t {
        OperationType::Query => "GraphQLQuery"@,
        OperationType::Mutation => "GraphQLMutation"@,
        OperationType::Subscription => "GraphQLSubscription"@,
    }
}

/// Returns the Swift protocol that an operation of the given type conforms to.
pub fn rendered_protocol_name(op_type: &OperationType) -> (r: &'static str)
    ensures
        r@ == spec_rendered_protocol_name(*op_type),
{
    match op_type {
        OperationType::Query => "GraphQLQuery",
        OperationType::Mutation => "GraphQLMutation",
        OperationType::Subscription => "GraphQLSubscription",
    }
}

/// The name of the generated declaration of an operation.
pub open spec fn spec_operation_definition_name(d: OperationDefinition) -> Seq<char> {
    spec_generated_definition_name(d.name@, spec_operation_type_name(d.operation_type), d.is_local_cache_mutation)
}

/// The opening of an operation's declaration and its `operationName`.
pub open spec fn spec_operation_declaration(d: OperationDefinition, parent: Seq<char>, member: Seq<char>) -> Seq<char> {
    parent + "struct "@ + spec_operation_definition_name(d) + ": "@ + spec_rendered_protocol_name(d.operation_type)
        + " {\n  "@ + member + "static let operationName: String = \""@ + d.name@ + "\"\n"@
}

/// The references to the fragments of an operation: each fragment's type, comma separated.
pub open spec fn spec_fragment_references(names: Seq<Seq<char>>) -> Seq<char> {
    join(names.map_values(|n: Seq<char>| spec_as_fragment_name(n) + ".self"@), ", "@)
}

/// The `operationDocument` of an operation: the persisted query identifier and the
/// definition, each as the document format asks, with the referenced fragments after the
/// definition when there are any.
pub open spec fn spec_document_type(
    operation: Operation,
    identifier: Option<Seq<char>>,
    format: OperationDocumentFormat,
    member: Seq<char>,
) -> Seq<char> {
    "  "@ + member + "static let operationDocument: "@ + APOLLO_API_TARGET_NAME@ + ".OperationDocument = .init(\n"@
        + (if format.operation_id {
        "    operationIdentifier: \""@ + match identifier {
            Some(id) => id,
            None => Seq::empty(),
        } + "\""@ + (if format.definition {
            ","@
        } else {
            Seq::empty()
        }) + "\n"@
    } else {
        Seq::empty()
    }) + if format.definition {
        "    definition: .init(\n      #\""@ + spec_converted_to_single_line(operation.definition.source@) + "\"#"@
            + (if operation.referenced_fragments@.len() > 0 {
            ",\n      fragments: ["@ + spec_fragment_references(views(operation.referenced_fragments@)) + "]"@
        } else {
            Seq::empty()
        }) + "\n    ))\n"@
    } else {
        "  )\n"@
    }
}

/// The variable properties, the initializer and the variables accessor of an operation,
/// each indented and preceded by a blank line; the properties and the accessor only where
/// there are variables.
pub open spec fn spec_variable_sections(
    vs: Seq<VariableDefinition>,
    config: ApolloCodegenConfiguration,
    graphql_operation: bool,
) -> Seq<char> {
    let accessors = spec_variable_accessors(vs, config, graphql_operation);
    (if vs.len() > 0 {
        "\n"@ + spec_indent(spec_variable_properties(vs, config), 2) + "\n"@
    } else {
        Seq::empty()
    }) + "\n"@ + spec_indent(spec_initializer(vs, config), 2) + "\n"@ + if accessors.len() > 0 {
        "\n"@ + spec_indent(accessors, 2) + "\n"@
    } else {
        Seq::empty()
    }
}

/// The `Data` struct of an operation, holding its selection set's body.
pub open spec fn spec_data_struct(member: Seq<char>, selection_set_type: Seq<char>, body: Seq<char>) -> Seq<char> {
    "\n  "@ + member + "struct Data: "@ + selection_set_type + " {\n"@ + spec_indent(body, 4) + "\n  }\n"@
}

/// Renders the variable sections, as `spec_variable_sections` describes.
pub(crate) fn render_variable_sections(
    variables: &[VariableDefinition],
    config: &ApolloCodegenConfiguration,
    graphql_operation: bool,
) -> (r: String)
    requires
        spec_variables_renderable(variables@),
    ensures
        r@ == spec_variable_sections(variables@, *config, graphql_operation),
{
    let mut r = String::new();
    if variables.len() > 0 {
        let properties = render_variable_properties(variables, config);
        r.append("\n");
        r.append(indent(properties.as_str(), 2).as_str());
        r.append("\n");
    }
    r.append("\n");
    r.append(indent(render_initializer(variables, config).as_str(), 2).as_str());
    r.append("\n");
    let accessors = render_variable_accessors(variables, config, graphql_operation);
    if !accessors.as_str().is_empty() {
        r.append("\n");
        r.append(indent(accessors.as_str(), 2).as_str());
        r.append("\n");
    }
    r
}

/// Renders the `Data` struct, as `spec_data_struct` describes.
pub(crate) fn render_data_struct(member: &str, selection_set_type: &str, body: &str) -> (r: String)
    ensures
        r@ == spec_data_struct(member@, selection_set_type@, body@),
{
    let mut r = String::from_str("\n  ");
    r.append(member);
    r.append("struct Data: ");
    r.append(selection_set_type);
    r.append(" {\n");
    r.append(indent(body, 4).as_str());
    r.append("\n  }\n");
    r
}

/// The body of the `Data` selection set of an operation, with initializers where the
/// configuration asks for them for the operation.
pub open spec fn spec_operation_selection_set_body(operation: Operation, config: ConfigurationContext, member: Seq<char>) -> Seq<char> {
    let d = operation.definition;
    spec_body(
        d.is_local_cache_mutation,
        spec_should_generate_selection_set_initializers(
            config.config.options.selection_set_initializers,
            d.name@,
            d.is_local_cache_mutation,
            false,
        ),
        config,
        member,
        operation.root_selection_set,
    )
}

/// Renders the body of the `Data` selection set of an operation, as
/// `spec_operation_selection_set_body` describes.
pub(crate) fn render_operation_selection_set_body(operation: &Operation, config: &ConfigurationContext, member: &str) -> (r: String)
    requires
        spec_node_writable(operation.root_selection_set),
    ensures
        r@ == spec_operation_selection_set_body(*operation, *config, member@),
{
    let d = &operation.definition;
    let generate_initializers = should_generate_selection_set_initializers(
        &config.config.options.selection_set_initializers,
        d.name.as_str(),
        d.is_local_cache_mutation,
        false,
    );
    let template = SelectionSetTemplate {
        is_mutable: d.is_local_cache_mutation,
        generate_initializers,
        config,
        access_control: String::from_str(member),
    };
    template.render_body(&operation.root_selection_set)
}

/// The body of an operation's file: its declaration, document, variables and `Data`
/// struct, closed, then the metadata of its deferred fragments where it has some.
pub open spec fn spec_operation_body(
    operation: Operation,
    identifier: Option<Seq<char>>,
    config: ConfigurationContext,
    parent: Seq<char>,
    member: Seq<char>,
) -> Seq<char> {
    let d = operation.definition;
    let selection_set_body = spec_operation_selection_set_body(operation, config, member);
    let deferred = spec_deferred_metadata(
        spec_deferred_paths(operation.root_selections, Seq::empty(), config.pluralizer),
        spec_operation_definition_name(d),
        parent,
    );
    spec_operation_declaration(d, parent, member)
        + spec_document_type(operation, identifier, config.config.options.operation_document_format, member)
        + spec_variable_sections(d.variables@, config.config, true)
        + spec_data_struct(member, spec_rendered_selection_set_type(config.config.schema_namespace@, false), selection_set_body)
        + "}\n"@ + if operation.contains_deferred_fragment && deferred.len() > 0 {
        deferred + "\n"@
    } else {
        Seq::empty()
    }
}

/// The file target of an operation: an operation file with the operation's module imports.
pub open spec fn spec_operation_target(d: OperationDefinition) -> TemplateTarget {
    TemplateTarget::OperationFile { module_imports: Some(d.module_imports) }
}

/// Renders the declaration of an operation.
pub struct OperationDefinitionTemplate {
    operation: Operation,
    /// The persisted query identifier of the operation.
    operation_identifier: Option<String>,
    config: ConfigurationContext,
}

impl OperationDefinitionTemplate {
    /// The operation the template declares.
    pub closed spec fn spec_operation(&self) -> Operation {
        self.operation
    }

    /// The persisted query identifier of the operation, if it has one.
    pub closed spec fn spec_operation_identifier(&self) -> Option<Seq<char>> {
        opt_view(self.operation_identifier)
    }

    /// An identifier is at hand when the document format asks for one, and every default
    /// value of a variable can be written for its type.
    #[verifier::type_invariant]
    spec fn renderable(self) -> bool {
        &&& self.config.config.options.operation_document_format.operation_id ==> self.operation_identifier.is_some()
        &&& spec_variables_renderable(self.operation.definition.variables@)
        &&& spec_node_writable(self.operation.root_selection_set)
        &&& spec_selections_wf(self.operation.root_selections)
    }

    /// A template for the operation, with its persisted query identifier.
    pub fn new(operation: Operation, operation_identifier: Option<String>, config: ConfigurationContext) -> (r: Self)
        requires
            config.config.options.operation_document_format.operation_id ==> operation_identifier.is_some(),
            spec_variables_renderable(operation.definition.variables@),
            spec_node_writable(operation.root_selection_set),
            spec_selections_wf(operation.root_selections),
        ensures
            r.spec_operation() == operation,
            r.spec_operation_identifier() == opt_view(operation_identifier),
            r.spec_config() == config,
            r.spec_target() == spec_operation_target(operation.definition),
            r.spec_body() == spec_operation_body(
                operation,
                opt_view(operation_identifier),
                config,
                spec_template_access(spec_operation_target(operation.definition), config.config, Scope::Parent),
                spec_template_access(spec_operation_target(operation.definition), config.config, Scope::Member),
            ),
    {
        OperationDefinitionTemplate { operation, operation_identifier, config }
    }

    /// Renders the opening of the declaration, as `spec_operation_declaration` describes.
    pub fn render_operation_declaration(&self, parent_access: &str, member_access: &str) -> (r: String)
        ensures
            r@ == spec_operation_declaration(self.spec_operation().definition, parent_access@, member_access@),
    {
        let d = &self.operation.definition;
        let definition_name = generated_definition_name(
            d.name.as_str(),
            d.operation_type.display_name(),
            d.is_local_cache_mutation,
        );
        let mut r = String::from_str(parent_access);
        r.append("struct ");
        r.append(definition_name.as_str());
        r.append(": ");
        r.append(rendered_protocol_name(&d.operation_type));
        r.append(" {\n  ");
        r.append(member_access);
        r.append("static let operationName: String = \"");
        r.append(d.name.as_str());
        r.append("\"\n");
        r
    }

    /// Renders the operation document, as `spec_document_type` describes.
    pub fn render_document_type(&self, member_access: &str) -> (r: String)
        ensures
            r@ == spec_document_type(
                self.spec_operation(),
                self.spec_operation_identifier(),
                self.spec_config().config.options.operation_document_format,
                member_access@,
            ),
    {
        proof {
            use_type_invariant(self);
        }
        let format = self.config.config.options.operation_document_format;
        let mut r = String::from_str("  ");
        r.append(member_access);
        r.append("static let operationDocument: ");
        r.append(APOLLO_API_TARGET_NAME);
        r.append(".OperationDocument = .init(\n");
        if format.operation_id {
            let id = match &self.operation_identifier {
                Some(id) => id.as_str(),
                None => "",
            };
            r.append("    operationIdentifier: \"");
            r.append(id);
            r.append("\"");
            if format.definition {
                r.append(",");
            }
            r.append("\n");
        }
        if format.definition {
            r.append("    definition: .init(\n      #\"");
            r.append(converted_to_single_line(self.operation.definition.source.as_str()).as_str());
            r.append("\"#");
            let fragments = &self.operation.referenced_fragments;
            if fragments.len() > 0 {
                let ghost names = views(fragments@);
                let mut references: Vec<String> = Vec::new();
                let mut i: usize = 0;
                while i < fragments.len()
                    invariant
                        i <= fragments@.len(),
                        names == views(fragments@),
                        views(references@) == names.map_values(|n: Seq<char>| spec_as_fragment_name(n) + ".self"@).take(i as int),
                    decreases fragments.len() - i,
                {
                    let mut reference = as_fragment_name(fragments[i].as_str());
                    reference.append(".self");
                    push_part(&mut references, reference);
                    proof {
                        assert(names[i as int] == fragments@[i as int]@);
                        assert(views(references@) =~= names.map_values(|n: Seq<char>| spec_as_fragment_name(n) + ".self"@).take(i + 1));
                    }
                    i = i + 1;
                }
                proof {
                    assert(names.map_values(|n: Seq<char>| spec_as_fragment_name(n) + ".self"@).take(fragments@.len() as int)
                        =~= names.map_values(|n: Seq<char>| spec_as_fragment_name(n) + ".self"@));
                }
                r.append(",\n      fragments: [");
                r.append(join_strings(&references, ", ").as_str());
                r.append("]");
            }
            r.append("\n    ))\n");
        } else {
            r.append("  )\n");
        }
        r
    }
}

impl TemplateRenderer for OperationDefinitionTemplate {
    closed spec fn spec_config(&self) -> ConfigurationContext {
        self.config
    }

    closed spec fn spec_target(&self) -> TemplateTarget {
        spec_operation_target(self.operation.definition)
    }

    closed spec fn spec_body(&self) -> Seq<char> {
        spec_operation_body(
            self.operation,
            opt_view(self.operation_identifier),
            self.config,
            spec_template_access(spec_operation_target(self.operation.definition), self.config.config, Scope::Parent),
            spec_template_access(spec_operation_target(self.operation.definition), self.config.config, Scope::Member),
        )
    }

    fn config(&self) -> (r: &ConfigurationContext) {
        &self.config
    }

    fn target(&self) -> (r: TemplateTarget) {
        TemplateTarget::OperationFile { module_imports: Some(copy_strings(&self.operation.definition.module_imports)) }
    }

    fn render_header_template(&self, _non_fatal_error_recorder: &NonFatalErrorRecorder) -> (r: Option<String>) {
        standard_header_template()
    }

    fn render_detached_template(&self, _non_fatal_error_recorder: &NonFatalErrorRecorder) -> (r: Option<String>) {
        None
    }

    fn render_body_template(&self, _non_fatal_error_recorder: &NonFatalErrorRecorder) -> (r: String) {
        proof {
            use_type_invariant(self);
        }
        let member_access = self.access_control_renderer(Scope::Member).render();
        let parent_access = self.access_control_renderer(Scope::Parent).render();
        let mut r = self.render_operation_declaration(parent_access.as_str(), member_access.as_str());
        r.append(self.render_document_type(member_access.as_str()).as_str());
        r.append(render_variable_sections(self.operation.definition.variables.as_slice(), &self.config.config, true).as_str());
        let selection_set_type = rendered_selection_set_type(&self.config, false);
        let selection_set_body = render_operation_selection_set_body(&self.operation, &self.config, member_access.as_str());
        r.append(render_data_struct(member_access.as_str(), selection_set_type.as_str(), selection_set_body.as_str()).as_str());
        r.append("}\n");
        if self.operation.contains_deferred_fragment {
            let deferred = DeferredFragmentsMetadataTemplate {
                operation: &self.operation,
                config: &self.config,
                render_access_control: parent_access,
            };
            let output = deferred.render();
            if !output.as_str().is_empty() {
                r.append(output.as_str());
                r.append("\n");
            }
        }
        r
    }
}

} // verus!
