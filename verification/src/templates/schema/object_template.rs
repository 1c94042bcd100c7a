//! The `Object` declaration generated for a GraphQL object type.
use vstd::prelude::*;

use crate::graphql::{GraphQLNamedType, GraphQLObjectType, spec_type_name_documentation};
use crate::templates::rendering_helpers::graphql_name_rendering::{
    RenderContext, render_named_type, spec_render_named_type,
};
use crate::templates::rendering_helpers::template_blocks::{render_bracketed_list, spec_bracketed_list};
use crate::templates::rendering_helpers::template_string_documentation::{
    render_documentation, spec_rendered_documentation,
};
use crate::templates::schema::{
    interface_references, render_key_fields, schema_namespace_prefix, spec_interface_references, spec_key_fields,
    spec_schema_namespace_prefix,
};
use crate::templates::{
    standard_header_template, ConfigurationContext, NonFatalErrorRecorder, SchemaFileType,
    TemplateRenderer, TemplateTarget,
};
use crate::text::{join, join_strings, opt_part, opt_str_view, opt_view, push_opt_part, push_part, views};

verus! {

/// The interfaces an object implements: `[]` when it implements none, else the
/// references to them as a bracketed list.
pub open spec fn spec_implemented_interfaces(o: GraphQLObjectType, config: ConfigurationContext) -> Seq<char> {
    if o.interfaces@.len() == 0 {
        "[]"@
    } else {
        spec_bracketed_list(spec_interface_references(o.interfaces@, spec_schema_namespace_prefix(config)))
    }
}

/// The body of an object's file: its documentation, the note on its schema name, and the
/// `Object` declaration with its implemented interfaces and key fields.
pub open spec fn spec_object_body(o: GraphQLObjectType, config: ConfigurationContext) -> Seq<char> {
    let declaration = "static let "@
        + spec_render_named_type(GraphQLNamedType::Object(&o), RenderContext::Typename { is_input_value: false })
        + " = ApolloAPI.Object(\n  typename: \""@ + o.name.schema_name@ + "\",\n  implementedInterfaces: "@
        + spec_implemented_interfaces(o, config) + ",\n  keyFields: "@ + spec_key_fields(o.key_fields) + "\n)"@;
    join(
        opt_part(spec_rendered_documentation(opt_view(o.documentation), config.config))
            + opt_part(spec_type_name_documentation(o.name)) + seq![declaration],
        seq!['\n'],
    )
}

/// Renders a GraphQL object type as an `Object` declaration.
pub struct ObjectTemplate {
    pub graphql_object: GraphQLObjectType,
    pub config: ConfigurationContext,
}

impl TemplateRenderer for ObjectTemplate {
    open spec fn spec_config(&self) -> ConfigurationContext {
        self.config
    }

    open spec fn spec_target(&self) -> TemplateTarget {
        TemplateTarget::SchemaFile(SchemaFileType::Object)
    }

    open spec fn spec_body(&self) -> Seq<char> {
        spec_object_body(self.graphql_object, self.config)
    }

    fn config(&self) -> (r: &ConfigurationContext) {
        &self.config
    }

    fn target(&self) -> (r: TemplateTarget) {
        TemplateTarget::SchemaFile(SchemaFileType::Object)
    }

    fn render_header_template(&self, _non_fatal_error_recorder: &NonFatalErrorRecorder) -> (r: Option<String>) {
        standard_header_template()
    }

    fn render_detached_template(&self, _non_fatal_error_recorder: &NonFatalErrorRecorder) -> (r: Option<String>) {
        None
    }

    fn render_body_template(&self, _non_fatal_error_recorder: &NonFatalErrorRecorder) -> (r: String) {
        let mut parts: Vec<String> = Vec::new();
        let documentation = match &self.graphql_object.documentation {
            Some(d) => Some(d.as_str()),
            None => None,
        };
        proof {
            assert(opt_str_view(documentation) == opt_view(self.graphql_object.documentation));
        }
        push_opt_part(&mut parts, render_documentation(documentation, &self.config));
        push_opt_part(&mut parts, self.graphql_object.name.type_name_documentation());
        let typename = render_named_type(
            &GraphQLNamedType::Object(&self.graphql_object),
            &RenderContext::Typename { is_input_value: false },
        );
        let implemented_interfaces = self.render_implemented_interfaces();
        let key_fields = render_key_fields(&self.graphql_object.key_fields);
        let mut declaration = String::from_str("static let ");
        declaration.append(typename.as_str());
        declaration.append(" = ApolloAPI.Object(\n  typename: \"");
        declaration.append(self.graphql_object.name.schema_name.as_str());
        declaration.append("\",\n  implementedInterfaces: ");
        declaration.append(implemented_interfaces.as_str());
        declaration.append(",\n  keyFields: ");
        declaration.append(key_fields.as_str());
        declaration.append("\n)");
        let ghost declaration_v = declaration@;
        push_part(&mut parts, declaration);
        proof {
            reveal_strlit("\n");
            assert("\n"@ =~= seq!['\n']);
            let o = self.graphql_object;
            let c = self.config;
            assert(declaration_v =~= "static let "@
                + spec_render_named_type(GraphQLNamedType::Object(&o), RenderContext::Typename { is_input_value: false })
                + " = ApolloAPI.Object(\n  typename: \""@ + o.name.schema_name@ + "\",\n  implementedInterfaces: "@
                + spec_implemented_interfaces(o, c) + ",\n  keyFields: "@ + spec_key_fields(o.key_fields) + "\n)"@);
            assert(views(parts@) =~= opt_part(spec_rendered_documentation(opt_view(o.documentation), c.config))
                + opt_part(spec_type_name_documentation(o.name)) + seq![declaration_v]);
        }
        join_strings(&parts, "\n")
    }
}

impl ObjectTemplate {
    fn render_implemented_interfaces(&self) -> (r: String)
        ensures
            r@ == spec_implemented_interfaces(self.graphql_object, self.config),
    {
        if self.graphql_object.interfaces.len() == 0 {
            return String::from_str("[]");
        }
        let prefix = schema_namespace_prefix(&self.config);
        let items = interface_references(&self.graphql_object.interfaces, prefix.as_str());
        render_bracketed_list(items.as_slice())
    }
}

} // verus!
