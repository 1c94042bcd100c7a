//! The `Interface` declaration generated for a GraphQL interface type.
use vstd::prelude::*;

use crate::graphql::{GraphQLInterfaceType, GraphQLNamedType, spec_type_name_documentation};
use crate::templates::rendering_helpers::graphql_name_rendering::{
    RenderContext, render_named_type, spec_render_named_type,
};
use crate::templates::rendering_helpers::template_blocks::{render_bracketed_list, spec_bracketed_list};
use crate::templates::rendering_helpers::template_string_documentation::{
    render_documentation, spec_rendered_documentation,
};
use crate::templates::schema::{quoted_object_names, render_key_fields, spec_key_fields, spec_quoted_object_names};
use crate::templates::{
    spec_nonisolated_modifier, standard_header_template, ConfigurationContext, NonFatalErrorRecorder,
    SchemaFileType, TemplateRenderer, TemplateTarget,
};
use crate::text::{join, join_strings, opt_part, opt_str_view, opt_view, push_opt_part, push_part, views};

verus! {

/// The implementing objects of an interface: `[]` when there are none, else their quoted
/// type names as a bracketed list.
pub open spec fn spec_implementing_objects(i: GraphQLInterfaceType) -> Seq<char> {
    if i.implementing_objects@.len() == 0 {
        "[]"@
    } else {
        spec_bracketed_list(spec_quoted_object_names(i.implementing_objects@))
    }
}

/// The body of an interface's file: its documentation, the note on its schema name, and
/// the `Interface` declaration.
pub open spec fn spec_interface_body(i: GraphQLInterfaceType, config: ConfigurationContext) -> Seq<char> {
    let declaration = spec_nonisolated_modifier(config.config) + "static let "@
        + spec_render_named_type(GraphQLNamedType::Interface(&i), RenderContext::Typename { is_input_value: false })
        + " = ApolloAPI.Interface(\n  name: \""@ + i.name.schema_name@ + "\",\n  keyFields: "@
        + spec_key_fields(i.key_fields) + ",\n  implementingObjects: "@ + spec_implementing_objects(i) + "\n)"@;
    join(
        opt_part(spec_rendered_documentation(opt_view(i.documentation), config.config))
            + opt_part(spec_type_name_documentation(i.name)) + seq![declaration],
        seq!['\n'],
    )
}

/// Renders a GraphQL interface as an `Interface` declaration.
pub struct InterfaceTemplate {
    pub graphql_interface: GraphQLInterfaceType,
    pub config: ConfigurationContext,
}

impl TemplateRenderer for InterfaceTemplate {
    open spec fn spec_config(&self) -> ConfigurationContext {
        self.config
    }

    open spec fn spec_target(&self) -> TemplateTarget {
        TemplateTarget::SchemaFile(SchemaFileType::Interface)
    }

    open spec fn spec_body(&self) -> Seq<char> {
        spec_interface_body(self.graphql_interface, self.config)
    }

    fn config(&self) -> (r: &ConfigurationContext) {
        &self.config
    }

    fn target(&self) -> (r: TemplateTarget) {
        TemplateTarget::SchemaFile(SchemaFileType::Interface)
    }

    fn render_header_template(&self, _non_fatal_error_recorder: &NonFatalErrorRecorder) -> (r: Option<String>) {
        standard_header_template()
    }

    fn render_detached_template(&self, _non_fatal_error_recorder: &NonFatalErrorRecorder) -> (r: Option<String>) {
        None
    }

    fn render_body_template(&self, _non_fatal_error_recorder: &NonFatalErrorRecorder) -> (r: String) {
        let mut parts: Vec<String> = Vec::new();
        let documentation = match &self.graphql_interface.documentation {
            Some(d) => Some(d.as_str()),
            None => None,
        };
        proof {
            assert(opt_str_view(documentation) == opt_view(self.graphql_interface.documentation));
        }
        push_opt_part(&mut parts, render_documentation(documentation, &self.config));
        push_opt_part(&mut parts, self.graphql_interface.name.type_name_documentation());
        let typename = render_named_type(
            &GraphQLNamedType::Interface(&self.graphql_interface),
            &RenderContext::Typename { is_input_value: false },
        );
        let key_fields = render_key_fields(&self.graphql_interface.key_fields);
        let implementing_objects = self.render_implementing_objects();
        let mut declaration = self.config.nonisolated_modifier();
        declaration.append("static let ");
        declaration.append(typename.as_str());
        declaration.append(" = ApolloAPI.Interface(\n  name: \"");
        declaration.append(self.graphql_interface.name.schema_name.as_str());
        declaration.append("\",\n  keyFields: ");
        declaration.append(key_fields.as_str());
        declaration.append(",\n  implementingObjects: ");
        declaration.append(implementing_objects.as_str());
        declaration.append("\n)");
        let ghost declaration_v = declaration@;
        push_part(&mut parts, declaration);
        proof {
            reveal_strlit("\n");
            assert("\n"@ =~= seq!['\n']);
            let i = self.graphql_interface;
            let c = self.config;
            assert(declaration_v =~= spec_nonisolated_modifier(c.config) + "static let "@
                + spec_render_named_type(GraphQLNamedType::Interface(&i), RenderContext::Typename { is_input_value: false })
                + " = ApolloAPI.Interface(\n  name: \""@ + i.name.schema_name@ + "\",\n  keyFields: "@
                + spec_key_fields(i.key_fields) + ",\n  implementingObjects: "@ + spec_implementing_objects(i) + "\n)"@);
            assert(views(parts@) =~= opt_part(spec_rendered_documentation(opt_view(i.documentation), c.config))
                + opt_part(spec_type_name_documentation(i.name)) + seq![declaration_v]);
        }
        join_strings(&parts, "\n")
    }
}

impl InterfaceTemplate {
    fn render_implementing_objects(&self) -> (r: String)
        ensures
            r@ == spec_implementing_objects(self.graphql_interface),
    {
        if self.graphql_interface.implementing_objects.len() == 0 {
            return String::from_str("[]");
        }
        let items = quoted_object_names(&self.graphql_interface.implementing_objects);
        render_bracketed_list(items.as_slice())
    }
}

} // verus!
