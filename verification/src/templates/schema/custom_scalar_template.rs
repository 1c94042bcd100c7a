//! The type alias generated for a custom scalar, which users may edit.
use vstd::prelude::*;

use crate::graphql::{GraphQLNamedType, GraphQLScalarType, spec_type_name_documentation};
use crate::templates::rendering_helpers::graphql_name_rendering::{
    RenderContext, render_named_type, spec_render_named_type,
};
use crate::templates::rendering_helpers::template_string_documentation::{
    render_documentation, spec_rendered_documentation,
};
use crate::templates::{
    spec_editable_file_header, spec_template_access, ConfigurationContext, HeaderCommentTemplate,
    NonFatalErrorRecorder, SchemaFileType, Scope, TemplateRenderer, TemplateTarget,
};
use crate::text::{join, join_strings, opt_part, opt_str_view, opt_view, push_opt_part, push_part, views};

verus! {

/// Why a custom scalar's file may be edited.
pub const CUSTOM_SCALAR_HEADER_REASON: &'static str = "implement advanced custom scalar functionality.";

/// The documentation of a custom scalar: its own documentation and, when it has a
/// specification URL, a link to it after a blank line.
pub open spec fn spec_custom_scalar_documentation(s: GraphQLScalarType) -> Option<Seq<char>> {
    match s.specified_by_url {
        Some(url) => {
            let specified_by = "Specified by: []("@ + url@ + ")"@;
            match s.documentation {
                Some(d) => Some(d@ + "\n\n"@ + specified_by),
                None => Some(specified_by),
            }
        },
        None => opt_view(s.documentation),
    }
}

/// The body of a custom scalar's file: its documentation, the note on its schema name, and
/// a type alias to `String`.
pub open spec fn spec_custom_scalar_body(s: GraphQLScalarType, config: ConfigurationContext) -> Seq<char> {
    let declaration = spec_template_access(TemplateTarget::SchemaFile(SchemaFileType::CustomScalar), config.config, Scope::Parent)
        + "typealias "@ + spec_render_named_type(GraphQLNamedType::Scalar(&s), RenderContext::Typename { is_input_value: false })
        + " = String\n"@;
    join(
        opt_part(spec_rendered_documentation(spec_custom_scalar_documentation(s), config.config))
            + opt_part(spec_type_name_documentation(s.name)) + seq![declaration],
        seq!['\n'],
    )
}

/// Renders a custom scalar as a type alias that users may replace.
pub struct CustomScalarTemplate {
    pub graphql_scalar: GraphQLScalarType,
    pub config: ConfigurationContext,
}

impl TemplateRenderer for CustomScalarTemplate {
    open spec fn spec_config(&self) -> ConfigurationContext {
        self.config
    }

    open spec fn spec_target(&self) -> TemplateTarget {
        TemplateTarget::SchemaFile(SchemaFileType::CustomScalar)
    }

    open spec fn spec_body(&self) -> Seq<char> {
        spec_custom_scalar_body(self.graphql_scalar, self.config)
    }

    open spec fn spec_header(&self) -> Option<Seq<char>> {
        Some(spec_editable_file_header(CUSTOM_SCALAR_HEADER_REASON@))
    }

    fn config(&self) -> (r: &ConfigurationContext) {
        &self.config
    }

    fn target(&self) -> (r: TemplateTarget) {
        TemplateTarget::SchemaFile(SchemaFileType::CustomScalar)
    }

    fn render_header_template(&self, _non_fatal_error_recorder: &NonFatalErrorRecorder) -> (r: Option<String>) {
        Some(HeaderCommentTemplate::editable_file_header(CUSTOM_SCALAR_HEADER_REASON))
    }

    fn render_detached_template(&self, _non_fatal_error_recorder: &NonFatalErrorRecorder) -> (r: Option<String>) {
        None
    }

    fn render_body_template(&self, _non_fatal_error_recorder: &NonFatalErrorRecorder) -> (r: String) {
        let mut parts: Vec<String> = Vec::new();
        let doc_template = self.documentation_template();
        let documentation = match &doc_template {
            Some(d) => Some(d.as_str()),
            None => None,
        };
        proof {
            assert(opt_str_view(documentation) == opt_view(doc_template));
        }
        push_opt_part(&mut parts, render_documentation(documentation, &self.config));
        push_opt_part(&mut parts, self.graphql_scalar.name.type_name_documentation());
        let access_control = self.access_control_renderer(Scope::Parent).render();
        let typename = render_named_type(
            &GraphQLNamedType::Scalar(&self.graphql_scalar),
            &RenderContext::Typename { is_input_value: false },
        );
        let mut declaration = access_control;
        declaration.append("typealias ");
        declaration.append(typename.as_str());
        declaration.append(" = String\n");
        let ghost declaration_v = declaration@;
        push_part(&mut parts, declaration);
        proof {
            reveal_strlit("\n");
            assert("\n"@ =~= seq!['\n']);
            let s = self.graphql_scalar;
            let c = self.config;
            assert(declaration_v =~= spec_template_access(TemplateTarget::SchemaFile(SchemaFileType::CustomScalar), c.config, Scope::Parent)
                + "typealias "@ + spec_render_named_type(GraphQLNamedType::Scalar(&s), RenderContext::Typename { is_input_value: false })
                + " = String\n"@);
            assert(views(parts@) =~= opt_part(spec_rendered_documentation(spec_custom_scalar_documentation(s), c.config))
                + opt_part(spec_type_name_documentation(s.name)) + seq![declaration_v]);
        }
        join_strings(&parts, "\n")
    }
}

impl CustomScalarTemplate {
    /// The scalar's documentation, with a link to its specification when it has one.
    fn documentation_template(&self) -> (r: Option<String>)
        ensures
            opt_view(r) == spec_custom_scalar_documentation(self.graphql_scalar),
    {
        match &self.graphql_scalar.specified_by_url {
            Some(url) => {
                let mut specified_by_docs = String::from_str("Specified by: [](");
                specified_by_docs.append(url.as_str());
                specified_by_docs.append(")");
                match &self.graphql_scalar.documentation {
                    Some(existing) => {
                        let mut r = String::from_str(existing.as_str());
                        r.append("\n\n");
                        r.append(specified_by_docs.as_str());
                        Some(r)
                    },
                    None => Some(specified_by_docs),
                }
            },
            None => match &self.graphql_scalar.documentation {
                Some(d) => Some(String::from_str(d.as_str())),
                None => None,
            },
        }
    }
}

} // verus!
