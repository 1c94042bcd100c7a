//! The `Union` declaration generated for a GraphQL union type.
use vstd::prelude::*;

use crate::graphql::{GraphQLNamedType, GraphQLUnionType, spec_type_name_documentation};
use crate::templates::rendering_helpers::graphql_name_rendering::{
    RenderContext, render_named_type, spec_render_named_type,
};
use crate::templates::rendering_helpers::template_blocks::{render_bracketed_list, spec_bracketed_list};
use crate::templates::rendering_helpers::template_string_documentation::{
    render_documentation, spec_rendered_documentation,
};
use crate::templates::schema::{
    object_references, schema_namespace_prefix, spec_object_references, spec_schema_namespace_prefix,
};
use crate::templates::{
    spec_nonisolated_modifier, standard_header_template, ConfigurationContext, NonFatalErrorRecorder,
    SchemaFileType, TemplateRenderer, TemplateTarget,
};
use crate::text::{join, join_strings, opt_part, opt_str_view, opt_view, push_opt_part, push_part, views};

verus! {

/// The possible types of a union: `[]` when it has none, else the references to its
/// member objects as a bracketed list.
pub open spec fn spec_possible_types(u: GraphQLUnionType, config: ConfigurationContext) -> Seq<char> {
    if u.types@.len() == 0 {
        "[]"@
    } else {
        spec_bracketed_list(spec_object_references(u.types@, spec_schema_namespace_prefix(config)))
    }
}

/// The body of a union's file: its documentation, the note on its schema name, and the
/// `Union` declaration.
pub open spec fn spec_union_body(u: GraphQLUnionType, config: ConfigurationContext) -> Seq<char> {
    let declaration = spec_nonisolated_modifier(config.config) + "static let "@
        + spec_render_named_type(GraphQLNamedType::Union(&u), RenderContext::Typename { is_input_value: false })
        + " = Union(\n  name: \""@ + u.name.schema_name@ + "\",\n  possibleTypes: "@ + spec_possible_types(u, config) + "\n)"@;
    join(
        opt_part(spec_rendered_documentation(opt_view(u.documentation), config.config))
            + opt_part(spec_type_name_documentation(u.name)) + seq![declaration],
        seq!['\n'],
    )
}

/// Renders a GraphQL union as a `Union` declaration.
pub struct UnionTemplate {
    pub graphql_union: GraphQLUnionType,
    pub config: ConfigurationContext,
}

impl TemplateRenderer for UnionTemplate {
    open spec fn spec_config(&self) -> ConfigurationContext {
        self.config
    }

    open spec fn spec_target(&self) -> TemplateTarget {
        TemplateTarget::SchemaFile(SchemaFileType::Union)
    }

    open spec fn spec_body(&self) -> Seq<char> {
        spec_union_body(self.graphql_union, self.config)
    }

    fn config(&self) -> (r: &ConfigurationContext) {
        &self.config
    }

    fn target(&self) -> (r: TemplateTarget) {
        TemplateTarget::SchemaFile(SchemaFileType::Union)
    }

    fn render_header_template(&self, _non_fatal_error_recorder: &NonFatalErrorRecorder) -> (r: Option<String>) {
        standard_header_template()
    }

    fn render_detached_template(&self, _non_fatal_error_recorder: &NonFatalErrorRecorder) -> (r: Option<String>) {
        None
    }

    fn render_body_template(&self, _non_fatal_error_recorder: &NonFatalErrorRecorder) -> (r: String) {
        let mut parts: Vec<String> = Vec::new();
        let documentation = match &self.graphql_union.documentation {
            Some(d) => Some(d.as_str()),
            None => None,
        };
        proof {
            assert(opt_str_view(documentation) == opt_view(self.graphql_union.documentation));
        }
        push_opt_part(&mut parts, render_documentation(documentation, &self.config));
        push_opt_part(&mut parts, self.graphql_union.name.type_name_documentation());
        let typename = render_named_type(
            &GraphQLNamedType::Union(&self.graphql_union),
            &RenderContext::Typename { is_input_value: false },
        );
        let possible_types = self.render_possible_types();
        let mut declaration = self.config.nonisolated_modifier();
        declaration.append("static let ");
        declaration.append(typename.as_str());
        declaration.append(" = Union(\n  name: \"");
        declaration.append(self.graphql_union.name.schema_name.as_str());
        declaration.append("\",\n  possibleTypes: ");
        declaration.append(possible_types.as_str());
        declaration.append("\n)");
        let ghost declaration_v = declaration@;
        push_part(&mut parts, declaration);
        proof {
            reveal_strlit("\n");
            assert("\n"@ =~= seq!['\n']);
            let u = self.graphql_union;
            let c = self.config;
            assert(declaration_v =~= spec_nonisolated_modifier(c.config) + "static let "@
                + spec_render_named_type(GraphQLNamedType::Union(&u), RenderContext::Typename { is_input_value: false })
                + " = Union(\n  name: \""@ + u.name.schema_name@ + "\",\n  possibleTypes: "@ + spec_possible_types(u, c) + "\n)"@);
            assert(views(parts@) =~= opt_part(spec_rendered_documentation(opt_view(u.documentation), c.config))
                + opt_part(spec_type_name_documentation(u.name)) + seq![declaration_v]);
        }
        join_strings(&parts, "\n")
    }
}

impl UnionTemplate {
    fn render_possible_types(&self) -> (r: String)
        ensures
            r@ == spec_possible_types(self.graphql_union, self.config),
    {
        if self.graphql_union.types.len() == 0 {
            return String::from_str("[]");
        }
        let prefix = schema_namespace_prefix(&self.config);
        let items = object_references(&self.graphql_union.types, prefix.as_str());
        render_bracketed_list(items.as_slice())
    }
}

} // verus!
