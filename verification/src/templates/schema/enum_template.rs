//! The Swift enum generated for a GraphQL enum type.
use vstd::prelude::*;

use crate::config::{ApolloCodegenConfiguration, Composition, EnumCases};
use crate::graphql::{GraphQLEnumType, GraphQLEnumValue, GraphQLNamedType, spec_type_name_documentation};
use crate::templates::rendering_helpers::graphql_name_rendering::{
    EnumRenderContext, RenderContext, render_enum_value, render_named_type, spec_render_enum_value,
    spec_render_named_type,
};
use crate::templates::rendering_helpers::string_swift_name_escaping::{
    escaped_swift_string_special_characters, spec_escaped_swift_string,
};
use crate::templates::rendering_helpers::template_string_documentation::{
    documentation_line, documentation_lines, render_documentation, spec_rendered_documentation,
};
use crate::templates::{
    spec_nonisolated_modifier, spec_template_access, standard_header_template, ConfigurationContext,
    NonFatalErrorRecorder, SchemaFileType, Scope, TemplateRenderer, TemplateTarget,
};
use crate::text::{
    join, join_strings, opt_part, opt_str_view, opt_view, push_opt_part, push_part,
    spec_lines, views,
};

verus! {

/// A value's documentation as comment lines of an enum case, indented by two spaces.
pub open spec fn spec_case_documentation(doc: Seq<char>) -> Seq<char> {
    "  "@ + join(spec_lines(doc).map_values(|l: Seq<char>| documentation_line(l)), "\n  "@)
}

/// The declaration of an enum case: with its raw value when case names are converted.
pub open spec fn spec_case_definition(value: GraphQLEnumValue, config: ApolloCodegenConfiguration) -> Seq<char> {
    let case_name = spec_render_enum_value(value, EnumRenderContext::EnumCase, config);
    if config.options.conversion_strategies.enum_cases != EnumCases::Unchanged {
        "  case "@ + case_name + " = \""@ + spec_render_enum_value(value, EnumRenderContext::EnumRawValue, config) + "\""@
    } else {
        "  case "@ + case_name
    }
}

/// The lines of an enum case: its documentation, its deprecation note (after a blank
/// comment line when documented), the note on its schema name, and its declaration.
pub open spec fn spec_enum_case_parts(value: GraphQLEnumValue, config: ApolloCodegenConfiguration) -> Seq<Seq<char>> {
    let documented = value.documentation is Some && config.options.schema_documentation == Composition::Include;
    (if documented {
        seq![spec_case_documentation(value.documentation->0@)]
    } else {
        Seq::empty()
    }) + match value.deprecation_reason {
        Some(reason) => (if documented {
            seq!["  ///"@]
        } else {
            Seq::empty()
        }) + seq!["  /// **Deprecated**: "@ + spec_escaped_swift_string(reason@)],
        None => Seq::empty(),
    } + match spec_type_name_documentation(value.name) {
        Some(t) => seq!["  "@ + t],
        None => Seq::empty(),
    } + seq![spec_case_definition(value, config)]
}

/// An enum case: none for a deprecated value when deprecated cases are excluded.
pub open spec fn spec_enum_case(value: GraphQLEnumValue, config: ApolloCodegenConfiguration) -> Option<Seq<char>> {
    if config.options.deprecated_enum_cases == Composition::Exclude && value.deprecation_reason is Some {
        None
    } else {
        Some(join(spec_enum_case_parts(value, config), seq!['\n']))
    }
}

/// The cases of the values, in order, leaving out those that are not generated.
pub open spec fn spec_enum_cases(values: Seq<GraphQLEnumValue>, config: ApolloCodegenConfiguration) -> Seq<Seq<char>>
    decreases values.len(),
{
    if values.len() == 0 {
        Seq::empty()
    } else {
        spec_enum_cases(values.drop_last(), config) + opt_part(spec_enum_case(values.last(), config))
    }
}

/// The body of an enum's file: its documentation, the note on its schema name, and the
/// enum declaration with its cases.
pub open spec fn spec_enum_body(e: GraphQLEnumType, config: ConfigurationContext) -> Seq<char> {
    let declaration = spec_nonisolated_modifier(config.config)
        + spec_template_access(TemplateTarget::SchemaFile(SchemaFileType::Enum), config.config, Scope::Parent)
        + "enum "@ + spec_render_named_type(GraphQLNamedType::Enum(&e), RenderContext::Typename { is_input_value: false })
        + ": String, EnumType {\n"@ + join(spec_enum_cases(e.values@, config.config), seq!['\n']) + "\n}\n"@;
    join(
        opt_part(spec_rendered_documentation(opt_view(e.documentation), config.config))
            + opt_part(spec_type_name_documentation(e.name)) + seq![declaration],
        seq!['\n'],
    )
}

/// Renders a GraphQL enum as a Swift enum.
pub struct EnumTemplate {
    pub graphql_enum: GraphQLEnumType,
    pub config: ConfigurationContext,
}

impl TemplateRenderer for EnumTemplate {
    open spec fn spec_config(&self) -> ConfigurationContext {
        self.config
    }

    open spec fn spec_target(&self) -> TemplateTarget {
        TemplateTarget::SchemaFile(SchemaFileType::Enum)
    }

    open spec fn spec_body(&self) -> Seq<char> {
        spec_enum_body(self.graphql_enum, self.config)
    }

    fn config(&self) -> (r: &ConfigurationContext) {
        &self.config
    }

    fn target(&self) -> (r: TemplateTarget) {
        TemplateTarget::SchemaFile(SchemaFileType::Enum)
    }

    fn render_header_template(&self, _non_fatal_error_recorder: &NonFatalErrorRecorder) -> (r: Option<String>) {
        standard_header_template()
    }

    fn render_detached_template(&self, _non_fatal_error_recorder: &NonFatalErrorRecorder) -> (r: Option<String>) {
        None
    }

    fn render_body_template(&self, _non_fatal_error_recorder: &NonFatalErrorRecorder) -> (r: String) {
        let mut parts: Vec<String> = Vec::new();
        let documentation = match &self.graphql_enum.documentation {
            Some(d) => Some(d.as_str()),
            None => None,
        };
        proof {
            assert(opt_str_view(documentation) == opt_view(self.graphql_enum.documentation));
        }
        push_opt_part(&mut parts, render_documentation(documentation, &self.config));
        push_opt_part(&mut parts, self.graphql_enum.name.type_name_documentation());
        let access_control = self.access_control_renderer(Scope::Parent).render();
        let typename = render_named_type(
            &GraphQLNamedType::Enum(&self.graphql_enum),
            &RenderContext::Typename { is_input_value: false },
        );
        let cases = self.enum_cases();
        let cases_str = join_strings(&cases, "\n");
        let mut declaration = self.config.nonisolated_modifier();
        declaration.append(access_control.as_str());
        declaration.append("enum ");
        declaration.append(typename.as_str());
        declaration.append(": String, EnumType {\n");
        declaration.append(cases_str.as_str());
        declaration.append("\n}\n");
        let ghost declaration_v = declaration@;
        push_part(&mut parts, declaration);
        proof {
            reveal_strlit("\n");
            assert("\n"@ =~= seq!['\n']);
            let e = self.graphql_enum;
            let c = self.config;
            assert(declaration_v =~= spec_nonisolated_modifier(c.config)
                + spec_template_access(TemplateTarget::SchemaFile(SchemaFileType::Enum), c.config, Scope::Parent)
                + "enum "@ + spec_render_named_type(GraphQLNamedType::Enum(&e), RenderContext::Typename { is_input_value: false })
                + ": String, EnumType {\n"@ + join(spec_enum_cases(e.values@, c.config), seq!['\n']) + "\n}\n"@);
            assert(views(parts@) =~= opt_part(spec_rendered_documentation(opt_view(e.documentation), c.config))
                + opt_part(spec_type_name_documentation(e.name)) + seq![declaration_v]);
        }
        join_strings(&parts, "\n")
    }
}

impl EnumTemplate {
    fn enum_cases(&self) -> (r: Vec<String>)
        ensures
            views(r@) == spec_enum_cases(self.graphql_enum.values@, self.config.config),
    {
        let values = &self.graphql_enum.values;
        let mut r: Vec<String> = Vec::new();
        let mut i: usize = 0;
        while i < values.len()
            invariant
                i <= values.len(),
                values == &self.graphql_enum.values,
                views(r@) == spec_enum_cases(values@.take(i as int), self.config.config),
            decreases values.len() - i,
        {
            let case = self.enum_case(&values[i]);
            proof {
                assert(values@.take(i + 1).drop_last() =~= values@.take(i as int));
                assert(values@.take(i + 1).last() == values@[i as int]);
            }
            push_opt_part(&mut r, case);
            i = i + 1;
        }
        proof {
            assert(values@.take(values.len() as int) =~= values@);
        }
        r
    }

    fn enum_case(&self, value: &GraphQLEnumValue) -> (r: Option<String>)
        ensures
            opt_view(r) == spec_enum_case(*value, self.config.config),
    {
        if self.config.options().deprecated_enum_cases == Composition::Exclude && value.is_deprecated() {
            return None;
        }
        let ghost config = self.config.config;
        let mut case_parts: Vec<String> = Vec::new();
        let should_render_documentation = value.documentation.is_some()
            && self.config.options().schema_documentation == Composition::Include;
        if should_render_documentation {
            match &value.documentation {
                Some(doc) => {
                    let doc_lines = documentation_lines(doc.as_str());
                    let joined = join_strings(&doc_lines, "\n  ");
                    let mut block = String::from_str("  ");
                    block.append(joined.as_str());
                    push_part(&mut case_parts, block);
                },
                None => {},
            }
        }
        let ghost after_doc = views(case_parts@);
        match &value.deprecation_reason {
            Some(reason) => {
                if should_render_documentation {
                    push_part(&mut case_parts, String::from_str("  ///"));
                }
                let escaped = escaped_swift_string_special_characters(reason.as_str());
                let mut line = String::from_str("  /// **Deprecated**: ");
                line.append(escaped.as_str());
                push_part(&mut case_parts, line);
            },
            None => {},
        }
        let ghost after_deprecation = views(case_parts@);
        match value.name.type_name_documentation() {
            Some(type_doc) => {
                let mut line = String::from_str("  ");
                line.append(type_doc.as_str());
                push_part(&mut case_parts, line);
            },
            None => {},
        }
        let ghost after_name = views(case_parts@);
        push_part(&mut case_parts, self.case_definition(value));
        proof {
            let documented = value.documentation is Some && config.options.schema_documentation == Composition::Include;
            assert(after_doc =~= (if documented {
                seq![spec_case_documentation(value.documentation->0@)]
            } else {
                Seq::empty()
            }));
            assert(after_deprecation =~= after_doc + match value.deprecation_reason {
                Some(reason) => (if documented {
                    seq!["  ///"@]
                } else {
                    Seq::empty()
                }) + seq!["  /// **Deprecated**: "@ + spec_escaped_swift_string(reason@)],
                None => Seq::empty(),
            });
            assert(after_name =~= after_deprecation + match spec_type_name_documentation(value.name) {
                Some(t) => seq!["  "@ + t],
                None => Seq::empty(),
            });
            assert(views(case_parts@) =~= spec_enum_case_parts(*value, config));
            reveal_strlit("\n");
            assert("\n"@ =~= seq!['\n']);
        }
        Some(join_strings(&case_parts, "\n"))
    }

    fn case_definition(&self, value: &GraphQLEnumValue) -> (r: String)
        ensures
            r@ == spec_case_definition(*value, self.config.config),
    {
        let case_name = render_enum_value(value, EnumRenderContext::EnumCase, &self.config.config);
        let mut r = String::from_str("  case ");
        r.append(case_name.as_str());
        if self.config.options().conversion_strategies.enum_cases != EnumCases::Unchanged {
            let raw_value = render_enum_value(value, EnumRenderContext::EnumRawValue, &self.config.config);
            r.append(" = \"");
            r.append(raw_value.as_str());
            r.append("\"");
        }
        r
    }
}

} // verus!
