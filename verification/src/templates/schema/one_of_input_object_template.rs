//! The Swift enum generated for a GraphQL `@oneOf` input object type.
use vstd::prelude::*;

use crate::config::ApolloCodegenConfiguration;
use crate::graphql::{GraphQLInputField, GraphQLInputObjectType, GraphQLNamedType, spec_type_name_documentation};
use crate::templates::rendering_helpers::graphql_name_rendering::{
    RenderContext, render_input_field, render_named_type, spec_render_input_field, spec_render_named_type,
};
use crate::templates::rendering_helpers::graphql_type_rendered::{render_as_input_value, spec_render_as_input_value};
use crate::templates::rendering_helpers::template_string_deprecation::{
    render_deprecation_reason, spec_rendered_deprecation,
};
use crate::templates::rendering_helpers::template_string_documentation::{
    render_documentation, spec_rendered_documentation,
};
use crate::templates::{
    spec_template_access, standard_header_template, ConfigurationContext, NonFatalErrorRecorder,
    SchemaFileType, Scope, TemplateRenderer, TemplateTarget,
};
use crate::text::{join, join_strings, opt_part, opt_str_view, opt_view, push_opt_part, push_part, views};

verus! {

/// An optional line, indented by two spaces.
pub open spec fn opt_indent2(o: Option<Seq<char>>) -> Option<Seq<char>> {
    match o {
        Some(s) => Some("  "@ + s),
        None => None,
    }
}

/// The case of a field: its documentation, deprecation annotation and note on its schema
/// name, each indented, and the case with the field's type as its associated value.
pub open spec fn spec_field_case(f: GraphQLInputField, config: ConfigurationContext) -> Seq<char> {
    join(
        opt_part(opt_indent2(spec_rendered_documentation(opt_view(f.documentation), config.config)))
            + opt_part(opt_indent2(spec_rendered_deprecation(opt_view(f.deprecation_reason), config.config)))
            + opt_part(opt_indent2(spec_type_name_documentation(f.name)))
            + seq!["  case "@ + spec_render_input_field(f, config.config) + "("@
                + spec_render_as_input_value(f.type_, false, config.config) + ")"@],
        seq!['\n'],
    )
}

/// The branch of the `__data` switch for a field's case.
pub open spec fn spec_field_case_data(f: GraphQLInputField, config: ApolloCodegenConfiguration) -> Seq<char> {
    "    case ."@ + spec_render_input_field(f, config) + "(let value):\n      return InputDict([\""@
        + f.name.schema_name@ + "\": value])"@
}

/// The cases of the fields.
pub open spec fn spec_field_cases(fields: Seq<GraphQLInputField>, config: ConfigurationContext) -> Seq<Seq<char>>
    decreases fields.len(),
{
    if fields.len() == 0 {
        Seq::empty()
    } else {
        spec_field_cases(fields.drop_last(), config).push(spec_field_case(fields.last(), config))
    }
}

/// The `__data` switch branches of the fields.
pub open spec fn spec_field_cases_data(fields: Seq<GraphQLInputField>, config: ApolloCodegenConfiguration) -> Seq<Seq<char>>
    decreases fields.len(),
{
    if fields.len() == 0 {
        Seq::empty()
    } else {
        spec_field_cases_data(fields.drop_last(), config).push(spec_field_case_data(fields.last(), config))
    }
}

/// The body of a `@oneOf` input object's file: its documentation, the note on its schema
/// name, and an enum with a case per field and the `__data` property that switches on it.
pub open spec fn spec_one_of_body(o: GraphQLInputObjectType, config: ConfigurationContext) -> Seq<char> {
    let target = TemplateTarget::SchemaFile(SchemaFileType::InputObject);
    let member = spec_template_access(target, config.config, Scope::Member);
    let data = "  "@ + member + "var __data: InputDict {\n    switch self {\n"@
        + join(spec_field_cases_data(o.fields@, config.config), seq!['\n']) + "\n    }\n  }"@;
    let enum_body = seq![join(spec_field_cases(o.fields@, config), seq!['\n']), Seq::empty(), data];
    let declaration = spec_template_access(target, config.config, Scope::Parent) + "enum "@
        + spec_render_named_type(GraphQLNamedType::InputObject(&o), RenderContext::Typename { is_input_value: false })
        + ": OneOfInputObject {\n"@ + join(enum_body, seq!['\n']) + "\n}"@;
    join(
        opt_part(spec_rendered_documentation(opt_view(o.documentation), config.config))
            + opt_part(spec_type_name_documentation(o.name)) + seq![declaration],
        seq!['\n'],
    )
}

fn indent2_opt(o: Option<String>) -> (r: Option<String>)
    ensures
        opt_view(r) == opt_indent2(opt_view(o)),
{
    match o {
        Some(s) => {
            let mut r = String::from_str("  ");
            r.append(s.as_str());
            Some(r)
        },
        None => None,
    }
}

/// Renders a `@oneOf` GraphQL input object as a Swift enum.
pub struct OneOfInputObjectTemplate {
    pub graphql_input_object: GraphQLInputObjectType,
    pub config: ConfigurationContext,
}

impl TemplateRenderer for OneOfInputObjectTemplate {
    open spec fn spec_config(&self) -> ConfigurationContext {
        self.config
    }

    open spec fn spec_target(&self) -> TemplateTarget {
        TemplateTarget::SchemaFile(SchemaFileType::InputObject)
    }

    open spec fn spec_body(&self) -> Seq<char> {
        spec_one_of_body(self.graphql_input_object, self.config)
    }

    fn config(&self) -> (r: &ConfigurationContext) {
        &self.config
    }

    fn target(&self) -> (r: TemplateTarget) {
        TemplateTarget::SchemaFile(SchemaFileType::InputObject)
    }

    fn render_header_template(&self, _non_fatal_error_recorder: &NonFatalErrorRecorder) -> (r: Option<String>) {
        standard_header_template()
    }

    fn render_detached_template(&self, _non_fatal_error_recorder: &NonFatalErrorRecorder) -> (r: Option<String>) {
        None
    }

    fn render_body_template(&self, _non_fatal_error_recorder: &NonFatalErrorRecorder) -> (r: String) {
        let member = self.access_control_renderer(Scope::Member).render();
        let parent_access = self.access_control_renderer(Scope::Parent).render();
        let typename = render_named_type(
            &GraphQLNamedType::InputObject(&self.graphql_input_object),
            &RenderContext::Typename { is_input_value: false },
        );
        let mut parts: Vec<String> = Vec::new();
        let documentation = match &self.graphql_input_object.documentation {
            Some(d) => Some(d.as_str()),
            None => None,
        };
        proof {
            assert(opt_str_view(documentation) == opt_view(self.graphql_input_object.documentation));
        }
        push_opt_part(&mut parts, render_documentation(documentation, &self.config));
        push_opt_part(&mut parts, self.graphql_input_object.name.type_name_documentation());
        let cases = self.field_cases();
        let cases_data = self.field_cases_data();
        let mut enum_body: Vec<String> = Vec::new();
        push_part(&mut enum_body, join_strings(&cases, "\n"));
        push_part(&mut enum_body, String::new());
        let mut data = String::from_str("  ");
        data.append(member.as_str());
        data.append("var __data: InputDict {\n    switch self {\n");
        let joined_data = join_strings(&cases_data, "\n");
        data.append(joined_data.as_str());
        data.append("\n    }\n  }");
        push_part(&mut enum_body, data);
        let body_text = join_strings(&enum_body, "\n");
        let mut declaration = parent_access;
        declaration.append("enum ");
        declaration.append(typename.as_str());
        declaration.append(": OneOfInputObject {\n");
        declaration.append(body_text.as_str());
        declaration.append("\n}");
        let ghost declaration_v = declaration@;
        push_part(&mut parts, declaration);
        proof {
            reveal_strlit("\n");
            assert("\n"@ =~= seq!['\n']);
            let o = self.graphql_input_object;
            let c = self.config;
            let target = TemplateTarget::SchemaFile(SchemaFileType::InputObject);
            let member_v = spec_template_access(target, c.config, Scope::Member);
            let data_v = "  "@ + member_v + "var __data: InputDict {\n    switch self {\n"@
                + join(spec_field_cases_data(o.fields@, c.config), seq!['\n']) + "\n    }\n  }"@;
            assert(views(enum_body@) =~= seq![join(spec_field_cases(o.fields@, c), seq!['\n']), Seq::empty(), data_v]);
            assert(declaration_v =~= spec_template_access(target, c.config, Scope::Parent) + "enum "@
                + spec_render_named_type(GraphQLNamedType::InputObject(&o), RenderContext::Typename { is_input_value: false })
                + ": OneOfInputObject {\n"@ + join(seq![join(spec_field_cases(o.fields@, c), seq!['\n']), Seq::empty(), data_v], seq!['\n'])
                + "\n}"@);
            assert(views(parts@) =~= opt_part(spec_rendered_documentation(opt_view(o.documentation), c.config))
                + opt_part(spec_type_name_documentation(o.name)) + seq![declaration_v]);
        }
        join_strings(&parts, "\n")
    }
}

impl OneOfInputObjectTemplate {
    fn field_cases(&self) -> (r: Vec<String>)
        ensures
            views(r@) == spec_field_cases(self.graphql_input_object.fields@, self.config),
    {
        let fields = &self.graphql_input_object.fields;
        let mut r: Vec<String> = Vec::new();
        let mut i: usize = 0;
        while i < fields.len()
            invariant
                i <= fields.len(),
                fields == &self.graphql_input_object.fields,
                views(r@) == spec_field_cases(fields@.take(i as int), self.config),
            decreases fields.len() - i,
        {
            proof {
                assert(fields@.take(i + 1).drop_last() =~= fields@.take(i as int));
                assert(fields@.take(i + 1).last() == fields@[i as int]);
            }
            push_part(&mut r, self.field_case_template(&fields[i]));
            i = i + 1;
        }
        proof {
            assert(fields@.take(fields.len() as int) =~= fields@);
        }
        r
    }

    fn field_cases_data(&self) -> (r: Vec<String>)
        ensures
            views(r@) == spec_field_cases_data(self.graphql_input_object.fields@, self.config.config),
    {
        let fields = &self.graphql_input_object.fields;
        let mut r: Vec<String> = Vec::new();
        let mut i: usize = 0;
        while i < fields.len()
            invariant
                i <= fields.len(),
                fields == &self.graphql_input_object.fields,
                views(r@) == spec_field_cases_data(fields@.take(i as int), self.config.config),
            decreases fields.len() - i,
        {
            proof {
                assert(fields@.take(i + 1).drop_last() =~= fields@.take(i as int));
                assert(fields@.take(i + 1).last() == fields@[i as int]);
            }
            push_part(&mut r, self.field_case_data_template(&fields[i]));
            i = i + 1;
        }
        proof {
            assert(fields@.take(fields.len() as int) =~= fields@);
        }
        r
    }

    fn field_case_template(&self, field: &GraphQLInputField) -> (r: String)
        ensures
            r@ == spec_field_case(*field, self.config),
    {
        let mut case_parts: Vec<String> = Vec::new();
        let documentation = match &field.documentation {
            Some(d) => Some(d.as_str()),
            None => None,
        };
        let reason = match &field.deprecation_reason {
            Some(d) => Some(d.as_str()),
            None => None,
        };
        proof {
            assert(opt_str_view(documentation) == opt_view(field.documentation));
            assert(opt_str_view(reason) == opt_view(field.deprecation_reason));
        }
        push_opt_part(&mut case_parts, indent2_opt(render_documentation(documentation, &self.config)));
        push_opt_part(&mut case_parts, indent2_opt(render_deprecation_reason(reason, &self.config)));
        push_opt_part(&mut case_parts, indent2_opt(field.name.type_name_documentation()));
        let field_name = render_input_field(field, &self.config.config);
        let type_str = render_as_input_value(&field.type_, false, &self.config.config);
        let mut case = String::from_str("  case ");
        case.append(field_name.as_str());
        case.append("(");
        case.append(type_str.as_str());
        case.append(")");
        let ghost case_v = case@;
        push_part(&mut case_parts, case);
        proof {
            reveal_strlit("\n");
            assert("\n"@ =~= seq!['\n']);
            let c = self.config;
            assert(case_v =~= "  case "@ + spec_render_input_field(*field, c.config) + "("@
                + spec_render_as_input_value(field.type_, false, c.config) + ")"@);
            assert(views(case_parts@) =~= opt_part(opt_indent2(spec_rendered_documentation(opt_view(field.documentation), c.config)))
                + opt_part(opt_indent2(spec_rendered_deprecation(opt_view(field.deprecation_reason), c.config)))
                + opt_part(opt_indent2(spec_type_name_documentation(field.name)))
                + seq![case_v]);
        }
        join_strings(&case_parts, "\n")
    }

    fn field_case_data_template(&self, field: &GraphQLInputField) -> (r: String)
        ensures
            r@ == spec_field_case_data(*field, self.config.config),
    {
        let field_name = render_input_field(field, &self.config.config);
        let mut r = String::from_str("    case .");
        r.append(field_name.as_str());
        r.append("(let value):\n      return InputDict([\"");
        r.append(field.name.schema_name.as_str());
        r.append("\": value])");
        r
    }
}

} // verus!
