//! The test mock type aliases of the union types.
use vstd::prelude::*;

use crate::graphql::{GraphQLNamedType, GraphQLUnionType};
use crate::templates::rendering_helpers::graphql_name_rendering::{
    RenderContext, render_named_type, spec_render_named_type,
};
use crate::templates::{
    spec_template_access, standard_header_template, ConfigurationContext, NonFatalErrorRecorder, Scope,
    TemplateRenderer, TemplateTarget,
};
use crate::text::{join, join_strings, push_part, views};

verus! {

/// The type alias lines of the unions.
pub open spec fn spec_mock_unions_lines(types: Seq<GraphQLUnionType>) -> Seq<Seq<char>>
    decreases types.len(),
{
    if types.len() == 0 {
        Seq::empty()
    } else {
        let t = types.last();
        spec_mock_unions_lines(types.drop_last()).push("  typealias "@
            + spec_render_named_type(GraphQLNamedType::Union(&t), RenderContext::Typename { is_input_value: false })
            + " = Union"@)
    }
}

/// An extension of `MockObject` with a type alias to `Union` for each union.
pub open spec fn spec_mock_unions_body(types: Seq<GraphQLUnionType>, config: ConfigurationContext) -> Seq<char> {
    spec_template_access(TemplateTarget::TestMockFile, config.config, Scope::Parent) + "extension MockObject {\n"@
        + join(spec_mock_unions_lines(types), seq!['\n']) + "\n}\n\n"@
}

/// Renders the test mock type aliases of union types.
pub struct MockUnionsTemplate {
    pub graphql_unions: Vec<GraphQLUnionType>,
    pub config: ConfigurationContext,
}

impl TemplateRenderer for MockUnionsTemplate {
    open spec fn spec_config(&self) -> ConfigurationContext {
        self.config
    }

    open spec fn spec_target(&self) -> TemplateTarget {
        TemplateTarget::TestMockFile
    }

    open spec fn spec_body(&self) -> Seq<char> {
        spec_mock_unions_body(self.graphql_unions@, self.config)
    }

    fn config(&self) -> (r: &ConfigurationContext) {
        &self.config
    }

    fn target(&self) -> (r: TemplateTarget) {
        TemplateTarget::TestMockFile
    }

    fn render_header_template(&self, _non_fatal_error_recorder: &NonFatalErrorRecorder) -> (r: Option<String>) {
        standard_header_template()
    }

    fn render_detached_template(&self, _non_fatal_error_recorder: &NonFatalErrorRecorder) -> (r: Option<String>) {
        None
    }

    fn render_body_template(&self, _non_fatal_error_recorder: &NonFatalErrorRecorder) -> (r: String) {
        let access = self.access_control_renderer(Scope::Parent).render();
        let types = &self.graphql_unions;
        let mut lines: Vec<String> = Vec::new();
        let mut i: usize = 0;
        while i < types.len()
            invariant
                i <= types.len(),
                types == &self.graphql_unions,
                views(lines@) == spec_mock_unions_lines(types@.take(i as int)),
            decreases types.len() - i,
        {
            proof {
                assert(types@.take(i + 1).drop_last() =~= types@.take(i as int));
                assert(types@.take(i + 1).last() == types@[i as int]);
            }
            let name = render_named_type(&GraphQLNamedType::Union(&types[i]), &RenderContext::Typename { is_input_value: false });
            let mut line = String::from_str("  typealias ");
            line.append(name.as_str());
            line.append(" = Union");
            push_part(&mut lines, line);
            i = i + 1;
        }
        proof {
            assert(types@.take(types.len() as int) =~= types@);
            reveal_strlit("\n");
            assert("\n"@ =~= seq!['\n']);
        }
        let joined = join_strings(&lines, "\n");
        let mut r = access;
        r.append("extension MockObject {\n");
        r.append(joined.as_str());
        r.append("\n}\n\n");
        r
    }
}

} // verus!
