//! The test mock type aliases of the interface types.
use vstd::prelude::*;

use crate::graphql::{GraphQLNamedType, GraphQLInterfaceType};
use crate::templates::rendering_helpers::graphql_name_rendering::{
    RenderContext, render_named_type, spec_render_named_type,
};
use crate::templates::{
    spec_template_access, standard_header_template, ConfigurationContext, NonFatalErrorRecorder, Scope,
    TemplateRenderer, TemplateTarget,
};
use crate::text::{join, join_strings, push_part, views};

verus! {

/// The type alias lines of the interfaces.
pub open spec fn spec_mock_interfaces_lines(types: Seq<GraphQLInterfaceType>) -> Seq<Seq<char>>
    decreases types.len(),
{
    if types.len() == 0 {
        Seq::empty()
    } else {
        let t = types.last();
        spec_mock_interfaces_lines(types.drop_last()).push("  typealias "@
            + spec_render_named_type(GraphQLNamedType::Interface(&t), RenderContext::Typename { is_input_value: false })
            + " = Interface"@)
    }
}

/// An extension of `MockObject` with a type alias to `Interface` for each interface.
pub open spec fn spec_mock_interfaces_body(types: Seq<GraphQLInterfaceType>, config: ConfigurationContext) -> Seq<char> {
    spec_template_access(TemplateTarget::TestMockFile, config.config, Scope::Parent) + "extension MockObject {\n"@
        + join(spec_mock_interfaces_lines(types), seq!['\n']) + "\n}\n\n"@
}

/// Renders the test mock type aliases of interface types.
pub struct MockInterfacesTemplate {
    pub graphql_interfaces: Vec<GraphQLInterfaceType>,
    pub config: ConfigurationContext,
}

impl TemplateRenderer for MockInterfacesTemplate {
    open spec fn spec_config(&self) -> ConfigurationContext {
        self.config
    }

    open spec fn spec_target(&self) -> TemplateTarget {
        TemplateTarget::TestMockFile
    }

    open spec fn spec_body(&self) -> Seq<char> {
        spec_mock_interfaces_body(self.graphql_interfaces@, self.config)
    }

    fn config(&self) -> (r: &ConfigurationContext) {
        &self.config
    }

    fn target(&self) -> (r: TemplateTarget) {
        TemplateTarget::TestMockFile
    }

    fn render_header_template(&self, _non_fatal_error_recorder: &NonFatalErrorRecorder) -> (r: Option<String>) {
        standard_header_template()
    }

    fn render_detached_template(&self, _non_fatal_error_recorder: &NonFatalErrorRecorder) -> (r: Option<String>) {
        None
    }

    fn render_body_template(&self, _non_fatal_error_recorder: &NonFatalErrorRecorder) -> (r: String) {
        let access = self.access_control_renderer(Scope::Parent).render();
        let types = &self.graphql_interfaces;
        let mut lines: Vec<String> = Vec::new();
        let mut i: usize = 0;
        while i < types.len()
            invariant
                i <= types.len(),
                types == &self.graphql_interfaces,
                views(lines@) == spec_mock_interfaces_lines(types@.take(i as int)),
            decreases types.len() - i,
        {
            proof {
                assert(types@.take(i + 1).drop_last() =~= types@.take(i as int));
                assert(types@.take(i + 1).last() == types@[i as int]);
            }
            let name = render_named_type(&GraphQLNamedType::Interface(&types[i]), &RenderContext::Typename { is_input_value: false });
            let mut line = String::from_str("  typealias ");
            line.append(name.as_str());
            line.append(" = Interface");
            push_part(&mut lines, line);
            i = i + 1;
        }
        proof {
            assert(types@.take(types.len() as int) =~= types@);
            reveal_strlit("\n");
            assert("\n"@ =~= seq!['\n']);
        }
        let joined = join_strings(&lines, "\n");
        let mut r = access;
        r.append("extension MockObject {\n");
        r.append(joined.as_str());
        r.append("\n}\n\n");
        r
    }
}

} // verus!
