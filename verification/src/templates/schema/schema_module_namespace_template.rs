//! The namespace enum that wraps the schema types when they are embedded in a target.
use vstd::prelude::*;

use crate::templates::access_control_renderer::{spec_access_control_modifier, spec_render_with_spis};
use crate::templates::rendering_helpers::string_casing::{first_uppercased, spec_first_uppercased};
use crate::templates::{
    standard_header_template, ConfigurationContext, NonFatalErrorRecorder, Scope,
    TemplateRenderer, TemplateTarget, GENERATED_HEADER,
};

verus! {

/// The body of the namespace file: `enum <Namespace> { }` declared with the namespace's
/// access modifier.
pub open spec fn spec_schema_module_namespace_body(config: ConfigurationContext) -> Seq<char> {
    spec_render_with_spis(spec_access_control_modifier(TemplateTarget::ModuleFile, config.config, Scope::Namespace), Seq::empty())
        + "enum "@ + spec_first_uppercased(config.config.schema_namespace@) + " { }\n"@
}

/// Declares the namespace that wraps the other templates to prevent naming collisions.
pub struct SchemaModuleNamespaceTemplate {
    pub config: ConfigurationContext,
}

impl TemplateRenderer for SchemaModuleNamespaceTemplate {
    open spec fn spec_config(&self) -> ConfigurationContext {
        self.config
    }

    open spec fn spec_target(&self) -> TemplateTarget {
        TemplateTarget::ModuleFile
    }

    open spec fn spec_body(&self) -> Seq<char> {
        spec_schema_module_namespace_body(self.config)
    }

    open spec fn spec_header(&self) -> Option<Seq<char>> {
        Some(GENERATED_HEADER@)
    }

    open spec fn spec_detached(&self) -> Option<Seq<char>> {
        None
    }

    fn config(&self) -> (r: &ConfigurationContext) {
        &self.config
    }

    fn target(&self) -> (r: TemplateTarget) {
        TemplateTarget::ModuleFile
    }

    fn render_header_template(&self, _non_fatal_error_recorder: &NonFatalErrorRecorder) -> (r: Option<String>) {
        standard_header_template()
    }

    fn render_detached_template(&self, _non_fatal_error_recorder: &NonFatalErrorRecorder) -> (r: Option<String>) {
        None
    }

    fn render_body_template(&self, _non_fatal_error_recorder: &NonFatalErrorRecorder) -> (r: String) {
        let mut r = self.access_control_renderer(Scope::Namespace).render();
        let namespace = first_uppercased(self.config.schema_namespace());
        r.append("enum ");
        r.append(namespace.as_str());
        r.append(" { }\n");
        r
    }
}

} // verus!
