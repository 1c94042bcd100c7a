//! The schema configuration file, where users configure cache key resolution.
use vstd::prelude::*;

use crate::templates::access_control_renderer::spec_render_with_spis;
use crate::templates::access_control_renderer::spec_access_control_modifier;
use crate::templates::rendering_helpers::template_constants::APOLLO_API_TARGET_NAME;
use crate::templates::{
    spec_editable_file_header, spec_nonisolated_modifier, ConfigurationContext,
    HeaderCommentTemplate, NonFatalErrorRecorder, SchemaFileType, Scope, TemplateRenderer,
    TemplateTarget,
};

verus! {

/// Why the schema configuration file may be edited.
pub const SCHEMA_CONFIGURATION_HEADER_REASON: &'static str = "provide custom configuration for a generated GraphQL schema.";

/// The parts of the schema configuration body between the rendered values.
pub const CONFIGURATION_PART_ENUM: &'static str = "enum SchemaConfiguration: ";
pub const CONFIGURATION_PART_CONFORMANCE: &'static str = ".SchemaConfiguration {\n  ";
pub const CONFIGURATION_PART_FUNCTION: &'static str = "static func cacheKeyInfo(for type: ";
pub const CONFIGURATION_PART_OBJECT: &'static str = ".Object, object: ";
pub const CONFIGURATION_PART_END: &'static str = ".ObjectData) -> CacheKeyInfo? {\n    // Implement this function to configure cache key resolution for your schema types.\n    return nil\n  }\n}\n";

/// The rendered access modifier of the given scope of the schema configuration file.
pub open spec fn configuration_access(config: ConfigurationContext, scope: Scope) -> Seq<char> {
    spec_render_with_spis(
        spec_access_control_modifier(TemplateTarget::SchemaFile(SchemaFileType::SchemaConfiguration), config.config, scope),
        Seq::empty(),
    )
}

/// The body of the schema configuration file.
pub open spec fn spec_schema_configuration_body(config: ConfigurationContext) -> Seq<char> {
    let api = APOLLO_API_TARGET_NAME@;
    spec_nonisolated_modifier(config.config) + configuration_access(config, Scope::Parent) + CONFIGURATION_PART_ENUM@
        + api + CONFIGURATION_PART_CONFORMANCE@ + configuration_access(config, Scope::Member)
        + CONFIGURATION_PART_FUNCTION@ + api + CONFIGURATION_PART_OBJECT@ + api + CONFIGURATION_PART_END@
}

/// Renders the cache key resolution extension point of a generated schema.
pub struct SchemaConfigurationTemplate {
    pub config: ConfigurationContext,
}

impl TemplateRenderer for SchemaConfigurationTemplate {
    open spec fn spec_config(&self) -> ConfigurationContext {
        self.config
    }

    open spec fn spec_target(&self) -> TemplateTarget {
        TemplateTarget::SchemaFile(SchemaFileType::SchemaConfiguration)
    }

    open spec fn spec_body(&self) -> Seq<char> {
        spec_schema_configuration_body(self.config)
    }

    open spec fn spec_header(&self) -> Option<Seq<char>> {
        Some(spec_editable_file_header(SCHEMA_CONFIGURATION_HEADER_REASON@))
    }

    open spec fn spec_detached(&self) -> Option<Seq<char>> {
        None
    }

    fn config(&self) -> (r: &ConfigurationContext) {
        &self.config
    }

    fn target(&self) -> (r: TemplateTarget) {
        TemplateTarget::SchemaFile(SchemaFileType::SchemaConfiguration)
    }

    fn render_header_template(&self, _non_fatal_error_recorder: &NonFatalErrorRecorder) -> (r: Option<String>) {
        Some(HeaderCommentTemplate::editable_file_header(SCHEMA_CONFIGURATION_HEADER_REASON))
    }

    fn render_detached_template(&self, _non_fatal_error_recorder: &NonFatalErrorRecorder) -> (r: Option<String>) {
        None
    }

    fn render_body_template(&self, _non_fatal_error_recorder: &NonFatalErrorRecorder) -> (r: String) {
        let parent_access = self.access_control_renderer(Scope::Parent).render();
        let member_access = self.access_control_renderer(Scope::Member).render();
        let mut r = self.config.nonisolated_modifier();
        r.append(parent_access.as_str());
        r.append(CONFIGURATION_PART_ENUM);
        r.append(APOLLO_API_TARGET_NAME);
        r.append(CONFIGURATION_PART_CONFORMANCE);
        r.append(member_access.as_str());
        r.append(CONFIGURATION_PART_FUNCTION);
        r.append(APOLLO_API_TARGET_NAME);
        r.append(CONFIGURATION_PART_OBJECT);
        r.append(APOLLO_API_TARGET_NAME);
        r.append(CONFIGURATION_PART_END);
        r
    }
}

} // verus!
