use lib::config::{
    ApolloCodegenConfiguration, Composition, FileOutput, ModuleType, OperationsFileOutput,
    OutputOptions, SchemaTypesFileOutput, TestMockFileOutput,
};
use lib::templates::rendering_helpers::template_string_deprecation::{
    render_deprecation_reason, render_field_argument_warning,
};
use lib::templates::rendering_helpers::template_string_documentation::render_documentation;
use lib::templates::ConfigurationContext;

fn make_config(schema_documentation: Composition, warnings_on_deprecated_usage: Composition) -> ConfigurationContext {
    let mut options = OutputOptions::new();
    options.schema_documentation = schema_documentation;
    options.warnings_on_deprecated_usage = warnings_on_deprecated_usage;
    let config = ApolloCodegenConfiguration {
        schema_namespace: "TestSchema".to_string(),
        output: FileOutput {
            schema_types: SchemaTypesFileOutput { path: "./gen".to_string(), module_type: ModuleType::Other },
            operations: OperationsFileOutput::InSchemaModule,
            test_mocks: TestMockFileOutput::NoTestMocks,
        },
        options,
    };
    ConfigurationContext::new(config, None)
}

fn warnings_config(include_warnings: bool) -> ConfigurationContext {
    let warnings = if include_warnings { Composition::Include } else { Composition::Exclude };
    make_config(Composition::Include, warnings)
}

fn docs_config(include_docs: bool) -> ConfigurationContext {
    let docs = if include_docs { Composition::Include } else { Composition::Exclude };
    make_config(docs, Composition::Include)
}

#[test]
fn test_render_deprecation_reason_includes() {
    let config = warnings_config(true);
    let result = render_deprecation_reason(Some("Use newField instead"), &config);
    assert_eq!(result, Some("@available(*, deprecated, message: \"Use newField instead\")".to_string()));
}

#[test]
fn test_render_deprecation_reason_excludes() {
    let config = warnings_config(false);
    let result = render_deprecation_reason(Some("Use newField instead"), &config);
    assert_eq!(result, None);
}

#[test]
fn test_render_deprecation_reason_none() {
    let config = warnings_config(true);
    let result = render_deprecation_reason(None, &config);
    assert_eq!(result, None);
}

#[test]
fn test_render_deprecation_reason_with_special_chars() {
    let config = warnings_config(true);
    let result = render_deprecation_reason(Some("Use \"newField\" instead"), &config);
    assert_eq!(result, Some("@available(*, deprecated, message: \"Use \\\"newField\\\" instead\")".to_string()));
}

#[test]
fn test_render_documentation_includes() {
    let config = docs_config(true);
    let result = render_documentation(Some("A user type"), &config);
    assert_eq!(result, Some("/// A user type".to_string()));
}

#[test]
fn test_render_documentation_excludes() {
    let config = docs_config(false);
    let result = render_documentation(Some("A user type"), &config);
    assert_eq!(result, None);
}

#[test]
fn test_render_documentation_none_input() {
    let config = docs_config(true);
    let result = render_documentation(None, &config);
    assert_eq!(result, None);
}

#[test]
fn test_render_documentation_multiline() {
    let config = docs_config(true);
    let result = render_documentation(Some("Line 1\nLine 2"), &config);
    assert_eq!(result, Some("/// Line 1\n/// Line 2".to_string()));
}

#[test]
fn documentation_blank_lines_and_empty_input() {
    let config = docs_config(true);
    assert_eq!(render_documentation(Some("A\n  \nB"), &config), Some("/// A\n///\n/// B".to_string()));
    assert_eq!(render_documentation(Some(""), &config), None);
}

#[test]
fn field_argument_warning_is_escaped() {
    assert_eq!(
        render_field_argument_warning("user", "id", "Use \"uid\"\nnow"),
        "#warning(\"Argument 'id' of field 'user' is deprecated. Reason: 'Use \\\"uid\\\"\\nnow'\")"
    );
}
