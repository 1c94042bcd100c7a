use lib::config::{
    AccessModifier, ApolloCodegenConfiguration, Composition, FileOutput, ModuleType,
    OperationsFileOutput, OutputOptions, SchemaTypesFileOutput, TestMockFileOutput,
};
use lib::graphql::{GraphQLName, GraphQLScalarType};
use lib::templates::rendering_helpers::string_casing::first_uppercased;
use lib::templates::schema::custom_scalar_template::CustomScalarTemplate;
use lib::templates::{ConfigurationContext, NonFatalErrorRecorder, TemplateRenderer};

fn make_config(module_type: ModuleType, options: OutputOptions) -> ConfigurationContext {
    ConfigurationContext::new(
        ApolloCodegenConfiguration {
            schema_namespace: "TestSchema".to_string(),
            output: FileOutput {
                schema_types: SchemaTypesFileOutput { path: "./gen".to_string(), module_type },
                operations: OperationsFileOutput::InSchemaModule,
                test_mocks: TestMockFileOutput::NoTestMocks,
            },
            options,
        },
        None,
    )
}

fn embedded(access_modifier: AccessModifier) -> ModuleType {
    ModuleType::EmbeddedInTarget { name: "TestTarget".to_string(), access_modifier }
}

fn default_config() -> ConfigurationContext {
    make_config(embedded(AccessModifier::Internal), OutputOptions::new())
}

fn spm_config() -> ConfigurationContext {
    make_config(ModuleType::SwiftPackageManager { apollo_sdk_dependency: None }, OutputOptions::new())
}

fn other_config() -> ConfigurationContext {
    make_config(ModuleType::Other, OutputOptions::new())
}

fn embedded_internal_config() -> ConfigurationContext {
    make_config(embedded(AccessModifier::Internal), OutputOptions::new())
}

fn embedded_public_config() -> ConfigurationContext {
    make_config(embedded(AccessModifier::Public), OutputOptions::new())
}

fn config_with_docs(docs_included: bool) -> ConfigurationContext {
    let mut options = OutputOptions::new();
    options.schema_documentation = if docs_included { Composition::Include } else { Composition::Exclude };
    make_config(embedded(AccessModifier::Internal), options)
}

fn make_scalar(
    name: &str,
    custom_name: Option<&str>,
    documentation: Option<&str>,
    specified_by_url: Option<&str>,
) -> GraphQLScalarType {
    let mut gql_name = GraphQLName::new(name.to_string());
    gql_name.custom_name = custom_name.map(|s| s.to_string());
    GraphQLScalarType {
        name: gql_name,
        documentation: documentation.map(|s| s.to_string()),
        specified_by_url: specified_by_url.map(|s| s.to_string()),
    }
}

fn render_body(template: &CustomScalarTemplate) -> String {
    let recorder = NonFatalErrorRecorder::new();
    template.render_body_template(&recorder)
}

#[test]
fn test_render_generates_custom_scalar_import() {
    let template = CustomScalarTemplate { graphql_scalar: make_scalar("aCustomScalar", None, None, None), config: default_config() };
    let result = template.render();
    assert!(result.body.contains("import ApolloAPI"), "body:\n{}", result.body);
    assert!(!result.body.contains("@_spi"), "body should not contain @_spi:\n{}", result.body);
}

#[test]
fn test_render_name_first_uppercased() {
    let template = CustomScalarTemplate { graphql_scalar: make_scalar("aCustomScalar", None, None, None), config: default_config() };
    let actual = render_body(&template);
    assert!(actual.contains("typealias ACustomScalar = String"), "actual:\n{}", actual);
}

#[test]
fn test_render_editable_header() {
    let template = CustomScalarTemplate { graphql_scalar: make_scalar("MyCustomScalar", None, None, None), config: default_config() };
    let recorder = NonFatalErrorRecorder::new();
    let header = template.render_header_template(&recorder);
    assert!(header.is_some());
    let header_str = header.unwrap();
    assert!(!header_str.contains("should not be edited"), "header:\n{}", header_str);
    assert!(header_str.contains("can be edited"), "header:\n{}", header_str);
}

#[test]
fn test_render_string_typealias() {
    let template = CustomScalarTemplate { graphql_scalar: make_scalar("MyCustomScalar", None, None, None), config: default_config() };
    let actual = render_body(&template);
    assert!(actual.contains("typealias MyCustomScalar = String"), "actual:\n{}", actual);
}

#[test]
fn custom_scalar_template_test_render_spm_public_access() {
    let template = CustomScalarTemplate { graphql_scalar: make_scalar("MyCustomScalar", None, None, None), config: spm_config() };
    let actual = render_body(&template);
    assert!(actual.contains("public typealias MyCustomScalar = String"), "actual:\n{}", actual);
}

#[test]
fn custom_scalar_template_test_render_other_public_access() {
    let template = CustomScalarTemplate { graphql_scalar: make_scalar("MyCustomScalar", None, None, None), config: other_config() };
    let actual = render_body(&template);
    assert!(actual.contains("public typealias MyCustomScalar = String"), "actual:\n{}", actual);
}

#[test]
fn test_render_embedded_internal_no_access() {
    let template = CustomScalarTemplate {
        graphql_scalar: make_scalar("MyCustomScalar", None, None, None),
        config: embedded_internal_config(),
    };
    let actual = render_body(&template);
    assert!(actual.contains("typealias MyCustomScalar = String"), "actual:\n{}", actual);
    assert!(!actual.contains("public"), "actual:\n{}", actual);
}

#[test]
fn test_render_embedded_public_no_access_on_parent() {
    let template = CustomScalarTemplate {
        graphql_scalar: make_scalar("MyCustomScalar", None, None, None),
        config: embedded_public_config(),
    };
    let actual = render_body(&template);
    assert!(actual.contains("typealias MyCustomScalar = String"), "actual:\n{}", actual);
}

#[test]
fn custom_scalar_template_test_render_documentation_include() {
    let template = CustomScalarTemplate {
        graphql_scalar: make_scalar("CustomScalar", None, Some("This is some great documentation!"), None),
        config: config_with_docs(true),
    };
    let expected = "\
/// This is some great documentation!
typealias CustomScalar = String
";
    assert_eq!(render_body(&template), expected);
}

#[test]
fn test_render_documentation_with_specified_by_url() {
    let template = CustomScalarTemplate {
        graphql_scalar: make_scalar(
            "CustomScalar",
            None,
            Some("This is some great documentation!"),
            Some("http://www.apollographql.com/scalarSpec"),
        ),
        config: config_with_docs(true),
    };
    let expected = "\
/// This is some great documentation!
///
/// Specified by: [](http://www.apollographql.com/scalarSpec)
typealias CustomScalar = String
";
    assert_eq!(render_body(&template), expected);
}

#[test]
fn custom_scalar_template_test_render_documentation_exclude() {
    let template = CustomScalarTemplate {
        graphql_scalar: make_scalar("CustomScalar", None, Some("This is some great documentation!"), None),
        config: config_with_docs(false),
    };
    assert_eq!(render_body(&template), "typealias CustomScalar = String\n");
}

#[test]
fn test_render_reserved_keyword_suffixed() {
    for keyword in &["Type", "type"] {
        let template = CustomScalarTemplate { graphql_scalar: make_scalar(keyword, None, None, None), config: default_config() };
        let actual = render_body(&template);
        let expected_name = format!("{}_Scalar", first_uppercased(keyword));
        assert!(
            actual.contains(&format!("typealias {} = String", expected_name)),
            "keyword={}, actual:\n{}",
            keyword,
            actual
        );
    }
}

#[test]
fn custom_scalar_template_test_render_with_custom_name() {
    let template = CustomScalarTemplate {
        graphql_scalar: make_scalar("MyScalar", Some("MyCustomScalar"), None, None),
        config: default_config(),
    };
    let expected = "\
// Renamed from GraphQL schema value: 'MyScalar'
typealias MyCustomScalar = String
";
    assert_eq!(render_body(&template), expected);
}

#[test]
fn custom_scalar_template_url_without_documentation_and_full_file() {
    let template = CustomScalarTemplate {
        graphql_scalar: make_scalar("Date", None, None, Some("https://example.com/date")),
        config: spm_config(),
    };
    assert_eq!(render_body(&template), "/// Specified by: [](https://example.com/date)\npublic typealias Date = String\n");
    let body = template.render().body;
    assert!(body.starts_with("// @generated\n// This file was automatically generated and can be edited to\n// implement advanced custom scalar functionality.\n"));
    assert!(body.ends_with("\n\nimport ApolloAPI\n\npublic typealias Date = String\n") == false);
    assert!(body.ends_with("import ApolloAPI\n\n/// Specified by: [](https://example.com/date)\npublic typealias Date = String\n"));
}
