use lib::config::{
    AccessModifier, ApolloCodegenConfiguration, Composition, FileOutput, ModuleType,
    OperationsFileOutput, OutputOptions, SchemaTypesFileOutput, TestMockFileOutput,
};
use lib::graphql::{GraphQLInterfaceType, GraphQLName, GraphQLObjectType};
use lib::templates::rendering_helpers::string_casing::first_uppercased;
use lib::templates::schema::object_template::ObjectTemplate;
use lib::templates::{ConfigurationContext, NonFatalErrorRecorder, TemplateRenderer};

fn make_config(module_type: ModuleType, options: OutputOptions) -> ConfigurationContext {
    ConfigurationContext::new(
        ApolloCodegenConfiguration {
            schema_namespace: "TestSchema".to_string(),
            output: FileOutput {
                schema_types: SchemaTypesFileOutput { path: "./gen".to_string(), module_type },
                operations: OperationsFileOutput::InSchemaModule,
                test_mocks: TestMockFileOutput::NoTestMocks,
            },
            options,
        },
        None,
    )
}

fn embedded() -> ModuleType {
    ModuleType::EmbeddedInTarget { name: "TestTarget".to_string(), access_modifier: AccessModifier::Internal }
}

fn default_config() -> ConfigurationContext {
    make_config(embedded(), OutputOptions::new())
}

fn spm_config() -> ConfigurationContext {
    make_config(ModuleType::SwiftPackageManager { apollo_sdk_dependency: None }, OutputOptions::new())
}

fn config_with_docs(docs_included: bool) -> ConfigurationContext {
    let mut options = OutputOptions::new();
    options.schema_documentation = if docs_included { Composition::Include } else { Composition::Exclude };
    make_config(embedded(), options)
}

fn make_object(
    name: &str,
    custom_name: Option<&str>,
    interfaces: Vec<GraphQLInterfaceType>,
    key_fields: Option<Vec<String>>,
    documentation: Option<String>,
) -> GraphQLObjectType {
    let mut gql_name = GraphQLName::new(name.to_string());
    gql_name.custom_name = custom_name.map(|s| s.to_string());
    GraphQLObjectType { name: gql_name, documentation, interfaces, key_fields }
}

fn make_interface(name: &str, custom_name: Option<&str>) -> GraphQLInterfaceType {
    let mut gql_name = GraphQLName::new(name.to_string());
    gql_name.custom_name = custom_name.map(|s| s.to_string());
    GraphQLInterfaceType { name: gql_name, documentation: None, key_fields: None, implementing_objects: vec![] }
}

fn render_body(template: &ObjectTemplate) -> String {
    let recorder = NonFatalErrorRecorder::new();
    template.render_body_template(&recorder)
}

#[test]
fn object_template_test_render_generates_closing_paren() {
    let template = ObjectTemplate { graphql_object: make_object("Dog", None, vec![], None, None), config: default_config() };
    let actual = render_body(&template);
    assert!(actual.ends_with("\n)"), "Should end with closing paren, got:\n{}", actual);
}

#[test]
fn test_render_given_schema_type_generates_correctly_cased() {
    let template = ObjectTemplate { graphql_object: make_object("dog", None, vec![], None, None), config: default_config() };
    let actual = render_body(&template);
    assert!(actual.contains("static let Dog = ApolloAPI.Object("), "actual:\n{}", actual);
    assert!(actual.contains("typename: \"dog\""), "actual:\n{}", actual);
}

#[test]
fn test_render_interfaces_embedded_in_target_has_schema_namespace() {
    let interfaces = vec![make_interface("Animal", None), make_interface("Pet", None)];
    let template = ObjectTemplate { graphql_object: make_object("Dog", None, interfaces, None, None), config: default_config() };
    let actual = render_body(&template);
    assert!(actual.contains("TestSchema.Interfaces.Animal.self"), "actual:\n{}", actual);
    assert!(actual.contains("TestSchema.Interfaces.Pet.self"), "actual:\n{}", actual);
}

#[test]
fn test_render_interfaces_not_embedded_no_schema_namespace() {
    let interfaces = vec![make_interface("Animal", None), make_interface("Pet", None)];
    let template = ObjectTemplate { graphql_object: make_object("Dog", None, interfaces, None, None), config: spm_config() };
    let actual = render_body(&template);
    assert!(actual.contains("Interfaces.Animal.self"), "actual:\n{}", actual);
    assert!(actual.contains("Interfaces.Pet.self"), "actual:\n{}", actual);
    assert!(!actual.contains("TestSchema.Interfaces"), "actual:\n{}", actual);
}

#[test]
fn test_render_no_interfaces_generates_empty_array() {
    let template = ObjectTemplate { graphql_object: make_object("Dog", None, vec![], None, None), config: default_config() };
    let actual = render_body(&template);
    assert!(actual.contains("implementedInterfaces: []"), "actual:\n{}", actual);
}

#[test]
fn test_render_single_key_field() {
    let template = ObjectTemplate {
        graphql_object: make_object("Dog", None, vec![], Some(vec!["id".to_string()]), None),
        config: default_config(),
    };
    let actual = render_body(&template);
    assert!(actual.contains("keyFields: [\"id\"]"), "actual:\n{}", actual);
}

#[test]
fn test_render_multiple_key_fields() {
    let template = ObjectTemplate {
        graphql_object: make_object("Dog", None, vec![], Some(vec!["id".to_string(), "species".to_string()]), None),
        config: default_config(),
    };
    let actual = render_body(&template);
    assert!(actual.contains("keyFields: [\n"), "actual:\n{}", actual);
    assert!(actual.contains("\"id\""), "actual:\n{}", actual);
    assert!(actual.contains("\"species\""), "actual:\n{}", actual);
}

#[test]
fn object_template_test_render_documentation_include_generates_doc_comment() {
    let template = ObjectTemplate {
        graphql_object: make_object("Dog", None, vec![], None, Some("This is some great documentation!".to_string())),
        config: config_with_docs(true),
    };
    let actual = render_body(&template);
    assert!(actual.contains("/// This is some great documentation!"), "actual:\n{}", actual);
    assert!(actual.contains("static let Dog = ApolloAPI.Object("), "actual:\n{}", actual);
}

#[test]
fn object_template_test_render_documentation_exclude_no_doc_comment() {
    let template = ObjectTemplate {
        graphql_object: make_object("Dog", None, vec![], None, Some("This is some great documentation!".to_string())),
        config: config_with_docs(false),
    };
    let actual = render_body(&template);
    assert!(!actual.contains("///"), "actual:\n{}", actual);
    assert!(actual.starts_with("static let Dog"), "actual:\n{}", actual);
}

#[test]
fn object_template_test_render_reserved_keyword_has_suffixed_type() {
    for keyword in &["Type", "type"] {
        let template = ObjectTemplate { graphql_object: make_object(keyword, None, vec![], None, None), config: default_config() };
        let actual = render_body(&template);
        let expected_name = format!("{}_Object", first_uppercased(keyword));
        assert!(
            actual.contains(&format!("static let {} = ApolloAPI.Object(", expected_name)),
            "keyword={}, actual:\n{}",
            keyword,
            actual
        );
        assert!(actual.contains(&format!("typename: \"{}\"", keyword)), "keyword={}, actual:\n{}", keyword, actual);
    }
}

#[test]
fn object_template_test_render_with_custom_names() {
    let custom_interface = make_interface("MyInterface", Some("MyCustomInterface"));
    let template = ObjectTemplate {
        graphql_object: make_object("MyObject", Some("MyCustomObject"), vec![custom_interface], None, None),
        config: default_config(),
    };
    let actual = render_body(&template);
    assert!(actual.contains("// Renamed from GraphQL schema value: 'MyObject'"), "actual:\n{}", actual);
    assert!(actual.contains("static let MyCustomObject = ApolloAPI.Object("), "actual:\n{}", actual);
    assert!(actual.contains("typename: \"MyObject\""), "actual:\n{}", actual);
    assert!(actual.contains("TestSchema.Interfaces.MyCustomInterface.self"), "actual:\n{}", actual);
    assert!(actual.contains("keyFields: nil"), "actual:\n{}", actual);
}

#[test]
fn object_template_test_render_no_key_fields_renders_nil() {
    let template = ObjectTemplate { graphql_object: make_object("Dog", None, vec![], None, None), config: default_config() };
    let actual = render_body(&template);
    assert!(actual.contains("keyFields: nil"), "actual:\n{}", actual);
}

#[test]
fn object_template_exact_body() {
    let template = ObjectTemplate {
        graphql_object: make_object("Dog", None, vec![make_interface("Animal", None)], None, None),
        config: spm_config(),
    };
    assert_eq!(
        render_body(&template),
        "static let Dog = ApolloAPI.Object(\n  typename: \"Dog\",\n  implementedInterfaces: [Interfaces.Animal.self],\n  keyFields: nil\n)"
    );
}
