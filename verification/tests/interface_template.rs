use lib::config::{
    AccessModifier, ApolloCodegenConfiguration, Composition, FileOutput, ModuleType,
    OperationsFileOutput, OutputOptions, SchemaTypesFileOutput, TestMockFileOutput,
};
use lib::graphql::{GraphQLInterfaceType, GraphQLName, GraphQLObjectType};
use lib::templates::rendering_helpers::string_casing::first_uppercased;
use lib::templates::schema::interface_template::InterfaceTemplate;
use lib::templates::{ConfigurationContext, NonFatalErrorRecorder, TemplateRenderer};

fn make_config(options: OutputOptions) -> ConfigurationContext {
    ConfigurationContext::new(
        ApolloCodegenConfiguration {
            schema_namespace: "TestSchema".to_string(),
            output: FileOutput {
                schema_types: SchemaTypesFileOutput {
                    path: "./gen".to_string(),
                    module_type: ModuleType::EmbeddedInTarget {
                        name: "TestTarget".to_string(),
                        access_modifier: AccessModifier::Internal,
                    },
                },
                operations: OperationsFileOutput::InSchemaModule,
                test_mocks: TestMockFileOutput::NoTestMocks,
            },
            options,
        },
        None,
    )
}

fn default_config() -> ConfigurationContext {
    make_config(OutputOptions::new())
}

fn config_with_docs(docs_included: bool) -> ConfigurationContext {
    let mut options = OutputOptions::new();
    options.schema_documentation = if docs_included { Composition::Include } else { Composition::Exclude };
    make_config(options)
}

fn make_interface(
    name: &str,
    custom_name: Option<&str>,
    key_fields: Option<Vec<String>>,
    implementing_objects: Vec<GraphQLObjectType>,
    documentation: Option<String>,
) -> GraphQLInterfaceType {
    let mut gql_name = GraphQLName::new(name.to_string());
    gql_name.custom_name = custom_name.map(|s| s.to_string());
    GraphQLInterfaceType { name: gql_name, documentation, key_fields, implementing_objects }
}

fn make_object(name: &str) -> GraphQLObjectType {
    GraphQLObjectType { name: GraphQLName::new(name.to_string()), documentation: None, interfaces: vec![], key_fields: None }
}

fn render_body(template: &InterfaceTemplate) -> String {
    let recorder = NonFatalErrorRecorder::new();
    template.render_body_template(&recorder)
}

#[test]
fn test_render_given_schema_interface_correctly_cased() {
    let template = InterfaceTemplate {
        graphql_interface: make_interface("aDog", None, None, vec![], None),
        config: default_config(),
    };
    let actual = render_body(&template);
    assert!(actual.contains("static let ADog = ApolloAPI.Interface("), "actual:\n{}", actual);
    assert!(actual.contains("name: \"aDog\""), "actual:\n{}", actual);
    assert!(actual.contains("keyFields: nil"), "actual:\n{}", actual);
    assert!(actual.contains("implementingObjects: []"), "actual:\n{}", actual);
}

#[test]
fn interface_template_test_render_documentation_include_generates_doc_comment() {
    let template = InterfaceTemplate {
        graphql_interface: make_interface("Dog", None, None, vec![], Some("This is some great documentation!".to_string())),
        config: config_with_docs(true),
    };
    let actual = render_body(&template);
    assert!(
        actual.starts_with("/// This is some great documentation!\nstatic let Dog = ApolloAPI.Interface("),
        "actual:\n{}",
        actual
    );
}

#[test]
fn interface_template_test_render_documentation_exclude_no_doc_comment() {
    let template = InterfaceTemplate {
        graphql_interface: make_interface("Dog", None, None, vec![], Some("This is some great documentation!".to_string())),
        config: config_with_docs(false),
    };
    let actual = render_body(&template);
    assert!(!actual.contains("///"), "actual:\n{}", actual);
    assert!(actual.starts_with("static let Dog = ApolloAPI.Interface("), "actual:\n{}", actual);
}

#[test]
fn interface_template_test_render_reserved_keyword_has_suffixed_type() {
    for keyword in &["Type", "type"] {
        let template = InterfaceTemplate {
            graphql_interface: make_interface(keyword, None, None, vec![], None),
            config: default_config(),
        };
        let actual = render_body(&template);
        let expected_name = format!("{}_Interface", first_uppercased(keyword));
        assert!(
            actual.contains(&format!("static let {} = ApolloAPI.Interface(", expected_name)),
            "keyword={}, actual:\n{}",
            keyword,
            actual
        );
        assert!(actual.contains(&format!("name: \"{}\"", keyword)), "keyword={}, actual:\n{}", keyword, actual);
    }
}

#[test]
fn interface_template_test_render_with_custom_name() {
    let template = InterfaceTemplate {
        graphql_interface: make_interface("MyInterface", Some("MyCustomInterface"), None, vec![], None),
        config: default_config(),
    };
    let actual = render_body(&template);
    assert!(actual.contains("// Renamed from GraphQL schema value: 'MyInterface'"), "actual:\n{}", actual);
    assert!(actual.contains("static let MyCustomInterface = ApolloAPI.Interface("), "actual:\n{}", actual);
    assert!(actual.contains("name: \"MyInterface\""), "actual:\n{}", actual);
}

#[test]
fn test_render_with_key_fields_includes_them() {
    let template = InterfaceTemplate {
        graphql_interface: make_interface(
            "IndexedNode",
            None,
            Some(vec!["parentID".to_string(), "index".to_string()]),
            vec![],
            None,
        ),
        config: default_config(),
    };
    let actual = render_body(&template);
    assert!(actual.contains("keyFields: ["), "keyFields should appear in output, actual:\n{}", actual);
    assert!(actual.contains("\"parentID\""), "actual:\n{}", actual);
    assert!(actual.contains("\"index\""), "actual:\n{}", actual);
}

#[test]
fn interface_template_test_render_no_key_fields_renders_nil() {
    let template = InterfaceTemplate {
        graphql_interface: make_interface("Dog", None, None, vec![], None),
        config: default_config(),
    };
    let actual = render_body(&template);
    assert!(actual.contains("keyFields: nil"), "actual:\n{}", actual);
}

#[test]
fn test_render_with_implementing_objects_includes_them() {
    let template = InterfaceTemplate {
        graphql_interface: make_interface(
            "MyInterface",
            None,
            None,
            vec![make_object("MyObject"), make_object("SecondObject")],
            None,
        ),
        config: default_config(),
    };
    let actual = render_body(&template);
    assert!(actual.contains("implementingObjects: ["), "implementingObjects should appear in output, actual:\n{}", actual);
    assert!(actual.contains("\"MyObject\""), "actual:\n{}", actual);
    assert!(actual.contains("\"SecondObject\""), "actual:\n{}", actual);
}

#[test]
fn test_render_no_implementing_objects_renders_empty_array() {
    let template = InterfaceTemplate {
        graphql_interface: make_interface("Dog", None, None, vec![], None),
        config: default_config(),
    };
    let actual = render_body(&template);
    assert!(actual.contains("implementingObjects: []"), "actual:\n{}", actual);
}

#[test]
fn interface_template_exact_body() {
    let mut options = OutputOptions::new();
    options.mark_types_nonisolated = true;
    let template = InterfaceTemplate {
        graphql_interface: make_interface(
            "Node",
            None,
            Some(vec!["id".to_string()]),
            vec![make_object("user"), make_object("Post")],
            None,
        ),
        config: make_config(options),
    };
    assert_eq!(
        render_body(&template),
        "nonisolated static let Node = ApolloAPI.Interface(\n  name: \"Node\",\n  keyFields: [\"id\"],\n  implementingObjects: [\n    \"User\",\n    \"Post\"\n  ]\n)"
    );
    let empty_keys = InterfaceTemplate {
        graphql_interface: make_interface("Node", None, Some(vec![]), vec![], None),
        config: default_config(),
    };
    assert!(render_body(&empty_keys).contains("keyFields: nil"));
}
