use lib::config::{
    AccessModifier, ApolloCodegenConfiguration, FileOutput, ModuleType, OperationsFileOutput, OutputOptions,
    SchemaTypesFileOutput, TestMockFileOutput,
};
use lib::graphql::{GraphQLInterfaceType, GraphQLName};
use lib::templates::mock_interfaces_template::MockInterfacesTemplate;
use lib::templates::{ConfigurationContext, NonFatalErrorRecorder, TemplateRenderer, TemplateTarget};

fn make_config(test_mocks: TestMockFileOutput) -> ConfigurationContext {
    ConfigurationContext::new(
        ApolloCodegenConfiguration {
            schema_namespace: "TestSchema".to_string(),
            output: FileOutput {
                schema_types: SchemaTypesFileOutput {
                    path: "./gen".to_string(),
                    module_type: ModuleType::SwiftPackageManager { apollo_sdk_dependency: None },
                },
                operations: OperationsFileOutput::InSchemaModule,
                test_mocks,
            },
            options: OutputOptions::new(),
        },
        None,
    )
}

fn swift_package_config() -> ConfigurationContext {
    make_config(TestMockFileOutput::SwiftPackage { target_name: None })
}

fn absolute_public_config() -> ConfigurationContext {
    make_config(TestMockFileOutput::Absolute { path: String::new(), access_modifier: AccessModifier::Public })
}

fn absolute_internal_config() -> ConfigurationContext {
    make_config(TestMockFileOutput::Absolute { path: String::new(), access_modifier: AccessModifier::Internal })
}

fn mock_interface(name: &str) -> GraphQLInterfaceType {
    GraphQLInterfaceType {
        name: GraphQLName::new(name.to_string()),
        documentation: None,
        key_fields: None,
        implementing_objects: vec![],
    }
}

fn build_subject(interfaces: Vec<GraphQLInterfaceType>, config: ConfigurationContext) -> MockInterfacesTemplate {
    MockInterfacesTemplate { graphql_interfaces: interfaces, config }
}

fn render_body(subject: &MockInterfacesTemplate) -> String {
    let recorder = NonFatalErrorRecorder::new();
    subject.render_body_template(&recorder)
}

#[test]
fn mock_interfaces_template_test__target__is_test_mock_file() {
    let subject = build_subject(vec![], swift_package_config());
    assert!(matches!(subject.target(), TemplateTarget::TestMockFile));
}

#[test]
fn test__render__given_single_interface_type_generates_extension_with_typealias() {
    let subject = build_subject(vec![mock_interface("Pet")], swift_package_config());
    let expected = "public extension MockObject {\n  typealias Pet = Interface\n}\n\n";
    assert_eq!(render_body(&subject), expected);
}

#[test]
fn test__render__given_multiple_interface_types_generates_extension_with_typealiases_correctly_cased() {
    let subject = build_subject(
        vec![mock_interface("InterfaceA"), mock_interface("interfaceB"), mock_interface("Interfacec")],
        swift_package_config(),
    );
    let expected = "public extension MockObject {\n  typealias InterfaceA = Interface\n  typealias InterfaceB = Interface\n  typealias Interfacec = Interface\n}\n\n";
    assert_eq!(render_body(&subject), expected);
}

#[test]
fn test__render__given_interface_type_when_test_mocks_is_swift_package_should_render_with_public_access() {
    let subject = build_subject(vec![mock_interface("Pet")], swift_package_config());
    assert!(render_body(&subject).starts_with("public extension MockObject {"));
}

#[test]
fn test__render__given_interface_type_when_test_mocks_absolute_with_public_access_modifier_should_render_with_public_access(
) {
    let subject = build_subject(vec![mock_interface("Pet")], absolute_public_config());
    assert!(render_body(&subject).starts_with("public extension MockObject {"));
}

#[test]
fn test__render__given_interface_type_when_test_mocks_absolute_with_internal_access_modifier_should_render_with_internal_access(
) {
    let subject = build_subject(vec![mock_interface("Pet")], absolute_internal_config());
    let actual = render_body(&subject);
    assert!(actual.starts_with("extension MockObject {"));
    assert!(!actual.starts_with("public extension MockObject {"));
}

#[test]
fn mock_interfaces_template_test__render__using_reserved_keyword_generates_type_with_suffix() {
    for keyword in &["Type", "type"] {
        let subject = build_subject(vec![mock_interface(keyword)], swift_package_config());
        let actual = render_body(&subject);
        assert!(
            actual.contains("typealias Type_Interface = Interface"),
            "Expected 'Type_Interface' for keyword '{}', got: {}",
            keyword,
            actual
        );
    }
}

#[test]
fn test__render__given_interface_with_custom_name_should_render_with_custom_name() {
    let mut iface = mock_interface("MyInterface");
    iface.name.custom_name = Some("MyCustomInterface".to_string());
    let subject = build_subject(vec![iface], swift_package_config());
    let expected = "public extension MockObject {\n  typealias MyCustomInterface = Interface\n}\n\n";
    assert_eq!(render_body(&subject), expected);
}

#[test]
fn mock_interfaces_template_renders_no_lines_for_no_interfaces() {
    let subject = build_subject(vec![], absolute_internal_config());
    assert_eq!(render_body(&subject), "extension MockObject {\n\n}\n\n");
}
