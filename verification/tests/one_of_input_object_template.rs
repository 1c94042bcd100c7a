use lib::config::{
    AccessModifier, ApolloCodegenConfiguration, Composition, FileOutput, InputObjects, ModuleType,
    OperationsFileOutput, OutputOptions, SchemaTypesFileOutput, TestMockFileOutput,
};
use lib::graphql::{GraphQLEnumType, GraphQLInputField, GraphQLInputObjectType, GraphQLName, GraphQLScalarType, GraphQLType};
use lib::templates::schema::one_of_input_object_template::OneOfInputObjectTemplate;
use lib::templates::{ConfigurationContext, NonFatalErrorRecorder, TemplateRenderer};

fn make_config(module_type: ModuleType, options: OutputOptions) -> ConfigurationContext {
    ConfigurationContext::new(
        ApolloCodegenConfiguration {
            schema_namespace: "TestSchema".to_string(),
            output: FileOutput {
                schema_types: SchemaTypesFileOutput { path: "./gen".to_string(), module_type },
                operations: OperationsFileOutput::InSchemaModule,
                test_mocks: TestMockFileOutput::NoTestMocks,
            },
            options,
        },
        None,
    )
}

fn spm_config() -> ConfigurationContext {
    make_config(ModuleType::SwiftPackageManager { apollo_sdk_dependency: None }, OutputOptions::new())
}

fn embedded_public_config() -> ConfigurationContext {
    make_config(
        ModuleType::EmbeddedInTarget { name: "TestTarget".to_string(), access_modifier: AccessModifier::Public },
        OutputOptions::new(),
    )
}

fn embedded_internal_config() -> ConfigurationContext {
    make_config(
        ModuleType::EmbeddedInTarget { name: "TestTarget".to_string(), access_modifier: AccessModifier::Internal },
        OutputOptions::new(),
    )
}

fn composition(s: &str) -> Composition {
    if s == "exclude" { Composition::Exclude } else { Composition::Include }
}

fn spm_config_with_options(docs: &str, warnings: &str) -> ConfigurationContext {
    let mut options = OutputOptions::new();
    options.schema_documentation = composition(docs);
    options.warnings_on_deprecated_usage = composition(warnings);
    make_config(ModuleType::SwiftPackageManager { apollo_sdk_dependency: None }, options)
}

fn scalar(name: &str) -> GraphQLType {
    GraphQLType::Scalar(GraphQLScalarType { name: GraphQLName::new(name.to_string()), documentation: None, specified_by_url: None })
}

fn make_string_type() -> GraphQLType {
    GraphQLType::NonNull(Box::new(scalar("String")))
}

fn make_nullable_string_type() -> GraphQLType {
    scalar("String")
}

fn make_int_type() -> GraphQLType {
    GraphQLType::NonNull(Box::new(scalar("Int")))
}

fn field(name: &str, type_: GraphQLType, documentation: Option<&str>, deprecation_reason: Option<&str>) -> GraphQLInputField {
    GraphQLInputField {
        name: GraphQLName::new(name.to_string()),
        type_,
        documentation: documentation.map(|s| s.to_string()),
        deprecation_reason: deprecation_reason.map(|s| s.to_string()),
        default_value: None,
    }
}

fn make_field(name: &str, type_: GraphQLType) -> GraphQLInputField {
    field(name, type_, None, None)
}

fn make_field_with_docs(name: &str, type_: GraphQLType, docs: &str) -> GraphQLInputField {
    field(name, type_, Some(docs), None)
}

fn make_field_deprecated(name: &str, type_: GraphQLType, reason: &str) -> GraphQLInputField {
    field(name, type_, None, Some(reason))
}

fn make_one_of_input(name: &str, fields: Vec<GraphQLInputField>) -> GraphQLInputObjectType {
    GraphQLInputObjectType { name: GraphQLName::new(name.to_string()), documentation: None, fields }
}

fn make_one_of_input_with_docs(name: &str, fields: Vec<GraphQLInputField>, docs: &str) -> GraphQLInputObjectType {
    GraphQLInputObjectType { name: GraphQLName::new(name.to_string()), documentation: Some(docs.to_string()), fields }
}

fn render_body(template: &OneOfInputObjectTemplate) -> String {
    let recorder = NonFatalErrorRecorder::new();
    template.render_body_template(&recorder)
}

fn render(input: GraphQLInputObjectType, config: ConfigurationContext) -> String {
    render_body(&OneOfInputObjectTemplate { graphql_input_object: input, config })
}

#[test]
fn test_render_single_field_one_of() {
    let actual = render(make_one_of_input("MockOneOf", vec![make_field("fieldOne", make_string_type())]), spm_config());
    assert!(actual.contains("public enum MockOneOf: OneOfInputObject {"), "actual:\n{}", actual);
    assert!(actual.contains("case fieldOne(String)"), "actual:\n{}", actual);
    assert!(actual.contains("case .fieldOne(let value):"), "actual:\n{}", actual);
    assert!(actual.contains("return InputDict([\"fieldOne\": value])"), "actual:\n{}", actual);
}

#[test]
fn test_render_multiple_fields_one_of() {
    let input = make_one_of_input(
        "MockOneOf",
        vec![make_field("fieldOne", make_string_type()), make_field("fieldTwo", make_int_type())],
    );
    let actual = render(input, spm_config());
    assert!(actual.contains("case fieldOne(String)"), "actual:\n{}", actual);
    assert!(actual.contains("case fieldTwo(Int32)"), "actual:\n{}", actual);
    assert!(actual.contains("case .fieldOne(let value):"), "actual:\n{}", actual);
    assert!(actual.contains("case .fieldTwo(let value):"), "actual:\n{}", actual);
}

#[test]
fn one_of_input_object_template_test_render_spm_public_access() {
    let actual = render(make_one_of_input("MockOneOf", vec![make_field("fieldOne", make_string_type())]), spm_config());
    assert!(actual.contains("public enum MockOneOf: OneOfInputObject {"), "actual:\n{}", actual);
    assert!(actual.contains("public var __data: InputDict {"), "actual:\n{}", actual);
}

#[test]
fn one_of_input_object_template_test_render_embedded_public_access() {
    let actual = render(make_one_of_input("MockOneOf", vec![make_field("fieldOne", make_string_type())]), embedded_public_config());
    assert!(actual.contains("enum MockOneOf: OneOfInputObject {"), "actual:\n{}", actual);
    assert!(!actual.starts_with("public enum"), "actual:\n{}", actual);
    assert!(actual.contains("public var __data: InputDict {"), "actual:\n{}", actual);
}

#[test]
fn one_of_input_object_template_test_render_embedded_internal_access() {
    let actual = render(make_one_of_input("MockOneOf", vec![make_field("fieldOne", make_string_type())]), embedded_internal_config());
    assert!(actual.contains("enum MockOneOf: OneOfInputObject {"), "actual:\n{}", actual);
    assert!(!actual.contains("public"), "actual:\n{}", actual);
    assert!(actual.contains("var __data: InputDict {"), "actual:\n{}", actual);
}

#[test]
fn test_render_with_documentation() {
    let input = make_one_of_input_with_docs(
        "MockOneOf",
        vec![make_field_with_docs("fieldOne", make_string_type(), "Field docs")],
        "Input docs",
    );
    let actual = render(input, spm_config_with_options("include", "include"));
    assert!(actual.contains("/// Input docs"), "actual:\n{}", actual);
    assert!(actual.contains("/// Field docs"), "actual:\n{}", actual);
}

#[test]
fn test_render_without_documentation() {
    let input = make_one_of_input_with_docs(
        "MockOneOf",
        vec![make_field_with_docs("fieldOne", make_string_type(), "Field docs")],
        "Input docs",
    );
    let actual = render(input, spm_config_with_options("exclude", "include"));
    assert!(!actual.contains("/// Input docs"), "actual:\n{}", actual);
    assert!(!actual.contains("/// Field docs"), "actual:\n{}", actual);
}

#[test]
fn test_render_with_deprecated_field() {
    let input = make_one_of_input("MockOneOf", vec![make_field_deprecated("fieldOne", make_string_type(), "No longer used")]);
    let actual = render(input, spm_config_with_options("include", "include"));
    assert!(actual.contains("@available(*, deprecated, message: \"No longer used\")"), "actual:\n{}", actual);
}

#[test]
fn test_render_deprecated_field_excluded() {
    let input = make_one_of_input("MockOneOf", vec![make_field_deprecated("fieldOne", make_string_type(), "No longer used")]);
    let actual = render(input, spm_config_with_options("include", "exclude"));
    assert!(!actual.contains("@available"), "actual:\n{}", actual);
}

#[test]
fn test_render_with_enum_field() {
    let enum_type = GraphQLType::NonNull(Box::new(GraphQLType::Enum(GraphQLEnumType {
        name: GraphQLName::new("Status".to_string()),
        documentation: None,
        values: vec![],
    })));
    let actual = render(make_one_of_input("MockOneOf", vec![make_field("status", enum_type)]), spm_config());
    assert!(actual.contains("case status(GraphQLEnum<Status>)"), "actual:\n{}", actual);
}

#[test]
fn test_render_with_nullable_field() {
    let actual = render(make_one_of_input("MockOneOf", vec![make_field("fieldOne", make_nullable_string_type())]), spm_config());
    assert!(actual.contains("case fieldOne(String)"), "actual:\n{}", actual);
}

#[test]
fn one_of_input_object_template_test_render_with_custom_names() {
    let mut custom_field = make_field("myField", make_string_type());
    custom_field.name.custom_name = Some("myCustomField".to_string());
    let mut gql_name = GraphQLName::new("MyOneOf".to_string());
    gql_name.custom_name = Some("MyCustomOneOf".to_string());
    let input = GraphQLInputObjectType { name: gql_name, documentation: None, fields: vec![custom_field] };
    let actual = render(input, spm_config());
    assert!(actual.contains("// Renamed from GraphQL schema value: 'MyOneOf'"), "actual:\n{}", actual);
    assert!(actual.contains("enum MyCustomOneOf: OneOfInputObject {"), "actual:\n{}", actual);
    assert!(actual.contains("case myCustomField(String)"), "actual:\n{}", actual);
    assert!(actual.contains("case .myCustomField(let value):"), "actual:\n{}", actual);
    assert!(actual.contains("\"myField\": value"), "actual:\n{}", actual);
}

#[test]
fn test_render_reserved_keyword_field() {
    let mut options = OutputOptions::new();
    options.conversion_strategies.input_objects = InputObjects::Unchanged;
    let config = make_config(ModuleType::SwiftPackageManager { apollo_sdk_dependency: None }, options);
    let actual = render(make_one_of_input("MockOneOf", vec![make_field("class", make_string_type())]), config);
    assert!(actual.contains("case `class`(String)"), "actual:\n{}", actual);
    assert!(actual.contains("case .`class`(let value):"), "actual:\n{}", actual);
}

#[test]
fn one_of_input_object_template_test_render_reserved_keyword_type_name() {
    let actual = render(make_one_of_input("Type", vec![make_field("fieldOne", make_string_type())]), spm_config());
    assert!(actual.contains("enum Type_InputObject: OneOfInputObject {"), "actual:\n{}", actual);
}

#[test]
fn test_render_lowercased_name() {
    let actual = render(make_one_of_input("mockOneOf", vec![make_field("fieldOne", make_string_type())]), spm_config());
    assert!(actual.contains("enum MockOneOf: OneOfInputObject {"), "actual:\n{}", actual);
}

#[test]
fn test_render_data_switch_structure() {
    let input = make_one_of_input(
        "MockOneOf",
        vec![make_field("fieldOne", make_string_type()), make_field("fieldTwo", make_int_type())],
    );
    let actual = render(input, spm_config());
    assert!(actual.contains("switch self {"), "actual:\n{}", actual);
    assert!(actual.contains("case .fieldOne(let value):\n      return InputDict([\"fieldOne\": value])"), "actual:\n{}", actual);
    assert!(actual.contains("case .fieldTwo(let value):\n      return InputDict([\"fieldTwo\": value])"), "actual:\n{}", actual);
}

#[test]
fn one_of_input_object_template_exact_body() {
    let input = make_one_of_input("Choice", vec![make_field_with_docs("a", make_nullable_string_type(), "First\nline")]);
    let expected = "public enum Choice: OneOfInputObject {
  /// First
/// line
  case a(String)

  public var __data: InputDict {
    switch self {
    case .a(let value):
      return InputDict([\"a\": value])
    }
  }
}";
    assert_eq!(render(input, spm_config()), expected);
}
