use lib::config::{
    AccessModifier, ApolloCodegenConfiguration, Composition, FileOutput, ModuleType, OperationsFileOutput,
    OutputOptions, SchemaTypesFileOutput, TestMockFileOutput,
};
use lib::graphql::{
    GraphQLCompositeType, GraphQLEnumType, GraphQLEnumValue, GraphQLInterfaceType, GraphQLName, GraphQLObjectType,
    GraphQLScalarType, GraphQLType, GraphQLUnionType,
};
use lib::templates::mock_object_template::MockObjectTemplate;
use lib::templates::{ConfigurationContext, NonFatalErrorRecorder, TemplateRenderer, TemplateTarget};

fn make_config(schema_namespace: &str, test_mocks: TestMockFileOutput, warnings: Composition) -> ConfigurationContext {
    let mut options = OutputOptions::new();
    options.warnings_on_deprecated_usage = warnings;
    ConfigurationContext::new(
        ApolloCodegenConfiguration {
            schema_namespace: schema_namespace.to_string(),
            output: FileOutput {
                schema_types: SchemaTypesFileOutput {
                    path: "./gen".to_string(),
                    module_type: ModuleType::SwiftPackageManager { apollo_sdk_dependency: None },
                },
                operations: OperationsFileOutput::InSchemaModule,
                test_mocks,
            },
            options,
        },
        None,
    )
}

fn swift_package() -> TestMockFileOutput {
    TestMockFileOutput::SwiftPackage { target_name: None }
}

fn swift_package_config() -> ConfigurationContext {
    make_config("TestSchema", swift_package(), Composition::Exclude)
}

fn absolute_public_config() -> ConfigurationContext {
    make_config(
        "TestSchema",
        TestMockFileOutput::Absolute { path: String::new(), access_modifier: AccessModifier::Public },
        Composition::Exclude,
    )
}

fn absolute_internal_config() -> ConfigurationContext {
    make_config(
        "TestSchema",
        TestMockFileOutput::Absolute { path: String::new(), access_modifier: AccessModifier::Internal },
        Composition::Exclude,
    )
}

fn mock_object(name: &str) -> GraphQLObjectType {
    GraphQLObjectType { name: GraphQLName::new(name.to_string()), documentation: None, interfaces: vec![], key_fields: None }
}

fn mock_scalar(name: &str) -> GraphQLScalarType {
    GraphQLScalarType { name: GraphQLName::new(name.to_string()), documentation: None, specified_by_url: None }
}

fn mock_enum_type(name: &str, values: &[&str]) -> GraphQLEnumType {
    GraphQLEnumType {
        name: GraphQLName::new(name.to_string()),
        documentation: None,
        values: values
            .iter()
            .map(|v| GraphQLEnumValue { name: GraphQLName::new(v.to_string()), documentation: None, deprecation_reason: None })
            .collect(),
    }
}

fn mock_interface(name: &str, implementing: &[&str]) -> GraphQLInterfaceType {
    GraphQLInterfaceType {
        name: GraphQLName::new(name.to_string()),
        documentation: None,
        key_fields: None,
        implementing_objects: implementing.iter().map(|n| mock_object(n)).collect(),
    }
}

fn mock_union(name: &str, types: &[&str]) -> GraphQLUnionType {
    GraphQLUnionType {
        name: GraphQLName::new(name.to_string()),
        documentation: None,
        types: types.iter().map(|n| mock_object(n)).collect(),
    }
}

fn non_null(t: GraphQLType) -> GraphQLType {
    GraphQLType::NonNull(Box::new(t))
}

fn list(t: GraphQLType) -> GraphQLType {
    GraphQLType::List(Box::new(t))
}

fn string_type() -> GraphQLType {
    GraphQLType::Scalar(mock_scalar("String"))
}

fn non_null_string() -> GraphQLType {
    non_null(string_type())
}

fn custom_scalar(name: &str) -> GraphQLType {
    GraphQLType::Scalar(mock_scalar(name))
}

fn object_entity(name: &str) -> GraphQLType {
    GraphQLType::Entity(GraphQLCompositeType::Object(mock_object(name)))
}

fn interface_entity(name: &str, implementing: &[&str]) -> GraphQLType {
    GraphQLType::Entity(GraphQLCompositeType::Interface(mock_interface(name, implementing)))
}

fn union_entity(name: &str, types: &[&str]) -> GraphQLType {
    GraphQLType::Entity(GraphQLCompositeType::Union(mock_union(name, types)))
}

fn enum_type(name: &str, values: &[&str]) -> GraphQLType {
    GraphQLType::Enum(mock_enum_type(name, values))
}

fn build_subject(
    name: &str,
    custom_name: Option<&str>,
    fields: Vec<(&str, GraphQLType, Option<&str>)>,
    config: ConfigurationContext,
) -> MockObjectTemplate {
    let mut obj = mock_object(name);
    if let Some(cn) = custom_name {
        obj.name.custom_name = Some(cn.to_string());
    }
    MockObjectTemplate::new(
        obj,
        fields.into_iter().map(|(k, t, d)| (k.to_string(), t, d.map(|s| s.to_string()))).collect(),
        config,
    )
}

fn render_body(subject: &MockObjectTemplate) -> String {
    let recorder = NonFatalErrorRecorder::new();
    subject.render_body_template(&recorder)
}

const KEYWORDS: [&str; 55] = [
    "associatedtype", "class", "deinit", "enum", "extension", "fileprivate", "func", "import", "init", "inout",
    "internal", "let", "operator", "private", "precedencegroup", "protocol", "Protocol", "public", "rethrows",
    "static", "struct", "subscript", "typealias", "var", "break", "case", "catch", "continue", "default", "defer",
    "do", "else", "fallthrough", "for", "guard", "if", "in", "repeat", "return", "throw", "switch", "where",
    "while", "as", "false", "is", "nil", "self", "Self", "super", "throws", "true", "try", "Type", "Any",
];

#[test]
fn mock_object_template_test__target__is_test_mock_file() {
    let subject = build_subject("Dog", None, vec![], swift_package_config());
    assert!(matches!(subject.target(), TemplateTarget::TestMockFile));
}

#[test]
fn test__render__given_schema_type_generates_extension() {
    let subject = build_subject("Dog", None, vec![], swift_package_config());
    let actual = render_body(&subject);
    let expected = "\
public final class Dog: MockObject {
  public static let objectType: ApolloAPI.Object = TestSchema.Objects.Dog
  public static let _mockFields = MockFields()
  public typealias MockValueCollectionType = Array<Mock<Dog>>

  public struct MockFields: Sendable {
  }
}
\n";
    assert_eq!(actual, expected);
}

#[test]
fn test__render__given_schema_type_with_lowercase_name_generates_capitalized_class_name() {
    let subject = build_subject("dog", None, vec![], swift_package_config());
    let actual = render_body(&subject);
    assert!(actual.contains("public final class Dog: MockObject {"));
    assert!(actual.contains("TestSchema.Objects.Dog"));
    assert!(actual.contains("Array<Mock<Dog>>"));
}

#[test]
fn test__render__given_lowercased_schema_name_generates_first_uppercased_schema_name_references() {
    let config = make_config("lowercased", swift_package(), Composition::Exclude);
    let actual = render_body(&build_subject("Dog", None, vec![], config));
    assert!(actual.contains("Lowercased.Objects.Dog"));
}

#[test]
fn test__render__given_uppercased_schema_name_generates_capitalized_schema_name_references() {
    let config = make_config("UPPER", swift_package(), Composition::Exclude);
    let actual = render_body(&build_subject("Dog", None, vec![], config));
    assert!(actual.contains("UPPER.Objects.Dog"));
}

#[test]
fn test__render__given_capitalized_schema_name_generates_capitalized_schema_name_references() {
    let config = make_config("MySchema", swift_package(), Composition::Exclude);
    let actual = render_body(&build_subject("Dog", None, vec![], config));
    assert!(actual.contains("MySchema.Objects.Dog"));
}

#[test]
fn test__render__given_schema_type_generates_field_accessors() {
    let fields = vec![
        ("string", non_null_string(), None),
        ("customScalar", non_null(custom_scalar("CustomScalar")), None),
        ("optionalString", string_type(), None),
        ("object", object_entity("Cat"), None),
        ("objectList", list(non_null(object_entity("Cat"))), None),
        ("objectNestedList", list(non_null(list(non_null(object_entity("Cat"))))), None),
        ("objectOptionalList", list(object_entity("Cat")), None),
    ];
    let actual = render_body(&build_subject("Dog", None, fields, swift_package_config()));
    assert!(actual.contains(r#"@Field<TestSchema.CustomScalar>("customScalar") public var customScalar"#));
    assert!(actual.contains(r#"@Field<Cat>("object") public var object"#));
    assert!(actual.contains(r#"@Field<[Cat]>("objectList") public var objectList"#));
    assert!(actual.contains(r#"@Field<[[Cat]]>("objectNestedList") public var objectNestedList"#));
    assert!(actual.contains(r#"@Field<[Cat?]>("objectOptionalList") public var objectOptionalList"#));
    assert!(actual.contains(r#"@Field<String>("optionalString") public var optionalString"#));
    assert!(actual.contains(r#"@Field<String>("string") public var string"#));
}

#[test]
fn test__render__given_fields_with_lowercase_type_names_generates_field_accessors() {
    let fields = vec![
        ("customScalar", non_null(custom_scalar("customScalar")), None),
        ("enumType", enum_type("enumType", &[]), None),
        ("object", object_entity("cat"), None),
    ];
    let actual = render_body(&build_subject("Dog", None, fields, swift_package_config()));
    assert!(actual.contains(r#"@Field<TestSchema.CustomScalar>("customScalar") public var customScalar"#));
    assert!(actual.contains(r#"@Field<GraphQLEnum<TestSchema.EnumType>>("enumType") public var enumType"#));
    assert!(actual.contains(r#"@Field<Cat>("object") public var object"#));
}

#[test]
fn test__render__given_fields_with_swift_reserved_keyword_names_generates_fields_escaped_with_backticks() {
    let fields: Vec<(&str, GraphQLType, Option<&str>)> = KEYWORDS.iter().map(|k| (*k, non_null_string(), None)).collect();
    let actual = render_body(&build_subject("Dog", None, fields, swift_package_config()));
    assert!(actual.contains(r#"@Field<String>("Any") public var `Any`"#));
    assert!(actual.contains(r#"@Field<String>("Protocol") public var `Protocol`"#));
    assert!(actual.contains(r#"@Field<String>("Self") public var `Self`"#));
    assert!(actual.contains(r#"@Field<String>("Type") public var `Type`"#));
    assert!(actual.contains(r#"@Field<String>("as") public var `as`"#));
    assert!(actual.contains(r#"@Field<String>("class") public var `class`"#));
    assert!(actual.contains(r#"@Field<String>("self") public var `self`"#));
    assert!(actual.contains(r#"@Field<String>("var") public var `var`"#));
}

#[test]
fn test__render__given_field_type_interface_named_actor_generates_fields_with_namespace() {
    let fields = vec![("actor", interface_entity("Actor", &[]), None)];
    let actual = render_body(&build_subject("Dog", None, fields, swift_package_config()));
    assert!(actual.contains(r#"@Field<MockObject.Actor>("actor") public var actor"#));
}

#[test]
fn test__render__given_field_type_union_named_actor_generates_fields_with_namespace() {
    let fields = vec![("actor", union_entity("Actor", &[]), None)];
    let actual = render_body(&build_subject("Dog", None, fields, swift_package_config()));
    assert!(actual.contains(r#"@Field<MockObject.Actor>("actor") public var actor"#));
}

#[test]
fn test__render__given_field_type_object_named_actor_generates_fields_without_namespace() {
    let fields = vec![("actor", object_entity("Actor"), None)];
    let actual = render_body(&build_subject("Dog", None, fields, swift_package_config()));
    assert!(actual.contains(r#"@Field<Actor>("actor") public var actor"#));
}

#[test]
fn test__render__given_conflicting_field_name_generates_property_with_field_name() {
    let fields = vec![("hash", non_null_string(), None)];
    let actual = render_body(&build_subject("Dog", None, fields, swift_package_config()));
    assert!(actual.contains("var hash: String? {"));
    assert!(actual.contains(r#"get { _data["hash"] as? String }"#));
    assert!(actual.contains(r"set { _setScalar(newValue, for: \.hash) }"));
}

#[test]
fn test__render__given_schema_type_generates_convenience_initializer() {
    let fields = vec![
        ("string", non_null_string(), None),
        ("stringList", list(non_null_string()), None),
        ("stringNestedList", list(list(non_null_string())), None),
        ("stringOptionalList", list(string_type()), None),
        ("customScalar", non_null(custom_scalar("CustomScalar")), None),
        ("customScalarList", list(non_null(custom_scalar("CustomScalar"))), None),
        ("customScalarOptionalList", list(custom_scalar("CustomScalar")), None),
        ("optionalString", string_type(), None),
        ("object", object_entity("Cat"), None),
        ("objectList", list(non_null(object_entity("Cat"))), None),
        ("objectNestedList", list(non_null(list(non_null(object_entity("Cat"))))), None),
        ("objectOptionalList", list(object_entity("Cat")), None),
        ("interface", interface_entity("Animal", &[]), None),
        ("interfaceList", list(non_null(interface_entity("Animal", &[]))), None),
        ("interfaceNestedList", list(non_null(list(non_null(interface_entity("Animal", &[]))))), None),
        ("interfaceOptionalList", list(interface_entity("Animal", &[])), None),
        ("union", union_entity("Pet", &[]), None),
        ("unionList", list(non_null(union_entity("Pet", &[]))), None),
        ("unionNestedList", list(non_null(list(non_null(union_entity("Pet", &[]))))), None),
        ("unionOptionalList", list(union_entity("Pet", &[])), None),
        ("enumType", enum_type("enumType", &[]), None),
        ("enumList", list(non_null(enum_type("enumType", &[]))), None),
        ("enumOptionalList", list(enum_type("enumType", &[])), None),
    ];
    let actual = render_body(&build_subject("Dog", None, fields, swift_package_config()));
    assert!(actual.contains("public extension Mock where O == Dog {"));
    assert!(actual.contains("customScalar: TestSchema.CustomScalar = .defaultMockValue"));
    assert!(actual.contains("customScalarList: [TestSchema.CustomScalar]? = nil"));
    assert!(actual.contains("customScalarOptionalList: [TestSchema.CustomScalar?]? = nil"));
    assert!(actual.contains("enumList: [GraphQLEnum<TestSchema.EnumType>]? = nil"));
    assert!(actual.contains("enumOptionalList: [GraphQLEnum<TestSchema.EnumType>?]? = nil"));
    assert!(actual.contains("enumType: GraphQLEnum<TestSchema.EnumType>? = nil"));
    assert!(actual.contains("interface: (any AnyMock)? = nil"));
    assert!(actual.contains("interfaceList: [(any AnyMock)]? = nil"));
    assert!(actual.contains("interfaceNestedList: [[(any AnyMock)]]? = nil"));
    assert!(actual.contains("interfaceOptionalList: [(any AnyMock)?]? = nil"));
    assert!(actual.contains("object: Mock<Cat>? = nil"));
    assert!(actual.contains("objectList: [Mock<Cat>]? = nil"));
    assert!(actual.contains("objectNestedList: [[Mock<Cat>]]? = nil"));
    assert!(actual.contains("objectOptionalList: [Mock<Cat>?]? = nil"));
    assert!(actual.contains("optionalString: String? = nil"));
    assert!(actual.contains("string: String = \"\""));
    assert!(actual.contains("stringList: [String]? = nil"));
    assert!(actual.contains("stringNestedList: [[String]?]? = nil"));
    assert!(actual.contains("stringOptionalList: [String?]? = nil"));
    assert!(actual.contains("union: (any AnyMock)? = nil"));
    assert!(actual.contains("unionList: [(any AnyMock)]? = nil"));
    assert!(actual.contains("unionNestedList: [[(any AnyMock)]]? = nil"));
    assert!(actual.contains("unionOptionalList: [(any AnyMock)?]? = nil"));
    assert!(actual.contains(r"_setScalar(customScalar, for: \.customScalar)"));
    assert!(actual.contains(r"_setScalarList(customScalarList, for: \.customScalarList)"));
    assert!(actual.contains(r"_setEntity(object, for: \.object)"));
    assert!(actual.contains(r"_setList(objectList, for: \.objectList)"));
    assert!(actual.contains(r"_setEntity(interface, for: \.interface)"));
    assert!(actual.contains(r"_setList(interfaceList, for: \.interfaceList)"));
    assert!(actual.contains(r"_setEntity(union, for: \.union)"));
    assert!(actual.contains(r"_setList(unionList, for: \.unionList)"));
}

#[test]
fn test__render__given_schema_type_and_default_parameter_flag_on_generates_default_value_for_required_fields() {
    let animal = || interface_entity("Animal", &["Duck"]);
    let pet = || union_entity("Pet", &["Goldfish", "Hamster"]);
    let cat = || object_entity("Cat");
    let enum_foo_bar = || enum_type("enumType", &["foo", "bar"]);
    let fields = vec![
        ("string", non_null(string_type()), None),
        ("stringList", non_null(list(non_null_string())), None),
        ("stringNestedList", non_null(list(non_null(list(non_null_string())))), None),
        ("customScalar", non_null(custom_scalar("CustomScalar")), None),
        ("customScalarList", non_null(list(non_null(custom_scalar("CustomScalar")))), None),
        ("lowercaseObject", non_null(object_entity("aardvark")), None),
        ("object", non_null(cat()), None),
        ("objectList", non_null(list(non_null(cat()))), None),
        ("objectNestedList", non_null(list(non_null(list(non_null(cat()))))), None),
        ("interface", non_null(animal()), None),
        ("interfaceList", non_null(list(non_null(animal()))), None),
        ("interfaceNestedList", non_null(list(non_null(list(non_null(animal()))))), None),
        ("union", non_null(pet()), None),
        ("unionList", non_null(list(non_null(pet()))), None),
        ("unionNestedList", non_null(list(non_null(list(non_null(pet()))))), None),
        ("enumType", non_null(enum_foo_bar()), None),
        ("enumList", non_null(list(non_null(enum_foo_bar()))), None),
    ];
    let actual = render_body(&build_subject("Dog", None, fields, swift_package_config()));
    assert!(actual.contains("customScalar: TestSchema.CustomScalar = .defaultMockValue"));
    assert!(actual.contains("customScalarList: [TestSchema.CustomScalar] = []"));
    assert!(actual.contains("enumList: [GraphQLEnum<TestSchema.EnumType>] = []"));
    assert!(actual.contains("enumType: GraphQLEnum<TestSchema.EnumType> = .case(.foo)"));
    assert!(actual.contains("interface: (any AnyMock) = Mock<Duck>()"));
    assert!(actual.contains("interfaceList: [(any AnyMock)] = []"));
    assert!(actual.contains("interfaceNestedList: [[(any AnyMock)]] = []"));
    assert!(actual.contains("lowercaseObject: Mock<Aardvark> = Mock<Aardvark>()"));
    assert!(actual.contains("object: Mock<Cat> = Mock<Cat>()"));
    assert!(actual.contains("objectList: [Mock<Cat>] = []"));
    assert!(actual.contains("objectNestedList: [[Mock<Cat>]] = []"));
    assert!(actual.contains("string: String = \"\""));
    assert!(actual.contains("stringList: [String] = []"));
    assert!(actual.contains("stringNestedList: [[String]] = []"));
    assert!(actual.contains("union: (any AnyMock) = Mock<Goldfish>()"));
    assert!(actual.contains("unionList: [(any AnyMock)] = []"));
    assert!(actual.contains("unionNestedList: [[(any AnyMock)]] = []"));
}

#[test]
fn test__render__given_schema_type_without_fields_does_not_generate_convenience_initializer() {
    let actual = render_body(&build_subject("Dog", None, vec![], swift_package_config()));
    assert!(!actual.contains("extension Mock where O == Dog"));
    assert!(!actual.contains("convenience init"));
    assert!(actual.ends_with("}\n\n"));
}

#[test]
fn test__render__given_fields_with_swift_reserved_keyword_names_generates_convenience_initializer_parameters_escaped_with_backticks_and_internal_names(
) {
    let fields: Vec<(&str, GraphQLType, Option<&str>)> = KEYWORDS.iter().map(|k| (*k, non_null_string(), None)).collect();
    let actual = render_body(&build_subject("Dog", None, fields, swift_package_config()));
    assert!(actual.contains("`self` self_value: String = \"\""));
    assert!(actual.contains(r"_setScalar(self_value, for: \.`self`)"));
    assert!(actual.contains("`Any`: String = \"\""));
    assert!(actual.contains("`Protocol`: String = \"\""));
    assert!(actual.contains("`Self`: String = \"\""));
    assert!(actual.contains("`Type`: String = \"\""));
    assert!(actual.contains("`class`: String = \"\""));
    assert!(actual.contains("`var`: String = \"\""));
    assert!(actual.contains(r"_setScalar(`Any`, for: \.`Any`)"));
    assert!(actual.contains(r"_setScalar(`class`, for: \.`class`)"));
}

#[test]
fn test__render__given_schema_type_and_fields_when_test_mocks_is_swift_package_should_render_with_public_access() {
    let fields = vec![("string", non_null_string(), None)];
    let actual = render_body(&build_subject("Dog", None, fields, swift_package_config()));
    assert!(actual.contains("public final class Dog: MockObject {"));
    assert!(actual.contains("public static let objectType"));
    assert!(actual.contains("public struct MockFields: Sendable {"));
    assert!(actual.contains("public extension Mock where O == Dog {"));
}

#[test]
fn test__render__given_schema_type_when_test_mocks_absolute_with_public_access_modifier_should_render_with_public_access(
) {
    let fields = vec![("string", non_null_string(), None)];
    let actual = render_body(&build_subject("Dog", None, fields, absolute_public_config()));
    assert!(actual.contains("public final class Dog: MockObject {"));
    assert!(actual.contains("public extension Mock where O == Dog {"));
}

#[test]
fn test__render__given_schema_type_when_test_mocks_absolute_with_internal_access_modifier_should_render_with_internal_access(
) {
    let fields = vec![("string", non_null_string(), None)];
    let actual = render_body(&build_subject("Dog", None, fields, absolute_internal_config()));
    assert!(actual.contains("final class Dog: MockObject {"));
    assert!(!actual.contains("public final class Dog"));
    assert!(actual.contains("static let objectType"));
    assert!(actual.contains("struct MockFields: Sendable {"));
    assert!(actual.contains("extension Mock where O == Dog {"));
    assert!(!actual.contains("public extension Mock"));
}

#[test]
fn test__render__given_warnings_on_deprecated_usage_include_has_deprecated_field_should_generate_warning() {
    let config = make_config("TestSchema", swift_package(), Composition::Include);
    let fields = vec![("string", non_null_string(), Some("Cause I said so!"))];
    let actual = render_body(&build_subject("Dog", None, fields, config));
    assert!(actual.contains(r#"@available(*, deprecated, message: "Cause I said so!")"#));
    assert!(actual.contains(r#"@Field<String>("string") public var string"#));
}

#[test]
fn test__render__given_warnings_on_deprecated_usage_exclude_has_deprecated_field_should_not_generate_warning() {
    let fields = vec![("string", non_null_string(), Some("Cause I said so!"))];
    let actual = render_body(&build_subject("Dog", None, fields, swift_package_config()));
    assert!(!actual.contains("@available"));
    assert!(actual.contains(r#"@Field<String>("string") public var string"#));
}

#[test]
fn test__render__given_object_using_reserved_keyword_generates_type_with_suffix() {
    for keyword in &["Type", "type"] {
        let fields = vec![("string", non_null_string(), None)];
        let actual = render_body(&build_subject(keyword, None, fields, swift_package_config()));
        assert!(
            actual.contains("public final class Type_Object: MockObject {"),
            "Expected 'Type_Object' for keyword '{}', got:\n{}",
            keyword,
            actual,
        );
        assert!(actual.contains("TestSchema.Objects.Type_Object"));
        assert!(actual.contains("Array<Mock<Type_Object>>"));
        assert!(actual.contains("extension Mock where O == Type_Object {"));
    }
}

#[test]
fn test__render__given_mock_object_with_custom_name_should_render_with_custom_name() {
    let actual = render_body(&build_subject("MyObject", Some("MyCustomObject"), vec![], swift_package_config()));
    assert!(actual.contains("public final class MyCustomObject: MockObject {"));
    assert!(actual.contains("TestSchema.Objects.MyCustomObject"));
    assert!(actual.contains("Array<Mock<MyCustomObject>>"));
}

#[test]
fn mock_object_template_fields_are_sorted_by_key_and_stable() {
    let fields = vec![
        ("b", non_null_string(), None),
        ("a", string_type(), None),
        ("c", non_null(custom_scalar("Int")), None),
    ];
    let actual = render_body(&build_subject("Dog", None, fields, absolute_internal_config()));
    let expected = "\
final class Dog: MockObject {
  static let objectType: ApolloAPI.Object = TestSchema.Objects.Dog
  static let _mockFields = MockFields()
  typealias MockValueCollectionType = Array<Mock<Dog>>

  struct MockFields: Sendable {
    @Field<String>(\"a\") public var a
    @Field<String>(\"b\") public var b
    @Field<Int>(\"c\") public var c
  }
}

extension Mock where O == Dog {
  convenience init(
    a: String? = nil,
    b: String = \"\",
    c: Int = 0
  ) {
    self.init()
    _setScalar(a, for: \\.a)
    _setScalar(b, for: \\.b)
    _setScalar(c, for: \\.c)
  }
}
";
    assert_eq!(actual, expected);
}
