use lib::config::{
    ApolloCodegenConfiguration, FileOutput, ModuleType, OperationsFileOutput, OutputOptions,
    SchemaTypesFileOutput, TestMockFileOutput,
};
use lib::graphql::{
    GraphQLCompositeType, GraphQLEnumType, GraphQLEnumValue, GraphQLInputField, GraphQLInterfaceType,
    GraphQLName, GraphQLNamedType, GraphQLObjectType, GraphQLScalarType, GraphQLType, GraphQLUnionType,
    GraphQLValue,
};
use lib::templates::rendering_helpers::composite_type_namespace::schema_types_namespace;
use lib::templates::rendering_helpers::graphql_input_field_rendered::{is_nullable, render_input_value_type};
use lib::templates::rendering_helpers::graphql_name_rendering::{
    is_swift_type, render_enum_value, render_input_field, render_named_type, swift_name_for_type,
    EnumRenderContext, RenderContext,
};
use lib::templates::rendering_helpers::graphql_type_rendered::{
    render_as_input_value, rendered, test_mock_field_type_name, TypeRenderContext,
};

fn default_config() -> ApolloCodegenConfiguration {
    ApolloCodegenConfiguration {
        schema_namespace: "TestSchema".to_string(),
        output: FileOutput {
            schema_types: SchemaTypesFileOutput {
                path: "./gen".to_string(),
                module_type: ModuleType::SwiftPackageManager { apollo_sdk_dependency: None },
            },
            operations: OperationsFileOutput::InSchemaModule,
            test_mocks: TestMockFileOutput::NoTestMocks,
        },
        options: OutputOptions::new(),
    }
}

fn scalar(name: &str) -> GraphQLScalarType {
    GraphQLScalarType { name: GraphQLName::new(name.to_string()), documentation: None, specified_by_url: None }
}

fn object(name: &str) -> GraphQLObjectType {
    GraphQLObjectType { name: GraphQLName::new(name.to_string()), documentation: None, interfaces: vec![], key_fields: None }
}

fn enum_type(name: &str) -> GraphQLEnumType {
    GraphQLEnumType { name: GraphQLName::new(name.to_string()), documentation: None, values: vec![] }
}

fn make_scalar(name: &str) -> GraphQLType {
    GraphQLType::Scalar(scalar(name))
}

fn make_enum(name: &str) -> GraphQLType {
    GraphQLType::Enum(enum_type(name))
}

fn make_entity_object(name: &str) -> GraphQLType {
    GraphQLType::Entity(GraphQLCompositeType::Object(object(name)))
}

fn enum_value(name: &str) -> GraphQLEnumValue {
    GraphQLEnumValue { name: GraphQLName::new(name.to_string()), documentation: None, deprecation_reason: None }
}

fn input_field(name: &str, type_: GraphQLType, default_value: Option<GraphQLValue>) -> GraphQLInputField {
    GraphQLInputField {
        name: GraphQLName::new(name.to_string()),
        type_,
        documentation: None,
        deprecation_reason: None,
        default_value,
    }
}

fn non_null(t: GraphQLType) -> GraphQLType {
    GraphQLType::NonNull(Box::new(t))
}

fn selection_set_field() -> TypeRenderContext {
    TypeRenderContext::SelectionSetField { force_non_null: false }
}

// Named types.

#[test]
fn test_render_named_type_filename() {
    let o = object("User");
    assert_eq!(render_named_type(&GraphQLNamedType::Object(&o), &RenderContext::Filename), "User");
}

#[test]
fn test_render_named_type_typename() {
    let o = object("User");
    assert_eq!(
        render_named_type(&GraphQLNamedType::Object(&o), &RenderContext::Typename { is_input_value: false }),
        "User"
    );
}

#[test]
fn test_render_named_type_with_custom_name() {
    let mut name = GraphQLName::new("ACTIVE".to_string());
    name.custom_name = Some("active".to_string());
    let e = GraphQLEnumType { name, documentation: None, values: vec![] };
    assert_eq!(
        render_named_type(&GraphQLNamedType::Enum(&e), &RenderContext::Typename { is_input_value: false }),
        "active"
    );
}

#[test]
fn test_render_scalar_boolean_becomes_bool() {
    let s = scalar("Boolean");
    assert_eq!(
        render_named_type(&GraphQLNamedType::Scalar(&s), &RenderContext::Typename { is_input_value: false }),
        "Bool"
    );
}

#[test]
fn test_render_scalar_float_becomes_double() {
    let s = scalar("Float");
    assert_eq!(
        render_named_type(&GraphQLNamedType::Scalar(&s), &RenderContext::Typename { is_input_value: false }),
        "Double"
    );
}

#[test]
fn test_render_scalar_int_as_input_value() {
    let s = scalar("Int");
    assert_eq!(
        render_named_type(&GraphQLNamedType::Scalar(&s), &RenderContext::Typename { is_input_value: true }),
        "Int32"
    );
}

#[test]
fn test_render_scalar_int_not_input_value() {
    let s = scalar("Int");
    assert_eq!(
        render_named_type(&GraphQLNamedType::Scalar(&s), &RenderContext::Typename { is_input_value: false }),
        "Int"
    );
}

#[test]
fn test_type_name_suffix_for_reserved_names() {
    let o = object("Self");
    assert_eq!(
        render_named_type(&GraphQLNamedType::Object(&o), &RenderContext::Typename { is_input_value: false }),
        "Self_Object"
    );
}

#[test]
fn test_type_name_suffix_for_protocol() {
    let e = enum_type("Protocol");
    assert_eq!(
        render_named_type(&GraphQLNamedType::Enum(&e), &RenderContext::Typename { is_input_value: false }),
        "Protocol_Enum"
    );
}

#[test]
fn test_is_swift_type_builtins() {
    for name in &["String", "Int", "Float", "Boolean"] {
        assert!(is_swift_type(&scalar(name)), "{} should be a Swift type", name);
    }
}

#[test]
fn test_is_swift_type_custom() {
    assert!(!is_swift_type(&scalar("DateTime")));
}

#[test]
fn test_render_enum_value_case_camel_case() {
    let config = default_config();
    let result = render_enum_value(&enum_value("ACTIVE_STATUS"), EnumRenderContext::EnumCase, &config);
    assert_eq!(result, "activeStatus");
}

#[test]
fn test_render_enum_value_raw_value() {
    let config = default_config();
    let result = render_enum_value(&enum_value("ACTIVE_STATUS"), EnumRenderContext::EnumRawValue, &config);
    assert_eq!(result, "ACTIVE_STATUS");
}

#[test]
fn test_render_enum_value_keyword_escaped() {
    let config = default_config();
    let result = render_enum_value(&enum_value("class"), EnumRenderContext::EnumCase, &config);
    assert_eq!(result, "`class`");
}

#[test]
fn test_type_name_documentation() {
    let mut name = GraphQLName::new("ACTIVE".to_string());
    name.custom_name = Some("active".to_string());
    assert_eq!(
        name.type_name_documentation(),
        Some("// Renamed from GraphQL schema value: 'ACTIVE'".to_string())
    );
}

#[test]
fn test_type_name_documentation_none() {
    let name = GraphQLName::new("User".to_string());
    assert!(name.type_name_documentation().is_none());
}

#[test]
fn name_rendering_custom_scalars_are_suffixed_but_id_is_not() {
    let date = scalar("Date");
    let id = scalar("ID");
    let typename = RenderContext::Typename { is_input_value: false };
    assert_eq!(render_named_type(&GraphQLNamedType::Scalar(&date), &typename), "Date");
    assert_eq!(render_named_type(&GraphQLNamedType::Scalar(&id), &typename), "ID");
    let reserved = scalar("Type");
    assert_eq!(render_named_type(&GraphQLNamedType::Scalar(&reserved), &typename), "Type_Scalar");
    let mut url_string = scalar("String");
    url_string.specified_by_url = Some("https://example.com".to_string());
    assert_eq!(render_named_type(&GraphQLNamedType::Scalar(&url_string), &typename), "String_Scalar");
}

#[test]
fn name_rendering_filename_keeps_schema_name() {
    let o = object("self");
    assert_eq!(render_named_type(&GraphQLNamedType::Object(&o), &RenderContext::Filename), "self");
    assert_eq!(
        render_named_type(&GraphQLNamedType::Object(&o), &RenderContext::Typename { is_input_value: false }),
        "Self_Object"
    );
    assert_eq!(swift_name_for_type(&GraphQLNamedType::Object(&o), false), "self");
}

#[test]
fn name_rendering_raw_value_ignores_custom_name() {
    let config = default_config();
    let mut value = enum_value("OLD");
    value.name.custom_name = Some("renamed".to_string());
    assert_eq!(render_enum_value(&value, EnumRenderContext::EnumRawValue, &config), "OLD");
    assert_eq!(render_enum_value(&value, EnumRenderContext::EnumCase, &config), "renamed");
}

#[test]
fn name_rendering_input_field_conversion() {
    let mut config = default_config();
    let field = input_field("first_name", make_scalar("String"), None);
    assert_eq!(render_input_field(&field, &config), "firstName");
    config.options.conversion_strategies.input_objects = lib::config::InputObjects::Unchanged;
    assert_eq!(render_input_field(&field, &config), "first_name");
    let keyword = input_field("for", make_scalar("String"), None);
    assert_eq!(render_input_field(&keyword, &config), "`for`");
}

// Type references.

#[test]
fn test_rendered_scalar_string_non_null() {
    let config = default_config();
    let t = non_null(make_scalar("String"));
    assert_eq!(rendered(&t, &selection_set_field(), None, &config), "String");
}

#[test]
fn test_rendered_scalar_string_nullable() {
    let config = default_config();
    let t = make_scalar("String");
    assert_eq!(rendered(&t, &selection_set_field(), None, &config), "String?");
}

#[test]
fn test_rendered_list_of_strings() {
    let config = default_config();
    let t = GraphQLType::List(Box::new(make_scalar("String")));
    assert_eq!(rendered(&t, &selection_set_field(), None, &config), "[String?]?");
}

#[test]
fn test_rendered_non_null_list_of_non_null_strings() {
    let config = default_config();
    let t = non_null(GraphQLType::List(Box::new(non_null(make_scalar("String")))));
    assert_eq!(rendered(&t, &selection_set_field(), None, &config), "[String]");
}

#[test]
fn test_rendered_enum_wrapped() {
    let config = default_config();
    let t = non_null(make_enum("Status"));
    assert_eq!(rendered(&t, &selection_set_field(), None, &config), "GraphQLEnum<TestSchema.Status>");
}

#[test]
fn test_rendered_as_input_value_nullable() {
    let config = default_config();
    let t = make_scalar("String");
    assert_eq!(rendered(&t, &TypeRenderContext::InputValue, None, &config), "GraphQLNullable<String>");
}

#[test]
fn test_rendered_as_input_value_non_null() {
    let config = default_config();
    let t = non_null(make_scalar("String"));
    assert_eq!(rendered(&t, &TypeRenderContext::InputValue, None, &config), "String");
}

#[test]
fn test_rendered_entity_has_no_schema_prefix() {
    let config = default_config();
    let t = non_null(make_entity_object("User"));
    assert_eq!(rendered(&t, &selection_set_field(), None, &config), "User");
}

#[test]
fn test_rendered_custom_scalar_has_schema_prefix() {
    let config = default_config();
    let t = non_null(make_scalar("DateTime"));
    assert_eq!(rendered(&t, &selection_set_field(), None, &config), "TestSchema.DateTime");
}

#[test]
fn type_rendering_force_non_null_and_replacing_name() {
    let config = default_config();
    let t = make_scalar("String");
    assert_eq!(rendered(&t, &TypeRenderContext::SelectionSetField { force_non_null: true }, None, &config), "String");
    let entity = make_entity_object("User");
    assert_eq!(rendered(&entity, &selection_set_field(), Some("Friend"), &config), "Friend?");
}

#[test]
fn type_rendering_input_values() {
    let mut config = default_config();
    let list = GraphQLType::List(Box::new(non_null(make_enum("Color"))));
    assert_eq!(render_as_input_value(&list, true, &config), "GraphQLNullable<[GraphQLEnum<Color>]>");
    config.output.operations = OperationsFileOutput::Relative {
        subpath: None,
        access_modifier: lib::config::AccessModifier::Public,
    };
    assert_eq!(render_as_input_value(&list, true, &config), "GraphQLNullable<[GraphQLEnum<TestSchema.Color>]>");
    assert_eq!(render_as_input_value(&non_null(make_scalar("Int")), true, &config), "Int32");
}

#[test]
fn type_rendering_test_mock_fields() {
    let config = default_config();
    let mut renamed = GraphQLName::new("Performer".to_string());
    renamed.custom_name = Some("Actor".to_string());
    let any_interface = GraphQLInterfaceType {
        name: renamed,
        documentation: None,
        key_fields: None,
        implementing_objects: vec![],
    };
    let t = non_null(GraphQLType::Entity(GraphQLCompositeType::Interface(any_interface)));
    assert_eq!(
        rendered(&t, &TypeRenderContext::TestMockField { force_non_null: false }, None, &config),
        "MockObject.Actor"
    );
    let o = object("Any");
    assert_eq!(test_mock_field_type_name(&GraphQLNamedType::Object(&o), &config), "Any_Object");
    let plain = GraphQLInterfaceType {
        name: GraphQLName::new("Any".to_string()),
        documentation: None,
        key_fields: None,
        implementing_objects: vec![],
    };
    assert_eq!(test_mock_field_type_name(&GraphQLNamedType::Interface(&plain), &config), "Any_Interface");
}

// Input fields.

#[test]
fn test_render_nullable_string_field() {
    let config = default_config();
    let field = input_field("name", make_scalar("String"), None);
    assert_eq!(render_input_value_type(&field, false, &config), "GraphQLNullable<String>");
}

#[test]
fn test_render_non_null_string_field() {
    let config = default_config();
    let field = input_field("name", non_null(make_scalar("String")), None);
    assert_eq!(render_input_value_type(&field, false, &config), "String");
}

#[test]
fn test_render_non_null_with_default_adds_optional() {
    let config = default_config();
    let field = input_field(
        "name",
        non_null(make_scalar("String")),
        Some(GraphQLValue::String("default".to_string())),
    );
    assert_eq!(render_input_value_type(&field, false, &config), "String?");
}

#[test]
fn test_render_with_include_default_nil() {
    let config = default_config();
    let field = input_field("name", make_scalar("String"), None);
    assert_eq!(render_input_value_type(&field, true, &config), "GraphQLNullable<String> = nil");
}

#[test]
fn test_is_nullable() {
    let nullable_field = input_field("f", make_scalar("String"), None);
    assert!(is_nullable(&nullable_field));
    let non_null_field = input_field("f", non_null(make_scalar("String")), None);
    assert!(!is_nullable(&non_null_field));
}

#[test]
fn input_field_non_null_without_default_has_no_nil_default() {
    let config = default_config();
    let field = input_field("name", non_null(make_scalar("String")), None);
    assert_eq!(render_input_value_type(&field, true, &config), "String");
}

// Composite namespaces.

#[test]
fn test_object_namespace() {
    let obj = GraphQLCompositeType::Object(object("User"));
    assert_eq!(schema_types_namespace(&obj), "Objects");
}

#[test]
fn test_interface_namespace() {
    let iface = GraphQLCompositeType::Interface(GraphQLInterfaceType {
        name: GraphQLName::new("Node".to_string()),
        documentation: None,
        key_fields: None,
        implementing_objects: vec![],
    });
    assert_eq!(schema_types_namespace(&iface), "Interfaces");
}

#[test]
fn test_union_namespace() {
    let union = GraphQLCompositeType::Union(GraphQLUnionType {
        name: GraphQLName::new("Animal".to_string()),
        documentation: None,
        types: vec![],
    });
    assert_eq!(schema_types_namespace(&union), "Unions");
}
