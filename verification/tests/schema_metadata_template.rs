use lib::config::{
    AccessModifier, ApolloCodegenConfiguration, Composition, FileOutput, ModuleType,
    OperationsFileOutput, OutputOptions, SchemaTypesFileOutput, TestMockFileOutput,
};
use lib::graphql::{GraphQLName, GraphQLObjectType, ReferencedTypes, Schema};
use lib::templates::schema::schema_metadata_template::SchemaMetadataTemplate;
use lib::templates::{ConfigurationContext, NonFatalErrorRecorder, TemplateRenderer};

fn make_config(namespace: &str, module_type: ModuleType, options: OutputOptions) -> ApolloCodegenConfiguration {
    ApolloCodegenConfiguration {
        schema_namespace: namespace.to_string(),
        output: FileOutput {
            schema_types: SchemaTypesFileOutput { path: "./gen".to_string(), module_type },
            operations: OperationsFileOutput::InSchemaModule,
            test_mocks: TestMockFileOutput::NoTestMocks,
        },
        options,
    }
}

fn spm_config() -> ApolloCodegenConfiguration {
    spm_config_with_namespace("TestSchema")
}

fn spm_config_with_namespace(namespace: &str) -> ApolloCodegenConfiguration {
    make_config(namespace, ModuleType::SwiftPackageManager { apollo_sdk_dependency: None }, OutputOptions::new())
}

fn embedded_config(access_modifier: AccessModifier) -> ApolloCodegenConfiguration {
    make_config(
        "aName",
        ModuleType::EmbeddedInTarget { name: "CustomTarget".to_string(), access_modifier },
        OutputOptions::new(),
    )
}

fn embedded_public_config() -> ApolloCodegenConfiguration {
    embedded_config(AccessModifier::Public)
}

fn embedded_internal_config() -> ApolloCodegenConfiguration {
    embedded_config(AccessModifier::Internal)
}

fn other_config() -> ApolloCodegenConfiguration {
    make_config("aName", ModuleType::Other, OutputOptions::new())
}

fn make_object(name: &str) -> GraphQLObjectType {
    GraphQLObjectType { name: GraphQLName::new(name.to_string()), documentation: None, interfaces: vec![], key_fields: None }
}

fn make_schema(objects: Vec<GraphQLObjectType>, documentation: Option<String>) -> Schema {
    Schema { referenced_types: ReferencedTypes { objects }, documentation }
}

fn make_template(schema: Schema, config: ApolloCodegenConfiguration) -> SchemaMetadataTemplate {
    SchemaMetadataTemplate::new(schema, ConfigurationContext::new(config, None))
}

fn render_body(template: &SchemaMetadataTemplate) -> String {
    let recorder = NonFatalErrorRecorder::new();
    template.render_body_template(&recorder)
}

fn render_detached(template: &SchemaMetadataTemplate) -> Option<String> {
    let recorder = NonFatalErrorRecorder::new();
    template.render_detached_template(&recorder)
}

#[test]
fn test_render_embedded_internal_typealiases_and_detached_protocols() {
    let template = make_template(make_schema(vec![], None), embedded_internal_config());
    let body = render_body(&template);
    let detached = render_detached(&template);
    assert!(body.contains("typealias SelectionSet = AName_SelectionSet"));
    assert!(body.contains("typealias InlineFragment = AName_InlineFragment"));
    assert!(body.contains("typealias MutableSelectionSet = AName_MutableSelectionSet"));
    assert!(body.contains("typealias MutableInlineFragment = AName_MutableInlineFragment"));
    let detached = detached.expect("detached should exist for embedded");
    assert!(detached.contains("protocol AName_SelectionSet: ApolloAPI.SelectionSet & ApolloAPI.RootSelectionSet"));
    assert!(detached.contains("where Schema == AName.SchemaMetadata {}"));
    assert!(detached.contains("protocol AName_InlineFragment: ApolloAPI.SelectionSet & ApolloAPI.InlineFragment"));
    assert!(detached.contains("protocol AName_MutableSelectionSet: ApolloAPI.MutableRootSelectionSet"));
    assert!(detached.contains("protocol AName_MutableInlineFragment: ApolloAPI.MutableSelectionSet & ApolloAPI.InlineFragment"));
    assert!(!detached.contains("public "));
}

#[test]
fn test_render_embedded_public_typealiases_and_detached_protocols() {
    let template = make_template(make_schema(vec![], None), embedded_public_config());
    let body = render_body(&template);
    let detached = render_detached(&template);
    assert!(body.contains("typealias SelectionSet = AName_SelectionSet"));
    let detached = detached.expect("detached should exist for embedded");
    assert!(detached.contains("public protocol AName_SelectionSet: ApolloAPI.SelectionSet & ApolloAPI.RootSelectionSet"));
    assert!(detached.contains("public protocol AName_InlineFragment: ApolloAPI.SelectionSet & ApolloAPI.InlineFragment"));
    assert!(detached.contains("public protocol AName_MutableSelectionSet: ApolloAPI.MutableRootSelectionSet"));
    assert!(detached.contains("public protocol AName_MutableInlineFragment: ApolloAPI.MutableSelectionSet & ApolloAPI.InlineFragment"));
}

#[test]
fn test_render_spm_inline_protocols_no_detached() {
    let template = make_template(make_schema(vec![], None), spm_config_with_namespace("aName"));
    let body = render_body(&template);
    let detached = render_detached(&template);
    assert!(body.contains("public protocol SelectionSet: ApolloAPI.SelectionSet & ApolloAPI.RootSelectionSet"));
    assert!(body.contains("where Schema == AName.SchemaMetadata {}"));
    assert!(body.contains("public protocol InlineFragment: ApolloAPI.SelectionSet & ApolloAPI.InlineFragment"));
    assert!(body.contains("public protocol MutableSelectionSet: ApolloAPI.MutableRootSelectionSet"));
    assert!(body.contains("public protocol MutableInlineFragment: ApolloAPI.MutableSelectionSet & ApolloAPI.InlineFragment"));
    assert!(!body.contains("typealias"));
    assert!(detached.is_none());
}

#[test]
fn test_render_other_module_inline_protocols_no_detached() {
    let template = make_template(make_schema(vec![], None), other_config());
    let body = render_body(&template);
    let detached = render_detached(&template);
    assert!(body.contains("public protocol SelectionSet: ApolloAPI.SelectionSet & ApolloAPI.RootSelectionSet"));
    assert!(body.contains("where Schema == AName.SchemaMetadata {}"));
    assert!(detached.is_none());
}

#[test]
fn test_render_embedded_internal_schema_metadata_enum() {
    let body = render_body(&make_template(make_schema(vec![], None), embedded_internal_config()));
    assert!(body.contains("enum SchemaMetadata: ApolloAPI.SchemaMetadata {"));
    assert!(body.contains("static let configuration: any ApolloAPI.SchemaConfiguration.Type = SchemaConfiguration.self"));
}

#[test]
fn test_render_embedded_public_schema_metadata_enum() {
    let body = render_body(&make_template(make_schema(vec![], None), embedded_public_config()));
    assert!(body.contains("enum SchemaMetadata: ApolloAPI.SchemaMetadata {"));
    assert!(body.contains("public static let configuration: any ApolloAPI.SchemaConfiguration.Type = SchemaConfiguration.self"));
}

#[test]
fn test_render_spm_schema_metadata_enum() {
    let body = render_body(&make_template(make_schema(vec![], None), spm_config()));
    assert!(body.contains("public enum SchemaMetadata: ApolloAPI.SchemaMetadata {"));
    assert!(body.contains("public static let configuration: any ApolloAPI.SchemaConfiguration.Type = SchemaConfiguration.self"));
}

#[test]
fn test_render_other_schema_metadata_enum() {
    let body = render_body(&make_template(make_schema(vec![], None), other_config()));
    assert!(body.contains("public enum SchemaMetadata: ApolloAPI.SchemaMetadata {"));
    assert!(body.contains("public static let configuration: any ApolloAPI.SchemaConfiguration.Type = SchemaConfiguration.self"));
}

#[test]
fn test_render_with_referenced_objects_correctly_cased() {
    let schema = make_schema(vec![make_object("objA"), make_object("objB"), make_object("objC")], None);
    let body = render_body(&make_template(schema, spm_config_with_namespace("objectSchema")));
    assert!(body.contains("objectTypeMap: [String: ApolloAPI.Object]"), "body:\n{}", body);
    assert!(body.contains("\"objA\": ObjectSchema.Objects.ObjA"), "body:\n{}", body);
    assert!(body.contains("\"objB\": ObjectSchema.Objects.ObjB"), "body:\n{}", body);
    assert!(body.contains("\"objC\": ObjectSchema.Objects.ObjC"), "body:\n{}", body);
    assert!(body.contains("objectTypeMap[typename]"), "body:\n{}", body);
    assert!(body.contains("static func objectType(forTypename typename: String) -> ApolloAPI.Object?"));
}

#[test]
fn test_render_with_referenced_other_types_only_includes_objects() {
    let schema = make_schema(vec![make_object("ObjectA")], None);
    let body = render_body(&make_template(schema, spm_config_with_namespace("ObjectSchema")));
    assert!(body.contains("\"ObjectA\": ObjectSchema.Objects.ObjectA"));
    assert!(!body.contains("InterfaceB"));
    assert!(!body.contains("UnionC"));
}

#[test]
fn test_render_object_type_function_no_spi_for_public() {
    let schema = make_schema(vec![make_object("objA"), make_object("objB"), make_object("objC")], None);
    let body = render_body(&make_template(schema, spm_config_with_namespace("objectSchema")));
    assert!(body.contains("public static func objectType(forTypename typename: String) -> ApolloAPI.Object?"));
    assert!(!body.contains("@_spi(Execution)"));
}

#[test]
fn test_render_embedded_internal_type_namespace_enums() {
    let body = render_body(&make_template(make_schema(vec![make_object("ObjectA")], None), embedded_internal_config()));
    assert!(body.contains("enum Objects {}"));
    assert!(body.contains("enum Interfaces {}"));
    assert!(body.contains("enum Unions {}"));
    assert!(!body.contains("public enum Objects"));
}

#[test]
fn test_render_embedded_public_type_namespace_enums() {
    let body = render_body(&make_template(make_schema(vec![make_object("ObjectA")], None), embedded_public_config()));
    assert!(body.contains("enum Objects {}"));
    assert!(body.contains("enum Interfaces {}"));
    assert!(body.contains("enum Unions {}"));
}

#[test]
fn test_render_spm_type_namespace_enums() {
    let body = render_body(&make_template(make_schema(vec![make_object("ObjectA")], None), spm_config()));
    assert!(body.contains("public enum Objects {}"));
    assert!(body.contains("public enum Interfaces {}"));
    assert!(body.contains("public enum Unions {}"));
}

#[test]
fn test_render_other_type_namespace_enums() {
    let body = render_body(&make_template(make_schema(vec![make_object("ObjectA")], None), other_config()));
    assert!(body.contains("public enum Objects {}"));
    assert!(body.contains("public enum Interfaces {}"));
    assert!(body.contains("public enum Unions {}"));
}

#[test]
fn schema_metadata_template_test_render_with_documentation_include() {
    let mut options = OutputOptions::new();
    options.schema_documentation = Composition::Include;
    let config = make_config("TestSchema", ModuleType::SwiftPackageManager { apollo_sdk_dependency: None }, options);
    let body = render_body(&make_template(make_schema(vec![], Some("This is some great documentation!".to_string())), config));
    assert!(body.contains("/// This is some great documentation!"));
    assert!(body.contains("enum SchemaMetadata: ApolloAPI.SchemaMetadata {"));
}

#[test]
fn schema_metadata_template_test_render_with_documentation_exclude() {
    let mut options = OutputOptions::new();
    options.schema_documentation = Composition::Exclude;
    let config = make_config("TestSchema", ModuleType::SwiftPackageManager { apollo_sdk_dependency: None }, options);
    let body = render_body(&make_template(make_schema(vec![], Some("This is some great documentation!".to_string())), config));
    assert!(!body.contains("/// This is some great documentation!"));
    assert!(body.contains("enum SchemaMetadata: ApolloAPI.SchemaMetadata {"));
}

#[test]
fn schema_metadata_template_exact_body_in_module() {
    let schema = make_schema(vec![make_object("dog")], None);
    let expected = "public protocol SelectionSet: ApolloAPI.SelectionSet & ApolloAPI.RootSelectionSet
where Schema == Pets.SchemaMetadata {}

public protocol InlineFragment: ApolloAPI.SelectionSet & ApolloAPI.InlineFragment
where Schema == Pets.SchemaMetadata {}

public protocol MutableSelectionSet: ApolloAPI.MutableRootSelectionSet
where Schema == Pets.SchemaMetadata {}

public protocol MutableInlineFragment: ApolloAPI.MutableSelectionSet & ApolloAPI.InlineFragment
where Schema == Pets.SchemaMetadata {}

public enum SchemaMetadata: ApolloAPI.SchemaMetadata {
  public static let configuration: any ApolloAPI.SchemaConfiguration.Type = SchemaConfiguration.self

  private static let objectTypeMap: [String: ApolloAPI.Object] = [
    \"dog\": Pets.Objects.Dog
  ]

  public static func objectType(forTypename typename: String) -> ApolloAPI.Object? {
    objectTypeMap[typename]
  }
}

public enum Objects {}
public enum Interfaces {}
public enum Unions {}
";
    assert_eq!(render_body(&make_template(schema, spm_config_with_namespace("pets"))), expected);
}
