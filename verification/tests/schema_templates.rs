use lib::config::{
    AccessModifier, ApolloCodegenConfiguration, FileOutput, ModuleType, OperationsFileOutput,
    OutputOptions, SchemaTypesFileOutput, TestMockFileOutput,
};
use lib::templates::schema::schema_configuration_template::SchemaConfigurationTemplate;
use lib::templates::schema::schema_module_namespace_template::SchemaModuleNamespaceTemplate;
use lib::templates::{ConfigurationContext, NonFatalErrorRecorder, TemplateRenderer};

fn config_with(namespace: &str, module_type: ModuleType) -> ConfigurationContext {
    let config = ApolloCodegenConfiguration {
        schema_namespace: namespace.to_string(),
        output: FileOutput {
            schema_types: SchemaTypesFileOutput { path: "./gen".to_string(), module_type },
            operations: OperationsFileOutput::InSchemaModule,
            test_mocks: TestMockFileOutput::NoTestMocks,
        },
        options: OutputOptions::new(),
    };
    ConfigurationContext::new(config, None)
}

fn embedded(access_modifier: AccessModifier) -> ModuleType {
    ModuleType::EmbeddedInTarget { name: "TestTarget".to_string(), access_modifier }
}

fn render_body(template: &SchemaModuleNamespaceTemplate) -> String {
    let recorder = NonFatalErrorRecorder::new();
    template.render_body_template(&recorder)
}

#[test]
fn test_render_header_editable_with_reason() {
    let template = SchemaConfigurationTemplate { config: config_with("testSchema", ModuleType::SwiftPackageManager { apollo_sdk_dependency: None }) };
    let rendered = template.render().body;
    assert!(rendered.contains("// @generated"));
    assert!(rendered.contains("This file was automatically generated and can be edited to"));
    assert!(rendered.contains("// provide custom configuration for a generated GraphQL schema."));
    assert!(rendered.contains("// Any changes to this file will not be overwritten by future"));
    assert!(rendered.contains("// code generation execution."));
}

#[test]
fn test_render_spm_body() {
    let template = SchemaConfigurationTemplate { config: config_with("testSchema", ModuleType::SwiftPackageManager { apollo_sdk_dependency: None }) };
    let rendered = template.render().body;
    assert!(rendered.contains("public enum SchemaConfiguration: ApolloAPI.SchemaConfiguration {"));
    assert!(rendered.contains(
        "public static func cacheKeyInfo(for type: ApolloAPI.Object, object: ApolloAPI.ObjectData) -> CacheKeyInfo?"
    ));
    assert!(rendered.contains("// Implement this function to configure cache key resolution for your schema types."));
    assert!(rendered.contains("return nil"));
}

#[test]
fn schema_configuration_template_test_render_embedded_public_access() {
    let template = SchemaConfigurationTemplate { config: config_with("testSchema", embedded(AccessModifier::Public)) };
    let rendered = template.render().body;
    assert!(rendered.contains("enum SchemaConfiguration: ApolloAPI.SchemaConfiguration {"));
    assert!(rendered.contains(
        "public static func cacheKeyInfo(for type: ApolloAPI.Object, object: ApolloAPI.ObjectData) -> CacheKeyInfo?"
    ));
    assert!(!rendered.contains("public enum SchemaConfiguration"));
}

#[test]
fn schema_configuration_template_test_render_embedded_internal_access() {
    let template = SchemaConfigurationTemplate { config: config_with("testSchema", embedded(AccessModifier::Internal)) };
    let rendered = template.render().body;
    assert!(rendered.contains("enum SchemaConfiguration: ApolloAPI.SchemaConfiguration {"));
    assert!(rendered.contains(
        "static func cacheKeyInfo(for type: ApolloAPI.Object, object: ApolloAPI.ObjectData) -> CacheKeyInfo?"
    ));
    assert!(!rendered.contains("public "));
}

#[test]
fn schema_module_namespace_template_test_render_lowercase_schema_name_capitalized() {
    let template = SchemaModuleNamespaceTemplate { config: config_with("schema", embedded(AccessModifier::Internal)) };
    assert_eq!(render_body(&template), "enum Schema { }\n");
}

#[test]
fn schema_module_namespace_template_test_render_uppercase_schema_name() {
    let template = SchemaModuleNamespaceTemplate { config: config_with("SCHEMA", embedded(AccessModifier::Internal)) };
    assert_eq!(render_body(&template), "enum SCHEMA { }\n");
}

#[test]
fn schema_module_namespace_template_test_render_capitalized_schema_name() {
    let template = SchemaModuleNamespaceTemplate { config: config_with("MySchema", embedded(AccessModifier::Internal)) };
    assert_eq!(render_body(&template), "enum MySchema { }\n");
}

#[test]
fn test_render_embedded_internal_no_access_modifier() {
    let template = SchemaModuleNamespaceTemplate { config: config_with("MySchema", embedded(AccessModifier::Internal)) };
    assert_eq!(render_body(&template), "enum MySchema { }\n");
}

#[test]
fn test_render_embedded_public_has_public_access() {
    let template = SchemaModuleNamespaceTemplate { config: config_with("MySchema", embedded(AccessModifier::Public)) };
    assert_eq!(render_body(&template), "public enum MySchema { }\n");
}

#[test]
fn schema_configuration_exact_file() {
    let template = SchemaConfigurationTemplate { config: config_with("testSchema", ModuleType::SwiftPackageManager { apollo_sdk_dependency: None }) };
    let result = template.render();
    assert!(result.errors.is_empty());
    assert_eq!(
        result.body,
        "// @generated\n// This file was automatically generated and can be edited to\n// provide custom configuration for a generated GraphQL schema.\n//\n// Any changes to this file will not be overwritten by future\n// code generation execution.\n\nimport ApolloAPI\n\npublic enum SchemaConfiguration: ApolloAPI.SchemaConfiguration {\n  public static func cacheKeyInfo(for type: ApolloAPI.Object, object: ApolloAPI.ObjectData) -> CacheKeyInfo? {\n    // Implement this function to configure cache key resolution for your schema types.\n    return nil\n  }\n}\n"
    );
}

#[test]
fn schema_module_namespace_exact_file() {
    let template = SchemaModuleNamespaceTemplate { config: config_with("mySchema", embedded(AccessModifier::Public)) };
    assert_eq!(
        template.render().body,
        "// @generated\n// This file was automatically generated and should not be edited.\n\npublic enum MySchema { }\n"
    );
}
