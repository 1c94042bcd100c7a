use lib::config::{
    AccessModifier, ApolloCodegenConfiguration, Composition, FileOutput, ModuleType,
    OperationsFileOutput, OutputOptions, SchemaTypesFileOutput, TestMockFileOutput,
};
use lib::graphql::{GraphQLName, GraphQLObjectType, GraphQLUnionType};
use lib::templates::rendering_helpers::string_casing::first_uppercased;
use lib::templates::schema::union_template::UnionTemplate;
use lib::templates::{ConfigurationContext, NonFatalErrorRecorder, TemplateRenderer};

fn make_config(namespace: &str, module_type: ModuleType, options: OutputOptions) -> ConfigurationContext {
    ConfigurationContext::new(
        ApolloCodegenConfiguration {
            schema_namespace: namespace.to_string(),
            output: FileOutput {
                schema_types: SchemaTypesFileOutput { path: "./gen".to_string(), module_type },
                operations: OperationsFileOutput::InSchemaModule,
                test_mocks: TestMockFileOutput::NoTestMocks,
            },
            options,
        },
        None,
    )
}

fn embedded() -> ModuleType {
    ModuleType::EmbeddedInTarget { name: "TestTarget".to_string(), access_modifier: AccessModifier::Internal }
}

fn default_config() -> ConfigurationContext {
    make_config("TestSchema", embedded(), OutputOptions::new())
}

fn spm_config() -> ConfigurationContext {
    make_config("TestSchema", ModuleType::SwiftPackageManager { apollo_sdk_dependency: None }, OutputOptions::new())
}

fn config_with_namespace(ns: &str) -> ConfigurationContext {
    make_config(ns, embedded(), OutputOptions::new())
}

fn config_with_docs(docs_included: bool) -> ConfigurationContext {
    let mut options = OutputOptions::new();
    options.schema_documentation = if docs_included { Composition::Include } else { Composition::Exclude };
    make_config("TestSchema", embedded(), options)
}

fn make_object(name: &str) -> GraphQLObjectType {
    GraphQLObjectType { name: GraphQLName::new(name.to_string()), documentation: None, interfaces: vec![], key_fields: None }
}

fn make_object_with_custom_name(name: &str, custom_name: &str) -> GraphQLObjectType {
    let mut object = make_object(name);
    object.name.custom_name = Some(custom_name.to_string());
    object
}

fn default_types() -> Vec<GraphQLObjectType> {
    vec![make_object("cat"), make_object("bird"), make_object("rat"), make_object("petRock")]
}

fn make_union(
    name: &str,
    custom_name: Option<&str>,
    types: Vec<GraphQLObjectType>,
    documentation: Option<String>,
) -> GraphQLUnionType {
    let mut gql_name = GraphQLName::new(name.to_string());
    gql_name.custom_name = custom_name.map(|s| s.to_string());
    GraphQLUnionType { name: gql_name, documentation, types }
}

fn render_body(template: &UnionTemplate) -> String {
    let recorder = NonFatalErrorRecorder::new();
    template.render_body_template(&recorder)
}

fn classroom_pet(config: ConfigurationContext) -> UnionTemplate {
    UnionTemplate { graphql_union: make_union("ClassroomPet", None, default_types(), None), config }
}

#[test]
fn union_template_test_render_generates_closing_paren() {
    let actual = render_body(&classroom_pet(default_config()));
    assert!(actual.ends_with("\n)"), "actual:\n{}", actual);
}

#[test]
fn union_template_test_render_lowercase_schema_name_capitalized() {
    let actual = render_body(&classroom_pet(config_with_namespace("lowercased")));
    assert!(actual.contains("Lowercased.Objects.Cat.self"), "actual:\n{}", actual);
    assert!(actual.contains("Lowercased.Objects.PetRock.self"), "actual:\n{}", actual);
}

#[test]
fn union_template_test_render_uppercase_schema_name() {
    let actual = render_body(&classroom_pet(config_with_namespace("UPPER")));
    assert!(actual.contains("UPPER.Objects.Cat.self"), "actual:\n{}", actual);
}

#[test]
fn union_template_test_render_capitalized_schema_name() {
    let actual = render_body(&classroom_pet(config_with_namespace("MySchema")));
    assert!(actual.contains("MySchema.Objects.Cat.self"), "actual:\n{}", actual);
}

#[test]
fn test_render_generates_swift_definition() {
    let actual = render_body(&classroom_pet(default_config()));
    assert!(actual.contains("static let ClassroomPet = Union("), "actual:\n{}", actual);
}

#[test]
fn test_render_lowercase_name_generates_uppercased() {
    let template = UnionTemplate {
        graphql_union: make_union("classroomPet", None, default_types(), None),
        config: default_config(),
    };
    let actual = render_body(&template);
    assert!(actual.contains("static let ClassroomPet = Union("), "actual:\n{}", actual);
}

#[test]
fn test_render_generates_name_property() {
    let actual = render_body(&classroom_pet(default_config()));
    assert!(actual.contains("name: \"ClassroomPet\""), "actual:\n{}", actual);
}

#[test]
fn test_render_lowercase_name_property_preserves_case() {
    let template = UnionTemplate {
        graphql_union: make_union("classroomPet", None, default_types(), None),
        config: default_config(),
    };
    let actual = render_body(&template);
    assert!(actual.contains("name: \"classroomPet\""), "actual:\n{}", actual);
}

#[test]
fn test_render_embedded_in_target_has_schema_namespace() {
    let actual = render_body(&classroom_pet(default_config()));
    assert!(actual.contains("TestSchema.Objects.Cat.self"), "actual:\n{}", actual);
    assert!(actual.contains("TestSchema.Objects.PetRock.self"), "actual:\n{}", actual);
}

#[test]
fn test_render_not_embedded_no_schema_namespace() {
    let actual = render_body(&classroom_pet(spm_config()));
    assert!(actual.contains("Objects.Cat.self"), "actual:\n{}", actual);
    assert!(!actual.contains("TestSchema.Objects"), "actual:\n{}", actual);
}

#[test]
fn union_template_test_render_documentation_include() {
    let template = UnionTemplate {
        graphql_union: make_union(
            "ClassroomPet",
            None,
            default_types(),
            Some("This is some great documentation!".to_string()),
        ),
        config: config_with_docs(true),
    };
    let actual = render_body(&template);
    assert!(actual.contains("/// This is some great documentation!"), "actual:\n{}", actual);
}

#[test]
fn union_template_test_render_documentation_exclude() {
    let template = UnionTemplate {
        graphql_union: make_union(
            "ClassroomPet",
            None,
            default_types(),
            Some("This is some great documentation!".to_string()),
        ),
        config: config_with_docs(false),
    };
    let actual = render_body(&template);
    assert!(!actual.contains("///"), "actual:\n{}", actual);
}

#[test]
fn union_template_test_render_reserved_keyword_has_suffixed_type() {
    for keyword in &["Type", "type"] {
        let template = UnionTemplate {
            graphql_union: make_union(keyword, None, default_types(), None),
            config: default_config(),
        };
        let actual = render_body(&template);
        let expected_name = format!("{}_Union", first_uppercased(keyword));
        assert!(
            actual.contains(&format!("static let {} = Union(", expected_name)),
            "keyword={}, actual:\n{}",
            keyword,
            actual
        );
        assert!(actual.contains(&format!("name: \"{}\"", keyword)), "keyword={}, actual:\n{}", keyword, actual);
    }
}

#[test]
fn union_template_test_render_with_custom_names() {
    let custom_obj = make_object_with_custom_name("MyObject", "MyCustomObject");
    let cat = make_object("cat");
    let template = UnionTemplate {
        graphql_union: make_union("MyUnion", Some("MyCustomUnion"), vec![cat, custom_obj], None),
        config: default_config(),
    };
    let actual = render_body(&template);
    assert!(actual.contains("// Renamed from GraphQL schema value: 'MyUnion'"), "actual:\n{}", actual);
    assert!(actual.contains("static let MyCustomUnion = Union("), "actual:\n{}", actual);
    assert!(actual.contains("name: \"MyUnion\""), "actual:\n{}", actual);
    assert!(actual.contains("TestSchema.Objects.Cat.self"), "actual:\n{}", actual);
    assert!(actual.contains("TestSchema.Objects.MyCustomObject.self"), "actual:\n{}", actual);
}

#[test]
fn union_template_exact_bodies() {
    let single = UnionTemplate {
        graphql_union: make_union("Pet", None, vec![make_object("cat")], None),
        config: spm_config(),
    };
    assert_eq!(render_body(&single), "static let Pet = Union(\n  name: \"Pet\",\n  possibleTypes: [Objects.Cat.self]\n)");
    let empty = UnionTemplate { graphql_union: make_union("Pet", None, vec![], None), config: default_config() };
    assert_eq!(render_body(&empty), "static let Pet = Union(\n  name: \"Pet\",\n  possibleTypes: []\n)");
    let two = UnionTemplate {
        graphql_union: make_union("Pet", None, vec![make_object("cat"), make_object("dog")], None),
        config: default_config(),
    };
    assert_eq!(
        render_body(&two),
        "static let Pet = Union(\n  name: \"Pet\",\n  possibleTypes: [\n    TestSchema.Objects.Cat.self,\n    TestSchema.Objects.Dog.self\n  ]\n)"
    );
}
