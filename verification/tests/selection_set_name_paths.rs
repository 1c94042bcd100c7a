use lib::config::{
    ApolloCodegenConfiguration, FileOutput, ModuleType, OperationsFileOutput, OutputOptions, SchemaTypesFileOutput,
    TestMockFileOutput,
};
use lib::graphql::{GraphQLCompositeType, GraphQLName, GraphQLObjectType, GraphQLType, OperationType};
use lib::ir::{
    ComputedSelectionSet, DirectSelections, EntityField, EntityLocation, Field, FieldComponent, FragmentDefinition,
    InclusionCondition, InclusionConditions, MergedSelections, MergedSource, OperationDefinition, ScopeCondition,
    ScopeDescriptor, SourceDefinition, TypeInfo,
};
use lib::pluralizer::{Inflection, Pluralizer};
use lib::templates::rendering_helpers::selection_set_name_generator::{
    compute_generated_selection_set_name, formatted_selection_set_name_for_field_component, NameFormat,
    SelectionSetNameCache, SelectionSetNameGenerator,
};
use lib::templates::selection_set_template::{
    generated_selection_set_name_path, generated_selection_set_names_of_fulfilled_fragments,
    name_for_referenced_selection_set,
};
use lib::templates::ConfigurationContext;

fn object(name: &str) -> GraphQLCompositeType {
    GraphQLCompositeType::Object(GraphQLObjectType {
        name: GraphQLName::new(name.to_string()),
        documentation: None,
        interfaces: vec![],
        key_fields: None,
    })
}

fn entity(name: &str) -> GraphQLType {
    GraphQLType::Entity(object(name))
}

fn list(t: GraphQLType) -> GraphQLType {
    GraphQLType::List(Box::new(t))
}

fn non_null(t: GraphQLType) -> GraphQLType {
    GraphQLType::NonNull(Box::new(t))
}

fn field(name: &str, type_: GraphQLType) -> FieldComponent {
    FieldComponent { name: name.to_string(), type_ }
}

fn typed(name: &str) -> ScopeCondition {
    ScopeCondition::with_type(object(name))
}

fn included_if(variable: &str) -> ScopeCondition {
    ScopeCondition::with_conditions(InclusionConditions::new(InclusionCondition::include_if(variable.to_string())))
}

fn scope(conditions: Vec<ScopeCondition>) -> ScopeDescriptor {
    ScopeDescriptor { scope_path: conditions }
}

fn get_dog() -> SourceDefinition {
    SourceDefinition::Operation(OperationDefinition {
        name: "GetDog".to_string(),
        operation_type: OperationType::Query,
        variables: vec![],
        source: String::new(),
        is_local_cache_mutation: false,
        module_imports: vec![],
    })
}

fn hero_details() -> FragmentDefinition {
    FragmentDefinition {
        name: "heroDetails".to_string(),
        type_: object("Character"),
        source: String::new(),
        is_local_cache_mutation: false,
        module_imports: vec![],
    }
}

fn type_info(source: SourceDefinition, field_path: Option<Vec<FieldComponent>>, scope_path: Vec<ScopeDescriptor>) -> TypeInfo {
    TypeInfo {
        entity_location: EntityLocation { source, field_path },
        scope_path,
        derived_from_merged_sources: vec![],
    }
}

/// `query GetDog { dog { ... on Pet { ... } } }`: the selection set of the inline fragment.
fn dog_as_pet() -> TypeInfo {
    type_info(
        get_dog(),
        Some(vec![field("dog", entity("Dog"))]),
        vec![scope(vec![typed("Query")]), scope(vec![typed("Dog"), typed("Pet")])],
    )
}

fn friends_pluralizer() -> Pluralizer {
    Pluralizer::new(vec![Inflection { plural: "Friends".to_string(), singular: "Friend".to_string() }])
}

fn config() -> ConfigurationContext {
    ConfigurationContext::new(
        ApolloCodegenConfiguration {
            schema_namespace: "TestSchema".to_string(),
            output: FileOutput {
                schema_types: SchemaTypesFileOutput { path: "./gen".to_string(), module_type: ModuleType::SwiftPackageManager { apollo_sdk_dependency: None } },
                operations: OperationsFileOutput::InSchemaModule,
                test_mocks: TestMockFileOutput::NoTestMocks,
            },
            options: OutputOptions::new(),
        },
        None,
    )
}

#[test]
fn pluralizer_uses_the_first_matching_inflection() {
    let pluralizer = Pluralizer::new(vec![
        Inflection { plural: "Mice".to_string(), singular: "Mouse".to_string() },
        Inflection { plural: "Mice".to_string(), singular: "Mices".to_string() },
    ]);
    assert_eq!(pluralizer.singularize("Mice"), "Mouse");
    assert_eq!(pluralizer.singularize("mice"), "mice");
    assert_eq!(Pluralizer::new(vec![]).singularize("Friends"), "Friends");
}

#[test]
fn field_component_names_are_uppercased_and_singular_for_lists() {
    let pluralizer = friends_pluralizer();
    assert_eq!(formatted_selection_set_name_for_field_component(&field("dog", entity("Dog")), &pluralizer), "Dog");
    assert_eq!(
        formatted_selection_set_name_for_field_component(&field("friends", non_null(list(entity("Character")))), &pluralizer),
        "Friend"
    );
    assert_eq!(
        formatted_selection_set_name_for_field_component(&field("friends", entity("Character")), &pluralizer),
        "Friends"
    );
    assert_eq!(
        formatted_selection_set_name_for_field_component(&field("type", entity("Kind")), &pluralizer),
        "Type_SelectionSet"
    );
}

#[test]
fn computed_selection_set_names_come_from_the_last_field_or_the_root() {
    let pluralizer = friends_pluralizer();
    let nested = type_info(
        get_dog(),
        Some(vec![field("dog", entity("Dog")), field("friends", list(entity("Dog")))]),
        vec![scope(vec![typed("Query")]), scope(vec![typed("Dog")]), scope(vec![typed("Dog")])],
    );
    assert_eq!(compute_generated_selection_set_name(&nested, &pluralizer), "Friend");
    let root = type_info(get_dog(), None, vec![scope(vec![typed("Query")])]);
    assert_eq!(compute_generated_selection_set_name(&root, &pluralizer), "Data");
    let fragment_root = type_info(SourceDefinition::NamedFragment(hero_details()), None, vec![scope(vec![typed("Character")])]);
    assert_eq!(compute_generated_selection_set_name(&fragment_root, &pluralizer), "HeroDetails");
}

#[test]
fn generated_names_in_both_formats_and_up_to_an_ending_condition() {
    let pluralizer = friends_pluralizer();
    let info = dog_as_pet();
    assert_eq!(
        SelectionSetNameGenerator::generated_selection_set_name(&info, None, NameFormat::FullyQualified, &pluralizer),
        "GetDogQuery.Data.Dog.AsPet"
    );
    assert_eq!(
        SelectionSetNameGenerator::generated_selection_set_name(&info, None, NameFormat::OmittingRoot, &pluralizer),
        "Dog.AsPet"
    );
    assert_eq!(
        SelectionSetNameGenerator::generated_selection_set_name(&info, Some((1, 0)), NameFormat::FullyQualified, &pluralizer),
        "GetDogQuery.Data.Dog"
    );
    let root = type_info(get_dog(), None, vec![scope(vec![typed("Query")])]);
    assert_eq!(
        SelectionSetNameGenerator::generated_selection_set_name(&root, None, NameFormat::OmittingRoot, &pluralizer),
        ""
    );
}

#[test]
fn names_from_nodes_can_drop_the_first_component_and_restart_the_field_path() {
    let pluralizer = friends_pluralizer();
    let info = dog_as_pet();
    let fields = vec![field("dog", entity("Dog"))];
    assert_eq!(
        SelectionSetNameGenerator::generated_selection_set_name_from_nodes(&info.scope_path, 1, None, &fields, Some(0), true, &pluralizer),
        "AsPet"
    );
    let three = vec![scope(vec![typed("Query")]), scope(vec![typed("Dog")]), scope(vec![typed("Dog")])];
    assert_eq!(
        SelectionSetNameGenerator::generated_selection_set_name_from_nodes(&three, 1, None, &fields, Some(0), false, &pluralizer),
        "Dog.Dog"
    );
    assert_eq!(
        SelectionSetNameGenerator::generated_selection_set_name_from_nodes(&three, 1, Some((2, 0)), &fields, Some(0), false, &pluralizer),
        "Dog.Dog"
    );
    assert_eq!(
        SelectionSetNameGenerator::generated_selection_set_name_from_nodes(&three, 0, None, &fields, Some(0), false, &pluralizer),
        "Dog.Dog"
    );
}

#[test]
fn fulfilled_fragment_names_follow_the_conditions_of_the_last_scope() {
    let pluralizer = friends_pluralizer();
    let info = type_info(
        get_dog(),
        Some(vec![field("dog", entity("Dog"))]),
        vec![scope(vec![typed("Query")]), scope(vec![typed("Dog"), typed("Pet"), included_if("included")])],
    );
    let source = MergedSource { type_info: info, fragment: None };
    assert_eq!(
        generated_selection_set_names_of_fulfilled_fragments(&source, &pluralizer),
        vec![
            "GetDogQuery.Data.Dog".to_string(),
            "GetDogQuery.Data.Dog.AsPet".to_string(),
            "GetDogQuery.Data.Dog.AsPet.IfIncluded".to_string(),
        ]
    );
}

#[test]
fn name_path_of_a_fragment_source_is_named_inside_the_fragment() {
    let pluralizer = friends_pluralizer();
    let info = type_info(
        SourceDefinition::NamedFragment(hero_details()),
        Some(vec![field("friends", list(entity("Character")))]),
        vec![scope(vec![typed("Character"), typed("Droid")]), scope(vec![typed("Character")])],
    );
    let source = MergedSource { type_info: info, fragment: Some(hero_details()) };
    let target = dog_as_pet();
    assert_eq!(generated_selection_set_name_path(&source, &target, &pluralizer), "HeroDetails.AsDroid.Friend");
}

#[test]
fn name_path_walks_back_to_the_shared_root() {
    let pluralizer = friends_pluralizer();
    let source_info = type_info(
        get_dog(),
        Some(vec![field("dog", entity("Dog")), field("owner", entity("Person"))]),
        vec![scope(vec![typed("Query")]), scope(vec![typed("Dog")]), scope(vec![typed("Person")])],
    );
    let target_info = type_info(
        get_dog(),
        Some(vec![field("dog", entity("Dog")), field("owner", entity("Person"))]),
        vec![scope(vec![typed("Query")]), scope(vec![typed("Dog"), included_if("x")]), scope(vec![typed("Person")])],
    );
    let source = MergedSource { type_info: source_info, fragment: None };
    assert_eq!(generated_selection_set_name_path(&source, &target_info, &pluralizer), "IfX.Owner");
}

#[test]
fn name_path_reaching_the_definition_root_is_fully_qualified() {
    let pluralizer = friends_pluralizer();
    let source_info = type_info(
        get_dog(),
        Some(vec![field("dog", entity("Dog"))]),
        vec![scope(vec![typed("Query")]), scope(vec![typed("Dog"), included_if("x")])],
    );
    let conditional_dog = ScopeCondition::new(
        Some(object("Dog")),
        Some(InclusionConditions::new(InclusionCondition::include_if("x".to_string()))),
        None,
    );
    let target_info = type_info(
        get_dog(),
        Some(vec![field("dog", entity("Dog"))]),
        vec![scope(vec![typed("Query")]), scope(vec![conditional_dog])],
    );
    let source = MergedSource { type_info: source_info, fragment: None };
    assert_eq!(generated_selection_set_name_path(&source, &target_info, &pluralizer), "GetDogQuery.Data.Dog.IfX");
}

#[test]
fn referenced_selection_set_name_needs_a_single_merged_source() {
    let config = config();
    let source = MergedSource { type_info: dog_as_pet(), fragment: None };
    let mut info = dog_as_pet();
    info.derived_from_merged_sources = vec![source];
    let no_direct = ComputedSelectionSet {
        parent_type: object("Pet"),
        direct: None,
        merged: MergedSelections { fields: vec![], inline_fragments: vec![], named_fragments: vec![], merged_sources: vec![] },
    };
    assert_eq!(name_for_referenced_selection_set(&no_direct, &info, &config), Some("GetDogQuery.Data.Dog.AsPet".to_string()));
    let with_direct = ComputedSelectionSet {
        parent_type: object("Pet"),
        direct: Some(DirectSelections { fields: vec![], inline_fragments: vec![], named_fragments: vec![] }),
        merged: MergedSelections { fields: vec![], inline_fragments: vec![], named_fragments: vec![], merged_sources: vec![] },
    };
    assert_eq!(name_for_referenced_selection_set(&with_direct, &info, &config), None);
    info.derived_from_merged_sources = vec![];
    assert_eq!(name_for_referenced_selection_set(&no_direct, &info, &config), None);
}

#[test]
fn name_cache_renders_entity_field_types_with_generated_names() {
    let mut config = config();
    config.pluralizer = friends_pluralizer();
    let mut cache = SelectionSetNameCache::new(&config);
    let friends = EntityField {
        underlying_field: Field {
            name: "friends".to_string(),
            alias: None,
            type_: list(non_null(entity("Character"))),
            arguments: vec![],
            selection_set: None,
            documentation: None,
            deprecation_reason: None,
            conditionally_included: false,
        },
        type_info: type_info(
            get_dog(),
            Some(vec![field("friends", list(non_null(entity("Character"))))]),
            vec![scope(vec![typed("Query")]), scope(vec![typed("Character")])],
        ),
    };
    assert_eq!(cache.selection_set_name(&friends.type_info), "Friend");
    assert_eq!(cache.selection_set_type(&friends), "[Friend]?");
}

#[test]
fn qualified_names_are_the_root_name_then_the_unqualified_name() {
    let pluralizer = friends_pluralizer();
    let info = dog_as_pet();
    let unqualified = SelectionSetNameGenerator::generated_selection_set_name(&info, None, NameFormat::OmittingRoot, &pluralizer);
    let qualified = SelectionSetNameGenerator::generated_selection_set_name(&info, None, NameFormat::FullyQualified, &pluralizer);
    assert_eq!(qualified, format!("GetDogQuery.Data.{}", unqualified));
    let root = type_info(get_dog(), None, vec![scope(vec![typed("Query")])]);
    assert_eq!(
        SelectionSetNameGenerator::generated_selection_set_name(&root, None, NameFormat::FullyQualified, &pluralizer),
        "GetDogQuery.Data"
    );
}

#[test]
fn each_fulfilled_name_adds_one_condition_to_the_one_before() {
    let pluralizer = friends_pluralizer();
    let info = type_info(
        get_dog(),
        Some(vec![field("dog", entity("Dog"))]),
        vec![scope(vec![typed("Query")]), scope(vec![typed("Dog"), typed("Pet"), included_if("included")])],
    );
    let names = generated_selection_set_names_of_fulfilled_fragments(&MergedSource { type_info: info, fragment: None }, &pluralizer);
    assert_eq!(names.len(), 3);
    assert_eq!(names[1], format!("{}.AsPet", names[0]));
    assert_eq!(names[2], format!("{}.IfIncluded", names[1]));
}

#[test]
fn test_name_cache_returns_cached_value() {
    let config = config();
    let test_op = SourceDefinition::Operation(OperationDefinition {
        name: "TestOp".to_string(),
        operation_type: OperationType::Query,
        variables: vec![],
        source: "query TestOp { id }".to_string(),
        is_local_cache_mutation: false,
        module_imports: vec![],
    });
    let info = type_info(test_op, None, vec![scope(vec![typed("Query")])]);
    let mut cache = SelectionSetNameCache::new(&config);
    let name1 = cache.selection_set_name(&info);
    let name2 = cache.selection_set_name(&info);
    assert_eq!(name1, name2);
    assert_eq!(name1, "Data");
}

#[test]
fn configured_inflection_rules_name_list_fields() {
    let mut options = OutputOptions::new();
    options.additional_inflection_rules =
        vec![Inflection { plural: "Friends".to_string(), singular: "Friend".to_string() }];
    let config = ConfigurationContext::new(
        ApolloCodegenConfiguration {
            schema_namespace: "TestSchema".to_string(),
            output: FileOutput {
                schema_types: SchemaTypesFileOutput { path: "./gen".to_string(), module_type: ModuleType::SwiftPackageManager { apollo_sdk_dependency: None } },
                operations: OperationsFileOutput::InSchemaModule,
                test_mocks: TestMockFileOutput::NoTestMocks,
            },
            options,
        },
        None,
    );
    let info = type_info(
        get_dog(),
        Some(vec![field("friends", list(entity("Character")))]),
        vec![scope(vec![typed("Query")]), scope(vec![typed("Character")])],
    );
    let mut cache = SelectionSetNameCache::new(&config);
    assert_eq!(cache.selection_set_name(&info), "Friend");
    let unconfigured = self::config();
    let mut plain = SelectionSetNameCache::new(&unconfigured);
    assert_eq!(plain.selection_set_name(&info), "Friends");
}
