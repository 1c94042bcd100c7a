use lib::config::{
    ApolloCodegenConfiguration, Composition, FileOutput, ModuleType, OperationsFileOutput, OutputOptions,
    SchemaTypesFileOutput, TestMockFileOutput,
};
use lib::graphql::{DeferCondition, GraphQLCompositeType, GraphQLInterfaceType, GraphQLName, GraphQLObjectType, GraphQLScalarType, GraphQLType};
use lib::graphql::OperationType;
use lib::ir::{
    ComputedSelectionSet, DirectSelections, EntityLocation, Field, FieldComponent, MergedSelections, NamedFragmentSpread,
    OperationDefinition, ScopeCondition, ScopeDescriptor, SourceDefinition, TypeInfo,
};
use lib::templates::selection_set_accessors::{
    field_accessor_template, field_accessors_template, fragment_accessors_template, fragment_initializer_template,
    initializer_data_dict_field_template, initializer_fulfilled_fragments, initializer_parameter_template,
    initializer_template, inline_fragment_accessor_template, inline_fragment_accessors_template,
    named_fragment_accessor_template, type_name_for_field,
};
use lib::templates::selection_set_template::contains_deferred_named_fragment;
use lib::templates::ConfigurationContext;

fn config_with(docs: Composition, warnings: Composition) -> ConfigurationContext {
    let mut options = OutputOptions::new();
    options.schema_documentation = docs;
    options.warnings_on_deprecated_usage = warnings;
    ConfigurationContext::new(
        ApolloCodegenConfiguration {
            schema_namespace: "TestSchema".to_string(),
            output: FileOutput {
                schema_types: SchemaTypesFileOutput {
                    path: "./gen".to_string(),
                    module_type: ModuleType::SwiftPackageManager { apollo_sdk_dependency: None },
                },
                operations: OperationsFileOutput::InSchemaModule,
                test_mocks: TestMockFileOutput::NoTestMocks,
            },
            options,
        },
        None,
    )
}

fn config() -> ConfigurationContext {
    config_with(Composition::Include, Composition::Include)
}

fn object(name: &str) -> GraphQLObjectType {
    GraphQLObjectType { name: GraphQLName::new(name.to_string()), documentation: None, interfaces: vec![], key_fields: None }
}

fn string_type() -> GraphQLType {
    GraphQLType::Scalar(GraphQLScalarType { name: GraphQLName::new("String".to_string()), documentation: None, specified_by_url: None })
}

fn non_null(t: GraphQLType) -> GraphQLType {
    GraphQLType::NonNull(Box::new(t))
}

fn field(name: &str, type_: GraphQLType) -> Field {
    Field {
        name: name.to_string(),
        alias: None,
        type_,
        arguments: vec![],
        selection_set: None,
        documentation: None,
        deprecation_reason: None,
        conditionally_included: false,
    }
}

/// A field of type `Dog!` selected at the root of a query; its selection set is named after
/// the field.
fn entity_field(name: &str) -> Field {
    let dog = || non_null(GraphQLType::Entity(GraphQLCompositeType::Object(object("Dog"))));
    let mut f = field(name, dog());
    f.selection_set = Some(TypeInfo {
        entity_location: EntityLocation {
            source: SourceDefinition::Operation(OperationDefinition {
                name: "GetDog".to_string(),
                operation_type: OperationType::Query,
                variables: vec![],
                source: String::new(),
                is_local_cache_mutation: false,
                module_imports: vec![],
            }),
            field_path: Some(vec![FieldComponent { name: name.to_string(), type_: dog() }]),
        },
        scope_path: vec![
            ScopeDescriptor { scope_path: vec![ScopeCondition::with_type(GraphQLCompositeType::Object(object("Query")))] },
            ScopeDescriptor { scope_path: vec![ScopeCondition::with_type(GraphQLCompositeType::Object(object("Dog")))] },
        ],
        derived_from_merged_sources: vec![],
    });
    f
}

fn spread(name: &str, deferred: Option<&str>, conditional: bool) -> NamedFragmentSpread {
    NamedFragmentSpread {
        fragment_name: name.to_string(),
        defer_condition: deferred.map(|l| DeferCondition { label: l.to_string(), variable: None }),
        conditionally_included: conditional,
    }
}

fn selections(fields: Vec<Field>, inline: Vec<ScopeCondition>, named: Vec<NamedFragmentSpread>) -> DirectSelections {
    DirectSelections { fields, inline_fragments: inline, named_fragments: named }
}

fn merged(fields: Vec<Field>, inline: Vec<ScopeCondition>, named: Vec<NamedFragmentSpread>) -> MergedSelections {
    MergedSelections { fields, inline_fragments: inline, named_fragments: named, merged_sources: vec![] }
}

fn deferred_inline(label: &str) -> ScopeCondition {
    ScopeCondition::new(None, None, Some(DeferCondition { label: label.to_string(), variable: None }))
}

#[test]
fn test_contains_deferred_named_fragment_empty() {
    let spreads: Vec<NamedFragmentSpread> = Vec::new();
    assert!(!contains_deferred_named_fragment(&spreads));
}

#[test]
fn field_accessor_with_documentation_and_deprecation() {
    let mut f = field("name", non_null(string_type()));
    f.documentation = Some("The name".to_string());
    f.deprecation_reason = Some("old".to_string());
    assert_eq!(
        field_accessor_template(&f, "public ", false, &config()),
        "/// The name\n@available(*, deprecated, message: \"old\")\npublic var name: String { __data[\"name\"] }"
    );
    assert_eq!(
        field_accessor_template(&f, "public ", false, &config_with(Composition::Exclude, Composition::Exclude)),
        "public var name: String { __data[\"name\"] }"
    );
}

#[test]
fn field_accessor_mutable_aliased_and_conditional() {
    let mut f = field("name", non_null(string_type()));
    f.alias = Some("class".to_string());
    f.conditionally_included = true;
    assert_eq!(
        field_accessor_template(&f, "", true, &config()),
        "var `class`: String? {\n  get { __data[\"class\"] }\n  set { __data[\"class\"] = newValue }\n}"
    );
    assert_eq!(type_name_for_field(&f, false, &config()), "String");
    let nullable = field("nick", string_type());
    assert_eq!(type_name_for_field(&nullable, true, &config()), "String?");
    assert_eq!(type_name_for_field(&entity_field("dog"), false, &config()), "Dog");
}

#[test]
fn field_accessors_direct_then_merged() {
    let set = ComputedSelectionSet {
        parent_type: GraphQLCompositeType::Object(object("Query")),
        direct: Some(selections(vec![field("a", non_null(string_type()))], vec![], vec![])),
        merged: merged(vec![field("b", string_type())], vec![], vec![]),
    };
    assert_eq!(
        field_accessors_template(&set, "public ", false, &config()),
        "public var a: String { __data[\"a\"] }\npublic var b: String? { __data[\"b\"] }"
    );
}

#[test]
fn inline_fragment_accessors_skip_deferred() {
    let dog = ScopeCondition::with_type(GraphQLCompositeType::Object(object("Dog")));
    assert_eq!(inline_fragment_accessor_template(&dog, "public "), "public var asDog: AsDog? { _asInlineFragment() }");
    assert_eq!(inline_fragment_accessor_template(&deferred_inline("x"), "public "), "");
    let cat = ScopeCondition::with_type(GraphQLCompositeType::Interface(GraphQLInterfaceType {
        name: GraphQLName::new("Cat".to_string()),
        documentation: None,
        key_fields: None,
        implementing_objects: vec![],
    }));
    let all = vec![dog, deferred_inline("x"), cat];
    assert_eq!(
        inline_fragment_accessors_template(&all, ""),
        "var asDog: AsDog? { _asInlineFragment() }\nvar asCat: AsCat? { _asInlineFragment() }"
    );
}

#[test]
fn named_fragment_accessors_plain_optional_mutable_and_deferred() {
    assert_eq!(named_fragment_accessor_template(&spread("DogDetails", None, false), "public ", false), "public var dogDetails: DogDetails { _toFragment() }");
    assert_eq!(named_fragment_accessor_template(&spread("DogDetails", None, true), "public ", false), "public var dogDetails: DogDetails? { _toFragment() }");
    assert_eq!(
        named_fragment_accessor_template(&spread("DogDetails", None, false), "", true),
        "var dogDetails: DogDetails {\n  get { _toFragment() }\n  _modify { var f = dogDetails; yield &f; __data = f.__data }\n}"
    );
    assert_eq!(
        named_fragment_accessor_template(&spread("DogDetails", None, true), "", true),
        "var dogDetails: DogDetails? {\n  get { _toFragment() }\n  _modify { var f = dogDetails; yield &f; if let newData = f?.__data { __data = newData } }\n}"
    );
    assert_eq!(
        named_fragment_accessor_template(&spread("DogDetails", Some("later"), false), "public ", false),
        "@Deferred public var dogDetails: DogDetails?"
    );
}

#[test]
fn fragment_container_absent_without_fragments() {
    let set = ComputedSelectionSet {
        parent_type: GraphQLCompositeType::Object(object("Dog")),
        direct: Some(selections(vec![field("a", string_type())], vec![], vec![])),
        merged: merged(vec![], vec![], vec![]),
    };
    assert_eq!(fragment_accessors_template(&set, "public ", false), "");
}

#[test]
fn fragment_container_with_deferred_fragments() {
    let set = ComputedSelectionSet {
        parent_type: GraphQLCompositeType::Object(object("Dog")),
        direct: Some(selections(vec![], vec![deferred_inline("details_part")], vec![spread("DogDetails", None, false)])),
        merged: merged(vec![], vec![], vec![spread("AnimalDetails", Some("animal"), false)]),
    };
    assert_eq!(
        fragment_initializer_template(&set, "public "),
        "public init(_dataDict: DataDict) {\n  __data = _dataDict\n  _details_part = Deferred(_dataDict: _dataDict)\n_animalDetails = Deferred(_dataDict: _dataDict)\n}"
    );
    let expected = "\
public struct Fragments: FragmentContainer {
  public let __data: DataDict
  public init(_dataDict: DataDict) {
    __data = _dataDict
    _details_part = Deferred(_dataDict: _dataDict)
  _animalDetails = Deferred(_dataDict: _dataDict)
  }

  public var dogDetails: DogDetails { _toFragment() }
  @Deferred public var animalDetails: AnimalDetails?
  @Deferred public var details_part: DetailsPart?
}";
    assert_eq!(fragment_accessors_template(&set, "public ", false), expected);
}

#[test]
fn fragment_container_without_deferred_has_one_line_initializer() {
    let set = ComputedSelectionSet {
        parent_type: GraphQLCompositeType::Object(object("Dog")),
        direct: None,
        merged: merged(vec![], vec![], vec![spread("DogDetails", None, false)]),
    };
    assert_eq!(
        fragment_accessors_template(&set, "", false),
        "struct Fragments: FragmentContainer {\n  let __data: DataDict\n  init(_dataDict: DataDict) { __data = _dataDict }\n\n  var dogDetails: DogDetails { _toFragment() }\n}"
    );
}

#[test]
fn initializer_of_object_and_abstract_selection_sets() {
    let c = config();
    let mut conditional = field("nick", non_null(string_type()));
    conditional.conditionally_included = true;
    let object_set = ComputedSelectionSet {
        parent_type: GraphQLCompositeType::Object(object("dog")),
        direct: Some(selections(vec![field("name", non_null(string_type())), entity_field("owner")], vec![], vec![])),
        merged: merged(vec![conditional], vec![], vec![]),
    };
    let names = vec!["Q.Data.Dog".to_string(), "Q.Data".to_string(), "Q.Data.Dog".to_string()];
    let expected = "\
public init(
  name: String,
  owner: Owner,
  nick: String? = nil
) {
  self.init(_dataDict: DataDict(
    data: [
      \"__typename\": TestSchema.Objects.Dog.typename,
      \"name\": name,
      \"owner\": owner._fieldData,
      \"nick\": nick,
    ],
    fulfilledFragments: [
      ObjectIdentifier(Q.Data.Dog.self),
      ObjectIdentifier(Q.Data.self)
    ]
  ))
}";
    assert_eq!(initializer_template(&object_set, "public ", &c, &names), expected);
    let interface_set = ComputedSelectionSet {
        parent_type: GraphQLCompositeType::Interface(GraphQLInterfaceType {
            name: GraphQLName::new("Animal".to_string()),
            documentation: None,
            key_fields: None,
            implementing_objects: vec![],
        }),
        direct: None,
        merged: merged(vec![], vec![], vec![]),
    };
    assert_eq!(
        initializer_template(&interface_set, "", &c, &["A".to_string()]),
        "init(\n  __typename: String\n) {\n  self.init(_dataDict: DataDict(\n    data: [\n      \"__typename\": __typename,\n    ],\n    fulfilledFragments: [\n      ObjectIdentifier(A.self)\n    ]\n  ))\n}"
    );
    let empty_object = ComputedSelectionSet {
        parent_type: GraphQLCompositeType::Object(object("Dog")),
        direct: None,
        merged: merged(vec![], vec![], vec![]),
    };
    assert!(initializer_template(&empty_object, "", &c, &[]).starts_with("init(\n) {\n"));
}

#[test]
fn initializer_pieces_escape_reserved_names() {
    let c = config();
    let f = field("class", string_type());
    assert_eq!(initializer_parameter_template(&f, &c), "`class` _class: String? = nil");
    assert_eq!(initializer_data_dict_field_template(&f, &c.config), "\"class\": _class,");
    assert_eq!(initializer_fulfilled_fragments(&["X".to_string(), "X".to_string()]), "[\n      ObjectIdentifier(X.self)\n    ]");
}
