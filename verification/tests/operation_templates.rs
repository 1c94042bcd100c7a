use lib::config::{
    AccessModifier, ApolloCodegenConfiguration, FileOutput, ModuleType, OperationDocumentFormat, OperationsFileOutput,
    OutputOptions, SchemaTypesFileOutput, TestMockFileOutput,
};
use lib::graphql::{
    DeferCondition, GraphQLCompositeType, GraphQLInterfaceType, GraphQLName, GraphQLObjectType, GraphQLScalarType,
    GraphQLType, GraphQLUnionType, OperationType,
};
use lib::ir::{
    ComputedSelectionSet, DirectSelections, EntityFieldSelections, EntityLocation, FieldComponent,
    FragmentDefinition, GroupedByInclusionCondition, InlineFragmentSelections, MergedSelections, NamedFragment,
    NamedFragmentSelections, Operation, OperationDefinition, ScopeCondition, ScopeDescriptor, SelectionSetNode,
    SelectionTree, SourceDefinition, TypeInfo,
};
use lib::templates::deferred_fragments_metadata_template::{
    render_deferred_fragment_identifiers, render_deferred_fragments_property, DeferredFragmentsMetadataTemplate,
    DeferredPathTypeInfo,
};
use lib::templates::fragment_template::{is_composite_type_identifiable, is_fragment_identifiable, FragmentTemplate};
use lib::templates::local_cache_mutation_definition_template::LocalCacheMutationDefinitionTemplate;
use lib::templates::operation_definition_template::{rendered_protocol_name, OperationDefinitionTemplate};
use lib::templates::rendering_helpers::operation_template_renderer::VariableDefinition;
use lib::templates::{ConfigurationContext, NonFatalErrorRecorder, TemplateRenderer, TemplateTarget};

fn config_with(operations: OperationsFileOutput, format: OperationDocumentFormat) -> ConfigurationContext {
    let mut options = OutputOptions::new();
    options.operation_document_format = format;
    ConfigurationContext::new(
        ApolloCodegenConfiguration {
            schema_namespace: "TestSchema".to_string(),
            output: FileOutput {
                schema_types: SchemaTypesFileOutput {
                    path: "./gen".to_string(),
                    module_type: ModuleType::SwiftPackageManager { apollo_sdk_dependency: None },
                },
                operations,
                test_mocks: TestMockFileOutput::NoTestMocks,
            },
            options,
        },
        None,
    )
}

fn definition_only() -> OperationDocumentFormat {
    OperationDocumentFormat { definition: true, operation_id: false }
}

fn spm_config() -> ConfigurationContext {
    config_with(OperationsFileOutput::InSchemaModule, definition_only())
}

fn string_type() -> GraphQLType {
    GraphQLType::Scalar(GraphQLScalarType {
        name: GraphQLName::new("String".to_string()),
        documentation: None,
        specified_by_url: None,
    })
}

fn definition(name: &str, operation_type: OperationType, variables: Vec<VariableDefinition>) -> OperationDefinition {
    OperationDefinition {
        name: name.to_string(),
        operation_type,
        variables,
        source: "query GetDog {\n  dog {\n    name\n  }\n}".to_string(),
        is_local_cache_mutation: false,
        module_imports: vec![],
    }
}

fn no_selections() -> DirectSelections {
    DirectSelections { fields: vec![], inline_fragments: vec![], named_fragments: vec![] }
}

/// The definition that names are generated from: only its name, type and marking matter.
fn operation_source(d: &OperationDefinition) -> SourceDefinition {
    SourceDefinition::Operation(OperationDefinition {
        name: d.name.clone(),
        operation_type: d.operation_type,
        variables: vec![],
        source: String::new(),
        is_local_cache_mutation: d.is_local_cache_mutation,
        module_imports: vec![],
    })
}

fn fragment_source(name: &str) -> SourceDefinition {
    SourceDefinition::NamedFragment(FragmentDefinition {
        name: name.to_string(),
        type_: GraphQLCompositeType::Object(object("Dog", None)),
        source: String::new(),
        is_local_cache_mutation: false,
        module_imports: vec![],
    })
}

/// The root selection set of a definition on `parent_name` that selects nothing.
fn empty_root(parent_name: &str, source: SourceDefinition) -> SelectionSetNode {
    SelectionSetNode {
        selection_set: ComputedSelectionSet {
            parent_type: GraphQLCompositeType::Object(object(parent_name, None)),
            direct: Some(no_selections()),
            merged: MergedSelections { fields: vec![], inline_fragments: vec![], named_fragments: vec![], merged_sources: vec![] },
        },
        type_info: TypeInfo {
            entity_location: EntityLocation { source, field_path: None },
            scope_path: vec![ScopeDescriptor {
                scope_path: vec![ScopeCondition::with_type(GraphQLCompositeType::Object(object(parent_name, None)))],
            }],
            derived_from_merged_sources: vec![],
        },
        grouped_direct: Some(GroupedByInclusionCondition { unconditional_selections: no_selections(), inclusion_condition_groups: vec![] }),
        include_typename: false,
        is_entity_root: true,
        is_user_defined: true,
        child_entities: vec![],
        child_inline_fragments: vec![],
    }
}

fn operation(definition: OperationDefinition) -> Operation {
    let root = empty_root("Query", operation_source(&definition));
    Operation {
        definition,
        referenced_fragments: vec![],
        contains_deferred_fragment: false,
        root_selections: None,
        root_selection_set: root,
    }
}

fn render_body<T: TemplateRenderer>(template: &T) -> String {
    template.render_body_template(&NonFatalErrorRecorder::new())
}

fn deferred(path: &[&str], label: &str, selection_set_type: &str) -> DeferredPathTypeInfo {
    DeferredPathTypeInfo {
        path: path.iter().map(|p| p.to_string()).collect(),
        defer_condition: DeferCondition { label: label.to_string(), variable: None },
        selection_set_type: selection_set_type.to_string(),
    }
}

#[test]
fn test_rendered_protocol_name_query() {
    assert_eq!(rendered_protocol_name(&OperationType::Query), "GraphQLQuery");
}

#[test]
fn test_rendered_protocol_name_mutation() {
    assert_eq!(rendered_protocol_name(&OperationType::Mutation), "GraphQLMutation");
}

#[test]
fn test_rendered_protocol_name_subscription() {
    assert_eq!(rendered_protocol_name(&OperationType::Subscription), "GraphQLSubscription");
}

#[test]
fn operation_definition_template_renders_query_without_variables() {
    let template = OperationDefinitionTemplate::new(operation(definition("GetDog", OperationType::Query, vec![])), None, spm_config());
    let expected = "\
public struct GetDogQuery: GraphQLQuery {
  public static let operationName: String = \"GetDog\"
  public static let operationDocument: ApolloAPI.OperationDocument = .init(
    definition: .init(
      #\"query GetDog { dog { name } }\"#
    ))

  public init() {}

  public struct Data: TestSchema.SelectionSet {
    public let __data: DataDict
    public init(_dataDict: DataDict) { __data = _dataDict }

    public static var __parentType: any ApolloAPI.ParentType { TestSchema.Objects.Query }
  }
}
";
    assert_eq!(render_body(&template), expected);
    assert!(matches!(template.target(), TemplateTarget::OperationFile { module_imports: Some(_) }));
}

#[test]
fn operation_definition_template_renders_variables_fragments_and_identifier() {
    let vars = vec![VariableDefinition {
        name: "id".to_string(),
        type_: GraphQLType::NonNull(Box::new(string_type())),
        default_value: None,
    }];
    let mut op = operation(definition("dogQuery", OperationType::Query, vars));
    op.referenced_fragments = vec!["dogDetails".to_string(), "schema".to_string()];
    let config = config_with(
        OperationsFileOutput::Absolute { path: "ops".to_string(), access_modifier: AccessModifier::Internal },
        OperationDocumentFormat { definition: true, operation_id: true },
    );
    let template = OperationDefinitionTemplate::new(op, Some("abc123".to_string()), config);
    let expected = "\
struct DogQuery: GraphQLQuery {
  static let operationName: String = \"dogQuery\"
  static let operationDocument: ApolloAPI.OperationDocument = .init(
    operationIdentifier: \"abc123\",
    definition: .init(
      #\"query GetDog { dog { name } }\"#,
      fragments: [DogDetails.self, Schema_Fragment.self]
    ))

  public var id: String

  public init(id: String) {
    self.id = id
  }

  @_spi(Unsafe) public var __variables: Variables? { [\"id\": id] }

  struct Data: TestSchema.SelectionSet {
    let __data: DataDict
    init(_dataDict: DataDict) { __data = _dataDict }

    static var __parentType: any ApolloAPI.ParentType { TestSchema.Objects.Query }
  }
}
";
    assert_eq!(render_body(&template), expected);
}

#[test]
fn operation_definition_template_identifier_only() {
    let config = config_with(
        OperationsFileOutput::InSchemaModule,
        OperationDocumentFormat { definition: false, operation_id: true },
    );
    let template = OperationDefinitionTemplate::new(
        operation(definition("AddDog", OperationType::Mutation, vec![])),
        Some("id-1".to_string()),
        config,
    );
    let actual = render_body(&template);
    assert!(actual.starts_with("public struct AddDogMutation: GraphQLMutation {\n"));
    assert!(actual.contains(
        "  public static let operationDocument: ApolloAPI.OperationDocument = .init(\n    operationIdentifier: \"id-1\"\n  )\n"
    ));
    assert!(!actual.contains("definition: .init("));
}

/// The selections `dog { ... on Dog @defer(label: "details") { ... } }` of the query
/// `GetDog`.
fn deferred_dog_selections() -> SelectionTree {
    let dog = GraphQLCompositeType::Object(object("Dog", None));
    let details = TypeInfo {
        entity_location: EntityLocation {
            source: SourceDefinition::Operation(definition("GetDog", OperationType::Query, vec![])),
            field_path: Some(vec![FieldComponent { name: "dog".to_string(), type_: GraphQLType::Entity(dog) }]),
        },
        scope_path: vec![
            ScopeDescriptor {
                scope_path: vec![ScopeCondition::with_type(GraphQLCompositeType::Object(object("Query", None)))],
            },
            ScopeDescriptor {
                scope_path: vec![
                    ScopeCondition::with_type(GraphQLCompositeType::Object(object("Dog", None))),
                    ScopeCondition::new(
                        None,
                        None,
                        Some(DeferCondition { label: "details".to_string(), variable: None }),
                    ),
                ],
            },
        ],
        derived_from_merged_sources: vec![],
    };
    SelectionTree {
        entity_fields: vec![EntityFieldSelections {
            name: "dog".to_string(),
            alias: None,
            selections: Some(SelectionTree {
                entity_fields: vec![],
                inline_fragments: vec![InlineFragmentSelections { type_info: details, selections: None }],
                named_fragments: vec![],
            }),
        }],
        inline_fragments: vec![],
        named_fragments: vec![],
    }
}

#[test]
fn operation_definition_template_appends_deferred_metadata() {
    let mut op = operation(definition("GetDog", OperationType::Query, vec![]));
    op.contains_deferred_fragment = true;
    op.root_selections = Some(deferred_dog_selections());
    let template = OperationDefinitionTemplate::new(op, None, spm_config());
    let actual = render_body(&template);
    let metadata = "}\n\n// MARK: Deferred Fragment Metadata\n\npublic extension GetDogQuery {\n  enum DeferredFragmentIdentifiers {\n    static let details = DeferredFragmentIdentifier(label: \"details\", fieldPath: [\"dog\"])\n  }\n\n  static var deferredFragments: [DeferredFragmentIdentifier: any ApolloAPI.SelectionSet.Type]? {[\n    DeferredFragmentIdentifiers.details: Data.Dog.Details.self,\n  ]}\n}\n";
    assert!(actual.ends_with(metadata), "got:\n{}", actual);
}

#[test]
fn deferred_metadata_walks_fields_then_inline_then_named_fragments() {
    let mut op = operation(definition("GetDog", OperationType::Query, vec![]));
    let mut root = deferred_dog_selections();
    root.entity_fields[0].alias = Some("pet".to_string());
    root.named_fragments = vec![
        NamedFragmentSelections {
            fragment_name: "dogFragment".to_string(),
            defer_condition: Some(DeferCondition { label: "later".to_string(), variable: Some("when".to_string()) }),
            selections: None,
        },
        NamedFragmentSelections { fragment_name: "plain".to_string(), defer_condition: None, selections: None },
    ];
    op.root_selections = Some(root);
    let config = spm_config();
    let template = DeferredFragmentsMetadataTemplate {
        operation: &op,
        config: &config,
        render_access_control: String::new(),
    };
    let expected = "\n// MARK: Deferred Fragment Metadata\n\nextension GetDogQuery {\n  enum DeferredFragmentIdentifiers {\n    static let details = DeferredFragmentIdentifier(label: \"details\", fieldPath: [\"pet\"])\n    static let later = DeferredFragmentIdentifier(label: \"later\", fieldPath: [])\n  }\n\n  static var deferredFragments: [DeferredFragmentIdentifier: any ApolloAPI.SelectionSet.Type]? {[\n    DeferredFragmentIdentifiers.details: Data.Dog.Details.self,\n    DeferredFragmentIdentifiers.later: DogFragment.self,\n  ]}\n}";
    assert_eq!(template.render(), expected);
}

#[test]
fn test_deferred_path_type_info_key() {
    let info = deferred(&["query", "animal"], "deferredLabel", "Data.AsAnimal");
    let key = info.path_defer_condition_key();
    assert_eq!(key.0, vec!["query".to_string(), "animal".to_string()]);
    assert_eq!(key.1, "deferredLabel");
}

#[test]
fn deferred_identifiers_are_declared_once_per_path_and_label() {
    let infos = vec![
        deferred(&["a"], "one", "Data.A.One"),
        deferred(&["a"], "one", "Data.A.AsB.One"),
        deferred(&["b"], "one", "Data.B.One"),
        deferred(&[], "two", "Data.Two"),
    ];
    assert_eq!(
        render_deferred_fragment_identifiers(&infos),
        "enum DeferredFragmentIdentifiers {\n  static let one = DeferredFragmentIdentifier(label: \"one\", fieldPath: [\"a\"])\n  static let one = DeferredFragmentIdentifier(label: \"one\", fieldPath: [\"b\"])\n  static let two = DeferredFragmentIdentifier(label: \"two\", fieldPath: [])\n}\n"
    );
    assert_eq!(
        render_deferred_fragments_property(&infos),
        "static var deferredFragments: [DeferredFragmentIdentifier: any ApolloAPI.SelectionSet.Type]? {[\n  DeferredFragmentIdentifiers.one: Data.A.One.self,\n  DeferredFragmentIdentifiers.one: Data.A.AsB.One.self,\n  DeferredFragmentIdentifiers.one: Data.B.One.self,\n  DeferredFragmentIdentifiers.two: Data.Two.self,\n]}\n"
    );
}

#[test]
fn deferred_metadata_is_empty_without_deferred_fragments() {
    let op = operation(definition("GetDog", OperationType::Query, vec![]));
    let config = spm_config();
    let template = DeferredFragmentsMetadataTemplate {
        operation: &op,
        config: &config,
        render_access_control: "public ".to_string(),
    };
    assert_eq!(template.render(), "");
}

#[test]
fn local_cache_mutation_template_renders_mutable_selection_set() {
    let vars = vec![VariableDefinition { name: "id".to_string(), type_: string_type(), default_value: None }];
    let mut def = definition("DogCache", OperationType::Query, vars);
    def.is_local_cache_mutation = true;
    let mut op = operation(def);
    op.root_selection_set = empty_root("Query", operation_source(&op.definition));
    let template = LocalCacheMutationDefinitionTemplate::new(op, spm_config());
    let expected = "\
public struct DogCacheLocalCacheMutation: LocalCacheMutation {
  public static let operationType: GraphQLOperationType = .query

  public var id: GraphQLNullable<String>

  public init(id: GraphQLNullable<String>) {
    self.id = id
  }

  @_spi(Unsafe) public var __variables: GraphQLOperation.Variables? { [\"id\": id] }

  public struct Data: TestSchema.MutableSelectionSet {
    public var __data: DataDict
    public init(_dataDict: DataDict) { __data = _dataDict }

    public static var __parentType: any ApolloAPI.ParentType { TestSchema.Objects.Query }

    public init(
    ) {
      self.init(_dataDict: DataDict(
        data: [
          \"__typename\": TestSchema.Objects.Query.typename,
        ],
        fulfilledFragments: [
          ObjectIdentifier(DogCacheLocalCacheMutation.Data.self)
        ]
      ))
    }
  }
}
";
    assert_eq!(render_body(&template), expected);
}

fn fragment(name: &str, format: OperationDocumentFormat, is_lcm: bool) -> FragmentTemplate {
    FragmentTemplate::new(
        NamedFragment {
            definition: FragmentDefinition {
                name: name.to_string(),
                type_: GraphQLCompositeType::Object(object("Dog", None)),
                source: "fragment dogDetails on Dog {\n  name\n}".to_string(),
                is_local_cache_mutation: is_lcm,
                module_imports: vec!["MyModule".to_string()],
            },
            root_selection_set: empty_root("Dog", fragment_source(name)),
        },
        config_with(OperationsFileOutput::InSchemaModule, format),
    )
}

#[test]
fn fragment_template_renders_definition_and_selection_set() {
    let template = fragment("dogDetails", definition_only(), false);
    let expected = "\
public struct DogDetails: TestSchema.SelectionSet, Fragment {
  public static var fragmentDefinition: StaticString {
    #\"fragment dogDetails on Dog { name }\"#
  }

  public let __data: DataDict
  public init(_dataDict: DataDict) { __data = _dataDict }

  public static var __parentType: any ApolloAPI.ParentType { TestSchema.Objects.Dog }
}
";
    assert_eq!(render_body(&template), expected);
    match template.target() {
        TemplateTarget::OperationFile { module_imports: Some(m) } => assert_eq!(m, vec!["MyModule".to_string()]),
        _ => panic!("fragments are operation files"),
    }
}

#[test]
fn fragment_template_without_definition_and_mutable() {
    let template = fragment("schema", OperationDocumentFormat { definition: false, operation_id: true }, true);
    let expected = "\
public struct Schema_Fragment: TestSchema.MutableSelectionSet, Fragment {
  public var __data: DataDict
  public init(_dataDict: DataDict) { __data = _dataDict }

  public static var __parentType: any ApolloAPI.ParentType { TestSchema.Objects.Dog }

  public init(
  ) {
    self.init(_dataDict: DataDict(
      data: [
        \"__typename\": TestSchema.Objects.Dog.typename,
      ],
      fulfilledFragments: [
        ObjectIdentifier(Schema.self)
      ]
    ))
  }
}
";
    assert_eq!(render_body(&template), expected);
}

fn object(name: &str, key_fields: Option<Vec<&str>>) -> GraphQLObjectType {
    GraphQLObjectType {
        name: GraphQLName::new(name.to_string()),
        documentation: None,
        interfaces: vec![],
        key_fields: key_fields.map(|k| k.iter().map(|s| s.to_string()).collect()),
    }
}

#[test]
fn test_is_composite_type_identifiable_object_with_id() {
    let obj = GraphQLCompositeType::Object(object("User", Some(vec!["id"])));
    assert!(is_composite_type_identifiable(&obj));
}

#[test]
fn test_is_composite_type_identifiable_object_without_id() {
    let obj = GraphQLCompositeType::Object(object("User", Some(vec!["name"])));
    assert!(!is_composite_type_identifiable(&obj));
}

#[test]
fn test_is_composite_type_identifiable_object_no_key_fields() {
    let obj = GraphQLCompositeType::Object(object("User", None));
    assert!(!is_composite_type_identifiable(&obj));
}

#[test]
fn test_is_composite_type_identifiable_interface_with_id() {
    let iface = GraphQLCompositeType::Interface(GraphQLInterfaceType {
        name: GraphQLName::new("Node".to_string()),
        documentation: None,
        key_fields: Some(vec!["id".to_string()]),
        implementing_objects: vec![],
    });
    assert!(is_composite_type_identifiable(&iface));
}

#[test]
fn test_is_composite_type_identifiable_union_always_false() {
    let union = GraphQLCompositeType::Union(GraphQLUnionType {
        name: GraphQLName::new("Animal".to_string()),
        documentation: None,
        types: vec![],
    });
    assert!(!is_composite_type_identifiable(&union));
}

#[test]
fn composite_type_with_id_and_more_key_fields_is_not_identifiable() {
    let obj = GraphQLCompositeType::Object(object("User", Some(vec!["id", "name"])));
    assert!(!is_composite_type_identifiable(&obj));
}

fn user_fragment(key_fields: Option<Vec<&str>>, field_names: &[&str]) -> NamedFragment {
    let mut root = empty_root("User", fragment_source("userDetails"));
    root.selection_set.direct = Some(DirectSelections {
        fields: field_names
            .iter()
            .map(|n| lib::ir::Field {
                name: n.to_string(),
                alias: None,
                type_: string_type(),
                arguments: vec![],
                selection_set: None,
                documentation: None,
                deprecation_reason: None,
                conditionally_included: false,
            })
            .collect(),
        inline_fragments: vec![],
        named_fragments: vec![],
    });
    NamedFragment {
        definition: FragmentDefinition {
            name: "userDetails".to_string(),
            type_: GraphQLCompositeType::Object(object("User", key_fields)),
            source: String::new(),
            is_local_cache_mutation: false,
            module_imports: vec![],
        },
        root_selection_set: root,
    }
}

#[test]
fn fragments_are_identifiable_with_an_id_field_on_an_identifiable_type() {
    assert!(is_fragment_identifiable(&user_fragment(Some(vec!["id"]), &["name", "id"])));
    assert!(!is_fragment_identifiable(&user_fragment(Some(vec!["id"]), &["name"])));
    assert!(!is_fragment_identifiable(&user_fragment(Some(vec!["name"]), &["id"])));
    assert!(!is_fragment_identifiable(&user_fragment(None, &["id"])));
}
