//! The parts of the code generation configuration that rendering reads, and the sets of
//! Swift names that need escaping.
use vstd::prelude::*;

use crate::pluralizer::Inflection;
use crate::text::{str_eq, views};

verus! {

/// A Swift access level for generated declarations.
#[derive(Debug, Clone, Copy, PartialEq, Eq, Structural)]
pub enum AccessModifier {
    Public,
    Internal,
}

/// Whether a kind of generated content is included or left out.
#[derive(Debug, Clone, Copy, PartialEq, Eq, Structural)]
pub enum Composition {
    Include,
    Exclude,
}

/// How field accessor names are cased.
#[derive(Debug, Clone, Copy, PartialEq, Eq, Structural)]
pub enum FieldAccessors {
    /// Keep the schema's casing (the first letter is still lowercased).
    Idiomatic,
    /// Convert names to `camelCase`.
    CamelCase,
}

/// How enum case names are converted from schema value names.
#[derive(Debug, Clone, Copy, PartialEq, Eq, Structural)]
pub enum EnumCases {
    /// Keep the schema's value names.
    Unchanged,
    /// Convert value names to `camelCase`.
    CamelCase,
}

/// How input object field names are converted from schema field names.
#[derive(Debug, Clone, Copy, PartialEq, Eq, Structural)]
pub enum InputObjects {
    /// Keep the schema's field names.
    Unchanged,
    /// Convert field names to `camelCase`.
    CamelCase,
}

/// Name conversion strategies.
#[derive(Debug, Clone, Copy, PartialEq, Eq, Structural)]
pub struct ConversionStrategies {
    pub enum_cases: EnumCases,
    pub field_accessors: FieldAccessors,
    pub input_objects: InputObjects,
}

/// What the operation document of a generated operation holds: the operation's definition,
/// its persisted query identifier, or both.
/// Which selections a selection set takes in from elsewhere: those of its ancestors, of
/// its siblings and of the named fragments it spreads.
#[derive(Debug, Clone, Copy, PartialEq, Eq, Structural)]
pub struct FieldMerging {
    pub ancestors: bool,
    pub siblings: bool,
    pub named_fragments: bool,
}

impl FieldMerging {
    /// Every kind of merging.
    pub fn all() -> (r: Self)
        ensures
            r.ancestors && r.siblings && r.named_fragments,
    {
        FieldMerging { ancestors: true, siblings: true, named_fragments: true }
    }

    /// No merging.
    pub fn empty() -> (r: Self)
        ensures
            !r.ancestors && !r.siblings && !r.named_fragments,
    {
        FieldMerging { ancestors: false, siblings: false, named_fragments: false }
    }
}

#[derive(Debug, Clone, Copy, PartialEq, Eq, Structural)]
pub struct OperationDocumentFormat {
    pub definition: bool,
    pub operation_id: bool,
}

/// Rendering options.
#[derive(Debug, Clone)]
pub struct OutputOptions {
    /// Whether schema documentation is rendered as `///` comments.
    pub schema_documentation: Composition,
    /// Whether deprecated schema elements are annotated with warnings.
    pub warnings_on_deprecated_usage: Composition,
    /// Whether deprecated enum cases are generated.
    pub deprecated_enum_cases: Composition,
    pub conversion_strategies: ConversionStrategies,
    /// Whether schema types are declared `nonisolated`.
    pub mark_types_nonisolated: bool,
    pub operation_document_format: OperationDocumentFormat,
    /// Which generated selection sets get initializers.
    pub selection_set_initializers: SelectionSetInitializers,
    /// The singular forms that selection set names of list fields are built from.
    pub additional_inflection_rules: Vec<Inflection>,
}

impl OutputOptions {
    /// The default options: documentation, deprecation warnings and deprecated enum cases
    /// included, `camelCase` enum cases and input object fields, idiomatic field accessor
    /// names, no `nonisolated` declarations, operation documents that hold the definition,
    /// no selection set initializers and no additional inflection rules.
    pub fn new() -> (r: Self)
        ensures
            r.schema_documentation == Composition::Include,
            r.warnings_on_deprecated_usage == Composition::Include,
            r.deprecated_enum_cases == Composition::Include,
            r.conversion_strategies.enum_cases == EnumCases::CamelCase,
            r.conversion_strategies.field_accessors == FieldAccessors::Idiomatic,
            r.conversion_strategies.input_objects == InputObjects::CamelCase,
            !r.mark_types_nonisolated,
            r.operation_document_format == (OperationDocumentFormat { definition: true, operation_id: false }),
            !r.selection_set_initializers.operations,
            !r.selection_set_initializers.named_fragments,
            r.selection_set_initializers.definitions@.len() == 0,
            r.additional_inflection_rules@.len() == 0,
    {
        OutputOptions {
            schema_documentation: Composition::Include,
            warnings_on_deprecated_usage: Composition::Include,
            deprecated_enum_cases: Composition::Include,
            conversion_strategies: ConversionStrategies {
                enum_cases: EnumCases::CamelCase,
                field_accessors: FieldAccessors::Idiomatic,
                input_objects: InputObjects::CamelCase,
            },
            mark_types_nonisolated: false,
            operation_document_format: OperationDocumentFormat { definition: true, operation_id: false },
            selection_set_initializers: SelectionSetInitializers::empty(),
            additional_inflection_rules: Vec::new(),
        }
    }
}

/// Which generated selection sets get initializers: those of all operations, of all named
/// fragments, and of the definitions named in `definitions`.
#[derive(Debug, Clone)]
pub struct SelectionSetInitializers {
    pub operations: bool,
    pub named_fragments: bool,
    pub definitions: Vec<String>,
}

impl SelectionSetInitializers {
    /// No initializers for any selection set.
    pub fn empty() -> (r: Self)
        ensures
            !r.operations,
            !r.named_fragments,
            r.definitions@.len() == 0,
    {
        SelectionSetInitializers { operations: false, named_fragments: false, definitions: Vec::new() }
    }

    /// Whether `name` is one of the definitions named in the set.
    pub fn contains_definition(&self, name: &str) -> (r: bool)
        ensures
            r == views(self.definitions@).contains(name@),
    {
        let mut i: usize = 0;
        while i < self.definitions.len()
            invariant
                i <= self.definitions@.len(),
                forall|j: int| 0 <= j < i ==> self.definitions@[j]@ != name@,
            decreases self.definitions.len() - i,
        {
            if str_eq(self.definitions[i].as_str(), name) {
                assert(views(self.definitions@)[i as int] == name@);
                return true;
            }
            i += 1;
        }
        assert(!views(self.definitions@).contains(name@)) by {
            if views(self.definitions@).contains(name@) {
                let k = choose|k: int| 0 <= k < views(self.definitions@).len() && views(self.definitions@)[k] == name@;
                assert(self.definitions@[k]@ == name@);
            }
        }
        false
    }
}

/// The version requirement of the Apollo iOS SDK package dependency.
#[derive(Debug, Clone)]
pub enum SDKVersion {
    /// The exact version of this code generator.
    Default,
    Branch { name: String },
    Commit { hash: String },
    Exact { version: String },
    From { version: String },
    Local { path: String },
}

/// The Apollo iOS SDK package a generated Swift package depends on.
#[derive(Debug, Clone)]
pub struct ApolloSDKDependency {
    pub url: String,
    pub sdk_version: SDKVersion,
}

/// The package URL of the Apollo iOS SDK.
pub const APOLLO_IOS_URL: &'static str = "https://github.com/apollographql/apollo-ios";

/// The `Package.swift` dependency entry for a dependency with this URL and version.
pub open spec fn spec_dependency_string(url: Seq<char>, version: SDKVersion, codegen_version: Seq<char>) -> Seq<char> {
    match version {
        SDKVersion::Local { path } => ".package(path: \""@ + path@ + "\")"@,
        SDKVersion::Default => ".package(url: \""@ + url + "\", exact: \""@ + codegen_version + "\")"@,
        SDKVersion::Exact { version } => ".package(url: \""@ + url + "\", exact: \""@ + version@ + "\")"@,
        SDKVersion::From { version } => ".package(url: \""@ + url + "\", from: \""@ + version@ + "\")"@,
        SDKVersion::Branch { name } => ".package(url: \""@ + url + "\", branch: \""@ + name@ + "\")"@,
        SDKVersion::Commit { hash } => ".package(url: \""@ + url + "\", revision: \""@ + hash@ + "\")"@,
    }
}

impl ApolloSDKDependency {
    /// The default dependency: the Apollo iOS package at the version of this code generator.
    pub fn new() -> (r: Self)
        ensures
            r.url@ == APOLLO_IOS_URL@,
            r.sdk_version is Default,
    {
        ApolloSDKDependency { url: String::from_str(APOLLO_IOS_URL), sdk_version: SDKVersion::Default }
    }

    /// A copy of the dependency.
    pub fn copied(&self) -> (r: Self)
        ensures
            r == *self,
    {
        let sdk_version = match &self.sdk_version {
            SDKVersion::Default => SDKVersion::Default,
            SDKVersion::Branch { name } => SDKVersion::Branch { name: name.clone() },
            SDKVersion::Commit { hash } => SDKVersion::Commit { hash: hash.clone() },
            SDKVersion::Exact { version } => SDKVersion::Exact { version: version.clone() },
            SDKVersion::From { version } => SDKVersion::From { version: version.clone() },
            SDKVersion::Local { path } => SDKVersion::Local { path: path.clone() },
        };
        ApolloSDKDependency { url: self.url.clone(), sdk_version }
    }

    /// The `Package.swift` dependency entry; `codegen_version` is the version of the default.
    pub fn dependency_string(&self, codegen_version: &str) -> (r: String)
        ensures
            r@ == spec_dependency_string(self.url@, self.sdk_version, codegen_version@),
    {
        let mut r = String::new();
        match &self.sdk_version {
            SDKVersion::Local { path } => {
                r.append(".package(path: \"");
                r.append(path.as_str());
                r.append("\")");
                return r;
            },
            _ => {},
        }
        r.append(".package(url: \"");
        r.append(self.url.as_str());
        match &self.sdk_version {
            SDKVersion::Default => {
                r.append("\", exact: \"");
                r.append(codegen_version);
            },
            SDKVersion::Exact { version } => {
                r.append("\", exact: \"");
                r.append(version.as_str());
            },
            SDKVersion::From { version } => {
                r.append("\", from: \"");
                r.append(version.as_str());
            },
            SDKVersion::Branch { name } => {
                r.append("\", branch: \"");
                r.append(name.as_str());
            },
            SDKVersion::Commit { hash } => {
                r.append("\", revision: \"");
                r.append(hash.as_str());
            },
            SDKVersion::Local { .. } => {},
        }
        r.append("\")");
        r
    }
}

/// How the generated schema types are packaged.
#[derive(Debug, Clone)]
pub enum ModuleType {
    /// Generated into an existing target, inside a namespace enum.
    EmbeddedInTarget { name: String, access_modifier: AccessModifier },
    /// Generated as a Swift package, depending on the given Apollo iOS SDK package or, when
    /// none is given, on the default one.
    SwiftPackageManager { apollo_sdk_dependency: Option<ApolloSDKDependency> },
    /// Packaged by other means.
    Other,
}

impl ModuleType {
    /// The SDK dependency this module type carries: the one a Swift package was given, and
    /// none otherwise.
    pub fn apollo_sdk_dependency(&self) -> (r: Option<ApolloSDKDependency>)
        ensures
            r == match self {
                ModuleType::SwiftPackageManager { apollo_sdk_dependency } => *apollo_sdk_dependency,
                _ => None,
            },
    {
        match self {
            ModuleType::SwiftPackageManager { apollo_sdk_dependency: Some(d) } => Some(d.copied()),
            _ => None,
        }
    }
}

/// Where the schema types are generated.
#[derive(Debug, Clone)]
pub struct SchemaTypesFileOutput {
    pub path: String,
    pub module_type: ModuleType,
}

impl SchemaTypesFileOutput {
    /// Whether the schema types form a module of their own (they do unless they are embedded
    /// in a target).
    pub open spec fn spec_is_in_module(&self) -> bool {
        !(self.module_type is EmbeddedInTarget)
    }

    pub fn is_in_module(&self) -> (r: bool)
        ensures
            r == self.spec_is_in_module(),
    {
        match &self.module_type {
            ModuleType::EmbeddedInTarget { .. } => false,
            _ => true,
        }
    }
}

/// Where the operation files are generated.
#[derive(Debug, Clone)]
pub enum OperationsFileOutput {
    /// Inside the schema module.
    InSchemaModule,
    /// At an absolute path.
    Absolute { path: String, access_modifier: AccessModifier },
    /// Next to the operation definitions.
    Relative { subpath: Option<String>, access_modifier: AccessModifier },
}

impl OperationsFileOutput {
    /// Whether operations are generated into the schema module.
    pub open spec fn spec_is_in_module(&self) -> bool {
        self is InSchemaModule
    }

    pub fn is_in_module(&self) -> (r: bool)
        ensures
            r == self.spec_is_in_module(),
    {
        match self {
            OperationsFileOutput::InSchemaModule => true,
            _ => false,
        }
    }
}

/// Where test mocks are generated.
#[derive(Debug, Clone)]
pub enum TestMockFileOutput {
    /// No test mocks are generated.
    NoTestMocks,
    /// At an absolute path.
    Absolute { path: String, access_modifier: AccessModifier },
    /// As a target of the schema's Swift package.
    SwiftPackage { target_name: Option<String> },
}

/// The output locations.
#[derive(Debug, Clone)]
pub struct FileOutput {
    pub schema_types: SchemaTypesFileOutput,
    pub operations: OperationsFileOutput,
    pub test_mocks: TestMockFileOutput,
}

/// The code generation configuration.
#[derive(Debug, Clone)]
pub struct ApolloCodegenConfiguration {
    /// The name of the namespace the schema types are generated in.
    pub schema_namespace: String,
    pub output: FileOutput,
    pub options: OutputOptions,
}

// ---------------------------------------------------------------------------
// Swift names that need escaping
// ---------------------------------------------------------------------------

/// Sets of names that collide with Swift keywords or with names used by the generated code.
pub struct SwiftKeywords;

impl SwiftKeywords {
    /// Names that must be escaped with backticks when used as field accessors or enum cases.
    pub const FIELD_ACCESSOR_NAMES_TO_ESCAPE: [&'static str; 56] = [
        "associatedtype", "class", "deinit", "enum", "extension", "fileprivate", "func",
        "import", "init", "inout", "internal", "let", "operator", "private", "precedencegroup",
        "protocol", "Protocol", "public", "rethrows", "static", "struct", "subscript",
        "typealias", "var", "break", "case", "catch", "continue", "default", "defer", "do",
        "else", "fallthrough", "for", "guard", "if", "in", "repeat", "return", "throw",
        "switch", "where", "while", "Any", "as", "await", "false", "is", "nil", "self", "Self",
        "super", "throws", "true", "try", "_",
    ];

    /// Type names that must be suffixed to avoid colliding with names of the Swift runtime
    /// and of the Apollo API.
    pub const TYPE_NAMES_TO_SUFFIX: [&'static str; 19] = [
        "Any", "DataDict", "DocumentType", "Fragments", "FragmentContainer", "ParentType",
        "Protocol", "Schema", "Selection", "Self", "String", "Bool", "Int", "Float", "Double",
        "ID", "Type", "Error", "_",
    ];

    /// Names that must be escaped with backticks when used as test mock field properties: the
    /// keywords escaped for field accessors, and `Type`.
    pub const TEST_MOCK_FIELD_NAMES_TO_ESCAPE: [&'static str; 57] = [
        "associatedtype", "class", "deinit", "enum", "extension", "fileprivate", "func",
        "import", "init", "inout", "internal", "let", "operator", "private", "precedencegroup",
        "protocol", "Protocol", "public", "rethrows", "static", "struct", "subscript",
        "typealias", "var", "break", "case", "catch", "continue", "default", "defer", "do",
        "else", "fallthrough", "for", "guard", "if", "in", "repeat", "return", "throw",
        "switch", "where", "while", "Any", "as", "await", "false", "is", "nil", "self", "Self",
        "super", "throws", "true", "try", "_", "Type",
    ];

    /// Names that must be suffixed when used as test mock initializer parameters.
    pub const TEST_MOCK_INITIALIZER_PARAMETERS_TO_SUFFIX: [&'static str; 2] = ["self", "_"];

    /// Field names that conflict with members of test mocks.
    pub const TEST_MOCK_CONFLICTING_FIELD_NAMES: [&'static str; 1] = ["hash"];

    /// Abstract type names that are namespaced in test mocks.
    pub const TEST_MOCK_FIELD_ABSTRACT_TYPE_NAMES_TO_NAMESPACE: [&'static str; 1] = ["Actor"];
}

/// The character views of a list of names.
pub open spec fn name_views(set: Seq<&str>) -> Seq<Seq<char>> {
    set.map_values(|s: &str| s@)
}

/// Whether `s` is one of the names of `set`.
pub open spec fn spec_is_in(set: Seq<&str>, s: Seq<char>) -> bool {
    name_views(set).contains(s)
}

/// Whether `s` is one of the names of `set`.
pub fn is_in(set: &[&str], s: &str) -> (r: bool)
    ensures
        r == spec_is_in(set@, s@),
{
    let mut i: usize = 0;
    while i < set.len()
        invariant
            i <= set@.len(),
            forall|j: int| 0 <= j < i ==> set@[j]@ != s@,
        decreases set.len() - i,
    {
        if str_eq(set[i], s) {
            assert(name_views(set@)[i as int] == s@);
            return true;
        }
        i += 1;
    }
    assert(!name_views(set@).contains(s@)) by {
        if name_views(set@).contains(s@) {
            let k = choose|k: int| 0 <= k < name_views(set@).len() && name_views(set@)[k] == s@;
            assert(set@[k]@ == s@);
        }
    }
    false
}

} // verus!
