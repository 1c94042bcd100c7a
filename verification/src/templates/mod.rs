//! Template rendering infrastructure: the configuration context, non-fatal errors, the
//! header and import templates, namespace wrapping, and the file layout that every
//! template renderer follows.
pub mod access_control_renderer;
pub mod deferred_fragments_metadata_template;
pub mod fragment_template;
pub mod local_cache_mutation_definition_template;
pub mod mock_interfaces_template;
pub mod operation_definition_template;
pub mod mock_object_template;
pub mod mock_unions_template;
pub mod rendering_helpers;
pub mod schema;
pub mod selection_set_accessors;
pub mod selection_set_template;
pub mod swift_package_manager_module_template;

use vstd::prelude::*;

use crate::config::{
    ApolloCodegenConfiguration, FileOutput, ModuleType, OutputOptions,
};
use crate::pluralizer::{copy_inflections, Pluralizer};
use crate::text::{
    opt_view, copy_str, is_blank, is_blank_str, join, join_strings, lemma_join_push, lines, spec_lines,
    str_ends_with, ends_with, views,
};
use rendering_helpers::string_casing::{first_uppercased, spec_first_uppercased};

pub use access_control_renderer::{AccessControlRenderer, Scope, SPI};
use access_control_renderer::{spec_access_control_modifier, spec_render_with_spis};

verus! {

// ---------------------------------------------------------------------------
// ConfigurationContext
// ---------------------------------------------------------------------------

/// The configuration that templates render with, and where files are written.
#[derive(Clone)]
pub struct ConfigurationContext {
    pub config: ApolloCodegenConfiguration,
    /// The singular forms that selection set names of list fields are built from.
    pub pluralizer: Pluralizer,
    pub root_url: Option<String>,
    /// When set, all generated files are written under this directory.
    pub output_root: Option<String>,
}

/// The name of the schema module: the target's name when the schema is embedded in a
/// target, else the schema namespace first uppercased.
pub open spec fn spec_schema_module_name(config: ApolloCodegenConfiguration) -> Seq<char> {
    match config.output.schema_types.module_type {
        ModuleType::EmbeddedInTarget { name, .. } => name@,
        _ => spec_first_uppercased(config.schema_namespace@),
    }
}

/// `nonisolated ` when schema types are marked `nonisolated`, else nothing.
pub open spec fn spec_nonisolated_modifier(config: ApolloCodegenConfiguration) -> Seq<char> {
    if config.options.mark_types_nonisolated {
        "nonisolated "@
    } else {
        Seq::empty()
    }
}

impl ConfigurationContext {
    /// Creates a context for the given configuration and root path, with a pluralizer
    /// made of the configuration's additional inflection rules.
    pub fn new(config: ApolloCodegenConfiguration, root_url: Option<String>) -> (r: Self)
        ensures
            r.config == config,
            r.pluralizer.inflections@ == config.options.additional_inflection_rules@,
            r.root_url == root_url,
            r.output_root is None,
    {
        let pluralizer = Pluralizer::new(copy_inflections(&config.options.additional_inflection_rules));
        ConfigurationContext { config, pluralizer, root_url, output_root: None }
    }

    /// The root path that relative paths are resolved against, if set.
    pub fn root_url(&self) -> (r: Option<&str>)
        ensures
            r is Some <==> self.root_url is Some,
            r matches Some(p) ==> p@ == self.root_url->0@,
    {
        match &self.root_url {
            Some(p) => Some(p.as_str()),
            None => None,
        }
    }

    /// The directory all output is written under, if set.
    pub fn output_root(&self) -> (r: Option<&str>)
        ensures
            r is Some <==> self.output_root is Some,
            r matches Some(p) ==> p@ == self.output_root->0@,
    {
        match &self.output_root {
            Some(p) => Some(p.as_str()),
            None => None,
        }
    }

    /// Sets the directory all output is written under.
    pub fn set_output_root(&mut self, output_root: Option<String>)
        ensures
            final(self).output_root == output_root,
            final(self).config == old(self).config,
            final(self).root_url == old(self).root_url,
            final(self).pluralizer == old(self).pluralizer,
    {
        self.output_root = output_root;
    }

    /// The schema namespace.
    pub fn schema_namespace(&self) -> (r: &str)
        ensures
            r@ == self.config.schema_namespace@,
    {
        self.config.schema_namespace.as_str()
    }

    /// The output options.
    pub fn options(&self) -> (r: &OutputOptions)
        ensures
            *r == self.config.options,
    {
        &self.config.options
    }

    /// The file output configuration.
    pub fn output(&self) -> (r: &FileOutput)
        ensures
            *r == self.config.output,
    {
        &self.config.output
    }

    /// The name of the schema module.
    pub fn schema_module_name(&self) -> (r: String)
        ensures
            r@ == spec_schema_module_name(self.config),
    {
        match &self.config.output.schema_types.module_type {
            ModuleType::EmbeddedInTarget { name, .. } => name.clone(),
            ModuleType::SwiftPackageManager { .. } | ModuleType::Other => {
                first_uppercased(self.config.schema_namespace.as_str())
            },
        }
    }

    /// The modifier that precedes schema type declarations for actor isolation.
    pub fn nonisolated_modifier(&self) -> (r: String)
        ensures
            r@ == spec_nonisolated_modifier(self.config),
    {
        if self.config.options.mark_types_nonisolated {
            String::from_str("nonisolated ")
        } else {
            String::new()
        }
    }
}

/// Setting the output root and reading it back gives what was set, and changes nothing else.
pub proof fn law_output_root_read_after_write(before: ConfigurationContext, after: ConfigurationContext, root: Option<String>)
    requires
        after.output_root == root,
        after.config == before.config,
        after.root_url == before.root_url,
    ensures
        after.output_root == root,
        spec_schema_module_name(after.config) == spec_schema_module_name(before.config),
{
}

// ---------------------------------------------------------------------------
// NonFatalError
// ---------------------------------------------------------------------------

/// Non-fatal errors collected during template rendering.
#[derive(Debug, Clone, PartialEq, Eq)]
pub enum NonFatalError {
    TypeNameConflict { name: String, conflicting_name: String, containing_object: String },
}

/// The failure reason of an error.
pub open spec fn spec_failure_reason(e: NonFatalError) -> Seq<char> {
    match e {
        NonFatalError::TypeNameConflict { name, conflicting_name, containing_object } => "Field '"@
            + conflicting_name@ + "' conflicts with field '"@ + name@ + "' in GraphQL definition `"@
            + containing_object@ + "`."@,
    }
}

/// The suggestion for recovering from a type name conflict.
pub const TYPE_NAME_CONFLICT_RECOVERY: &'static str = "It is recommended to use a field alias for one of these fields to resolve this conflict.\nFor more info see: https://www.apollographql.com/docs/ios/troubleshooting/codegen-troubleshooting#typenameconflict";

impl NonFatalError {
    /// The error type name.
    pub fn error_type_name(&self) -> (r: &'static str)
        ensures
            r@ == "TypeNameConflict"@,
    {
        match self {
            NonFatalError::TypeNameConflict { .. } => "TypeNameConflict",
        }
    }

    /// The failure reason.
    pub fn failure_reason(&self) -> (r: String)
        ensures
            r@ == spec_failure_reason(*self),
    {
        match self {
            NonFatalError::TypeNameConflict { name, conflicting_name, containing_object } => {
                let mut r = String::from_str("Field '");
                r.append(conflicting_name.as_str());
                r.append("' conflicts with field '");
                r.append(name.as_str());
                r.append("' in GraphQL definition `");
                r.append(containing_object.as_str());
                r.append("`.");
                r
            },
        }
    }

    /// The recovery suggestion.
    pub fn recovery_suggestion(&self) -> (r: &'static str)
        ensures
            r@ == TYPE_NAME_CONFLICT_RECOVERY@,
    {
        match self {
            NonFatalError::TypeNameConflict { .. } => TYPE_NAME_CONFLICT_RECOVERY,
        }
    }

    /// The error description: the type name, a colon, and the failure reason.
    pub fn error_description(&self) -> (r: String)
        ensures
            r@ == "TypeNameConflict"@ + ": "@ + spec_failure_reason(*self),
    {
        let mut r = String::from_str(self.error_type_name());
        r.append(": ");
        let reason = self.failure_reason();
        r.append(reason.as_str());
        r
    }
}

/// Collects non-fatal errors during rendering.
#[derive(Debug)]
pub struct NonFatalErrorRecorder {
    errors: Vec<NonFatalError>,
}

impl NonFatalErrorRecorder {
    /// The errors recorded so far, in the order they were recorded.
    pub closed spec fn spec_errors(&self) -> Seq<NonFatalError> {
        self.errors@
    }

    /// A recorder with no errors.
    pub fn new() -> (r: Self)
        ensures
            r.spec_errors() == Seq::<NonFatalError>::empty(),
    {
        NonFatalErrorRecorder { errors: Vec::new() }
    }

    /// Records an error after the errors recorded so far.
    pub fn record(&mut self, error: NonFatalError)
        ensures
            final(self).spec_errors() == old(self).spec_errors().push(error),
    {
        self.errors.push(error);
    }

    /// The recorded errors, in the order they were recorded.
    pub fn take(self) -> (r: Vec<NonFatalError>)
        ensures
            r@ == self.spec_errors(),
    {
        self.errors
    }
}

impl Default for NonFatalErrorRecorder {
    fn default() -> (r: Self)
        ensures
            r.spec_errors() == Seq::<NonFatalError>::empty(),
    {
        Self::new()
    }
}

/// A recorder hands back exactly the errors recorded into it, in the order they were
/// recorded: recording `e` and then taking gives the earlier errors followed by `e`.
pub proof fn law_recorder_keeps_order(before: NonFatalErrorRecorder, after: NonFatalErrorRecorder, e: NonFatalError)
    requires
        after.spec_errors() == before.spec_errors().push(e),
    ensures
        after.spec_errors().len() == before.spec_errors().len() + 1,
        after.spec_errors().last() == e,
        after.spec_errors().drop_last() == before.spec_errors(),
{
    assert(after.spec_errors().drop_last() =~= before.spec_errors());
}

// ---------------------------------------------------------------------------
// RenderResult, TemplateTarget, SchemaFileType
// ---------------------------------------------------------------------------

/// The result of rendering a template.
pub struct RenderResult {
    pub body: String,
    pub errors: Vec<NonFatalError>,
}

/// The specific type of schema file being rendered.
#[derive(Debug, Clone, Copy, PartialEq, Eq, Structural)]
pub enum SchemaFileType {
    SchemaMetadata,
    SchemaConfiguration,
    Object,
    Interface,
    Union,
    Enum,
    CustomScalar,
    InputObject,
}

/// The namespace component of a schema file type, if any.
pub open spec fn spec_namespace_component(t: SchemaFileType) -> Option<Seq<char>> {
    match t {
        SchemaFileType::Object => Some("Objects"@),
        SchemaFileType::Interface => Some("Interfaces"@),
        SchemaFileType::Union => Some("Unions"@),
        _ => None,
    }
}

impl SchemaFileType {
    /// The namespace component for this schema file type, if any.
    pub fn namespace_component(&self) -> (r: Option<&'static str>)
        ensures
            r is Some <==> spec_namespace_component(*self) is Some,
            r matches Some(c) ==> spec_namespace_component(*self) == Some(c@),
    {
        match self {
            SchemaFileType::SchemaMetadata
            | SchemaFileType::SchemaConfiguration
            | SchemaFileType::Enum
            | SchemaFileType::CustomScalar
            | SchemaFileType::InputObject => None,
            SchemaFileType::Object => Some("Objects"),
            SchemaFileType::Interface => Some("Interfaces"),
            SchemaFileType::Union => Some("Unions"),
        }
    }
}

/// The target of a rendered template, which decides its imports and access control.
#[derive(Debug, Clone)]
pub enum TemplateTarget {
    /// A schema type file.
    SchemaFile(SchemaFileType),
    /// An operation file (query, mutation, subscription, fragment).
    OperationFile { module_imports: Option<Vec<String>> },
    /// A module file (`Package.swift` and the like).
    ModuleFile,
    /// A test mock file.
    TestMockFile,
}

// ---------------------------------------------------------------------------
// Header and import templates
// ---------------------------------------------------------------------------

/// The header comment of generated files that must not be edited.
pub const GENERATED_HEADER: &'static str = "// @generated\n// This file was automatically generated and should not be edited.";

/// The first lines of the header of generated files that may be edited.
pub const EDITABLE_HEADER_START: &'static str = "// @generated\n// This file was automatically generated and can be edited to\n";

/// The last lines of the header of generated files that may be edited.
pub const EDITABLE_HEADER_END: &'static str = "\n//\n// Any changes to this file will not be overwritten by future\n// code generation execution.";

/// A line of text as a comment: `//` for an empty line, `// ` and the line otherwise.
pub open spec fn comment_line(l: Seq<char>) -> Seq<char> {
    if l.len() == 0 {
        seq!['/', '/']
    } else {
        seq!['/', '/', ' '] + l
    }
}

/// The lines of `reason`, each as a comment, joined with newlines.
pub open spec fn spec_comment_lines(reason: Seq<char>) -> Seq<char> {
    join(spec_lines(reason).map_values(|l: Seq<char>| comment_line(l)), seq!['\n'])
}

/// The header of an editable generated file with the given reason.
pub open spec fn spec_editable_file_header(reason: Seq<char>) -> Seq<char> {
    EDITABLE_HEADER_START@ + spec_comment_lines(reason) + EDITABLE_HEADER_END@
}

/// The header comment added to generated files.
pub struct HeaderCommentTemplate;

impl HeaderCommentTemplate {
    /// The standard header comment of generated files.
    pub fn template() -> (r: &'static str)
        ensures
            r@ == GENERATED_HEADER@,
    {
        GENERATED_HEADER
    }

    /// The header of a generated file that may be edited for the given reason; each line of
    /// the reason becomes a comment line.
    pub fn editable_file_header(reason: &str) -> (r: String)
        ensures
            r@ == spec_editable_file_header(reason@),
    {
        let ls = lines(reason);
        let ghost commented = spec_lines(reason@).map_values(|l: Seq<char>| comment_line(l));
        let mut body = String::new();
        let mut i: usize = 0;
        while i < ls.len()
            invariant
                i <= ls.len(),
                views(ls@) == spec_lines(reason@),
                commented == spec_lines(reason@).map_values(|l: Seq<char>| comment_line(l)),
                body@ == join(commented.take(i as int), seq!['\n']),
            decreases ls.len() - i,
        {
            let line = ls[i].as_str();
            let mut c = String::new();
            proof {
                reveal_strlit("//");
                reveal_strlit("// ");
                reveal_strlit("\n");
                assert(line@ == views(ls@)[i as int]);
                assert(line@.len() == 0 <==> line.is_empty());
            }
            if line.is_empty() {
                c.append("//");
            } else {
                c.append("// ");
                c.append(line);
            }
            proof {
                assert(c@ == comment_line(line@));
                assert(commented.take(i + 1) =~= commented.take(i as int).push(c@));
                lemma_join_push(commented.take(i as int), seq!['\n'], c@);
            }
            if i > 0 {
                body.append("\n");
            }
            body.append(c.as_str());
            i = i + 1;
        }
        proof {
            assert(commented.take(ls.len() as int) =~= commented);
        }
        let mut r = String::from_str(EDITABLE_HEADER_START);
        r.append(body.as_str());
        r.append(EDITABLE_HEADER_END);
        r
    }
}

/// The import statement of operation files: the schema module is imported as well when
/// operations are not generated into it.
pub open spec fn spec_operation_import(config: ApolloCodegenConfiguration) -> Seq<char> {
    if !config.output.operations.spec_is_in_module() {
        "@_exported import ApolloAPI"@ + "\nimport "@ + spec_schema_module_name(config)
    } else {
        "@_exported import ApolloAPI"@
    }
}

/// The import statement of test mock files.
pub open spec fn spec_test_mock_import(config: ApolloCodegenConfiguration) -> Seq<char> {
    "import ApolloTestSupport\n@testable import "@ + spec_schema_module_name(config)
}

/// Test mocks import, as testable, the module that holds the schema types: the target they
/// are embedded in when they are embedded in one, else the module named after the schema
/// namespace; it is the same module that operation files import when operations are
/// generated outside of it.
pub proof fn law_test_mocks_import_the_schema_module(config: ApolloCodegenConfiguration)
    ensures
        config.output.schema_types.module_type matches ModuleType::EmbeddedInTarget { name, .. }
            ==> spec_test_mock_import(config) == "import ApolloTestSupport\n@testable import "@ + name@,
        !(config.output.schema_types.module_type is EmbeddedInTarget) ==> spec_test_mock_import(config)
            == "import ApolloTestSupport\n@testable import "@ + spec_first_uppercased(config.schema_namespace@),
        !config.output.operations.spec_is_in_module() ==> spec_operation_import(config)
            == "@_exported import ApolloAPI\nimport "@ + spec_test_mock_import(config).skip(
            "import ApolloTestSupport\n@testable import "@.len() as int),
{
    let prefix = "import ApolloTestSupport\n@testable import "@;
    assert(spec_test_mock_import(config).skip(prefix.len() as int) =~= spec_schema_module_name(config));
    reveal_strlit("@_exported import ApolloAPI\nimport ");
    reveal_strlit("@_exported import ApolloAPI");
    reveal_strlit("\nimport ");
}

/// Templates for import statements in generated files.
pub struct ImportStatementTemplate;

impl ImportStatementTemplate {
    /// The import statement of a schema type file.
    pub fn schema_type(config: &ConfigurationContext, file_type: &SchemaFileType) -> (r: String)
        ensures
            r@ == "import ApolloAPI"@,
    {
        String::from_str("import ApolloAPI")
    }

    /// The import statement of an operation file.
    pub fn operation(config: &ConfigurationContext) -> (r: String)
        ensures
            r@ == spec_operation_import(config.config),
    {
        let schema_module = config.schema_module_name();
        let mut r = String::from_str("@_exported import ApolloAPI");
        if !config.output().operations.is_in_module() {
            r.append("\nimport ");
            r.append(schema_module.as_str());
        }
        r
    }

    /// The import statement of a test mock file.
    pub fn test_mock(config: &ConfigurationContext) -> (r: String)
        ensures
            r@ == spec_test_mock_import(config.config),
    {
        let schema_module = config.schema_module_name();
        let mut r = String::from_str("import ApolloTestSupport\n@testable import ");
        r.append(schema_module.as_str());
        r
    }
}

/// `import m` for each module `m`, one per line.
pub open spec fn spec_module_imports(modules: Seq<Seq<char>>) -> Seq<char> {
    join(modules.map_values(|m: Seq<char>| "import "@ + m), seq!['\n'])
}

/// Import statements for additional modules of operation files.
pub struct ModuleImportStatementTemplate;

impl ModuleImportStatementTemplate {
    /// Import statements for the given modules, one per line; `None` when there are none.
    pub fn template(module_imports: &[String]) -> (r: Option<String>)
        ensures
            r is None <==> module_imports@.len() == 0,
            r matches Some(s) ==> s@ == spec_module_imports(views(module_imports@)),
    {
        if module_imports.len() == 0 {
            return None;
        }
        let ghost imports = views(module_imports@).map_values(|m: Seq<char>| "import "@ + m);
        let mut r = String::new();
        let mut i: usize = 0;
        while i < module_imports.len()
            invariant
                i <= module_imports.len(),
                imports == views(module_imports@).map_values(|m: Seq<char>| "import "@ + m),
                r@ == join(imports.take(i as int), seq!['\n']),
            decreases module_imports.len() - i,
        {
            let mut line = String::from_str("import ");
            line.append(module_imports[i].as_str());
            proof {
                reveal_strlit("\n");
                assert(module_imports@[i as int]@ == views(module_imports@)[i as int]);
                assert(imports.take(i + 1) =~= imports.take(i as int).push(line@));
                lemma_join_push(imports.take(i as int), seq!['\n'], line@);
            }
            if i > 0 {
                r.append("\n");
            }
            r.append(line.as_str());
            i = i + 1;
        }
        proof {
            assert(imports.take(module_imports.len() as int) =~= imports);
        }
        Some(r)
    }
}

// ---------------------------------------------------------------------------
// Namespace wrapping
// ---------------------------------------------------------------------------

/// A line of a wrapped body: empty when blank, indented by two spaces otherwise.
pub open spec fn namespace_line(l: Seq<char>) -> Seq<char> {
    if is_blank(l) {
        Seq::empty()
    } else {
        seq![' ', ' '] + l
    }
}

/// The lines of a body wrapped in a namespace; a body that ends with a newline keeps a
/// blank last line.
pub open spec fn spec_namespace_lines(body: Seq<char>) -> Seq<Seq<char>> {
    let ls = spec_lines(body).map_values(|l: Seq<char>| namespace_line(l));
    if ends_with(body, seq!['\n']) {
        ls.push(Seq::empty())
    } else {
        ls
    }
}

/// `body` wrapped in an `extension` of `namespace` declared with `access_modifier`.
pub open spec fn spec_wrap_in_namespace(body: Seq<char>, namespace: Seq<char>, access_modifier: Seq<char>) -> Seq<char> {
    access_modifier + "extension "@ + namespace + " {\n"@ + join(spec_namespace_lines(body), seq!['\n']) + "\n}"@
}

/// Wraps the body in an extension of the namespace, indenting each non-blank line of the
/// body by two spaces.
pub fn wrap_in_namespace(body: &str, namespace: &str, access_modifier: &str) -> (r: String)
    ensures
        r@ == spec_wrap_in_namespace(body@, namespace@, access_modifier@),
{
    let ls = lines(body);
    let ghost target = spec_lines(body@).map_values(|l: Seq<char>| namespace_line(l));
    let mut indented: Vec<String> = Vec::new();
    let mut i: usize = 0;
    while i < ls.len()
        invariant
            i <= ls.len(),
            views(ls@) == spec_lines(body@),
            target == spec_lines(body@).map_values(|l: Seq<char>| namespace_line(l)),
            views(indented@) == target.take(i as int),
        decreases ls.len() - i,
    {
        let line = ls[i].as_str();
        proof {
            assert(line@ == views(ls@)[i as int]);
        }
        let mut out = String::new();
        if !is_blank_str(line) {
            out.append("  ");
            out.append(line);
        }
        proof {
            reveal_strlit("  ");
            assert(out@ == namespace_line(line@));
            assert(target[i as int] == namespace_line(spec_lines(body@)[i as int]));
            assert(target.take(i + 1) =~= target.take(i as int).push(out@));
        }
        indented.push(out);
        proof {
            assert(views(indented@) =~= target.take(i + 1));
        }
        i = i + 1;
    }
    proof {
        reveal_strlit("\n");
        assert("\n"@ =~= seq!['\n']);
        assert(target.take(ls.len() as int) =~= target);
    }
    if str_ends_with(body, "\n") {
        indented.push(String::new());
        proof {
            assert(views(indented@) =~= target.push(Seq::<char>::empty()));
        }
    }
    let joined = join_strings(&indented, "\n");
    let mut r = copy_str(access_modifier);
    r.append("extension ");
    r.append(namespace);
    r.append(" {\n");
    r.append(joined.as_str());
    r.append("\n}");
    r
}

// ---------------------------------------------------------------------------
// TemplateRenderer
// ---------------------------------------------------------------------------

/// A header followed by a blank line, or nothing when there is no header.
pub open spec fn header_part(header: Option<Seq<char>>) -> Seq<char> {
    match header {
        Some(h) => h + seq!['\n', '\n'],
        None => Seq::empty(),
    }
}

/// The rendered access modifier of the given scope of files of `target`.
pub open spec fn spec_template_access(target: TemplateTarget, config: ApolloCodegenConfiguration, scope: Scope) -> Seq<char> {
    spec_render_with_spis(spec_access_control_modifier(target, config, scope), Seq::empty())
}

/// The rendered access modifier of namespaces of files of `target`.
pub open spec fn spec_namespace_access(target: TemplateTarget, config: ApolloCodegenConfiguration) -> Seq<char> {
    spec_render_with_spis(spec_access_control_modifier(target, config, Scope::Namespace), Seq::empty())
}

/// The namespace a schema file's body is wrapped in: none for the schema configuration;
/// otherwise the file type's namespace component, qualified by the schema namespace when
/// the schema types are not a module of their own.
pub open spec fn spec_schema_file_namespace(file_type: SchemaFileType, config: ApolloCodegenConfiguration) -> Option<Seq<char>> {
    if file_type == SchemaFileType::SchemaConfiguration {
        None
    } else {
        let use_schema_namespace = !config.output.schema_types.spec_is_in_module();
        let ns = spec_first_uppercased(config.schema_namespace@);
        match spec_namespace_component(file_type) {
            None => if use_schema_namespace {
                Some(ns)
            } else {
                None
            },
            Some(c) => if use_schema_namespace {
                Some(ns + seq!['.'] + c)
            } else {
                Some(c)
            },
        }
    }
}

/// A rendered schema file: header, import, the detached section, and the body wrapped in
/// the file's namespace, if it has one.
pub open spec fn spec_render_schema_file(
    file_type: SchemaFileType,
    target: TemplateTarget,
    config: ApolloCodegenConfiguration,
    header: Option<Seq<char>>,
    detached: Option<Seq<char>>,
    body: Seq<char>,
) -> Seq<char> {
    header_part(header) + "import ApolloAPI"@ + seq!['\n'] + match detached {
        Some(d) => seq!['\n'] + d + seq!['\n'],
        None => Seq::empty(),
    } + seq!['\n'] + match spec_schema_file_namespace(file_type, config) {
        Some(ns) => spec_wrap_in_namespace(body, ns, spec_namespace_access(target, config)),
        None => body,
    }
}

/// Whether an operation file's body is wrapped in the schema namespace: operations in the
/// schema module whose schema types are not a module of their own.
pub open spec fn spec_operations_wrapped(config: ApolloCodegenConfiguration) -> bool {
    config.output.operations.spec_is_in_module() && !config.output.schema_types.spec_is_in_module()
}

/// A rendered operation file: header, imports, and the body, wrapped in the schema
/// namespace when `spec_operations_wrapped` holds.
pub open spec fn spec_render_operation_file(
    module_imports: Option<Seq<Seq<char>>>,
    target: TemplateTarget,
    config: ApolloCodegenConfiguration,
    header: Option<Seq<char>>,
    body: Seq<char>,
) -> Seq<char> {
    header_part(header) + spec_operation_import(config) + match module_imports {
        Some(m) => if m.len() > 0 {
            seq!['\n'] + spec_module_imports(m)
        } else {
            Seq::empty()
        },
        None => Seq::empty(),
    } + seq!['\n', '\n'] + if spec_operations_wrapped(config) {
        spec_wrap_in_namespace(body, spec_first_uppercased(config.schema_namespace@), spec_namespace_access(target, config))
    } else {
        body
    }
}

/// A rendered module file: header and body.
pub open spec fn spec_render_module_file(header: Option<Seq<char>>, body: Seq<char>) -> Seq<char> {
    header_part(header) + body
}

/// A rendered test mock file: header, test imports, and body.
pub open spec fn spec_render_test_mock_file(config: ApolloCodegenConfiguration, header: Option<Seq<char>>, body: Seq<char>) -> Seq<char> {
    header_part(header) + spec_test_mock_import(config) + seq!['\n', '\n'] + body
}

/// A rendered file of the given target.
pub open spec fn spec_render_file(
    target: TemplateTarget,
    config: ApolloCodegenConfiguration,
    header: Option<Seq<char>>,
    detached: Option<Seq<char>>,
    body: Seq<char>,
) -> Seq<char> {
    match target {
        TemplateTarget::SchemaFile(file_type) => spec_render_schema_file(file_type, target, config, header, detached, body),
        TemplateTarget::OperationFile { module_imports } => spec_render_operation_file(
            match module_imports {
                Some(m) => Some(views(m@)),
                None => None,
            },
            target,
            config,
            header,
            body,
        ),
        TemplateTarget::ModuleFile => spec_render_module_file(header, body),
        TemplateTarget::TestMockFile => spec_render_test_mock_file(config, header, body),
    }
}

/// Whether two targets are the same kind of file; operation files must import the same
/// modules, in the same order.
pub open spec fn spec_same_target(a: TemplateTarget, b: TemplateTarget) -> bool {
    match a {
        TemplateTarget::OperationFile { module_imports: ma } => match b {
            TemplateTarget::OperationFile { module_imports: mb } => match ma {
                Some(x) => mb matches Some(y) && views(x@) == views(y@),
                None => mb is None,
            },
            _ => false,
        },
        _ => a == b,
    }
}

/// Renders a file template according to its target file type and the code generation
/// configuration.
pub trait TemplateRenderer {
    /// The configuration the template renders with; each implementing type defines it.
    open spec fn spec_config(&self) -> ConfigurationContext {
        vstd::pervasive::arbitrary()
    }

    /// The file target of the template; each implementing type defines it.
    open spec fn spec_target(&self) -> TemplateTarget {
        vstd::pervasive::arbitrary()
    }

    /// The body of the template; each implementing type defines it.
    open spec fn spec_body(&self) -> Seq<char> {
        vstd::pervasive::arbitrary()
    }

    /// The header of the template: the standard header unless the type says otherwise.
    open spec fn spec_header(&self) -> Option<Seq<char>> {
        Some(GENERATED_HEADER@)
    }

    /// The section rendered outside any namespace wrapping: none unless the type says
    /// otherwise.
    open spec fn spec_detached(&self) -> Option<Seq<char>> {
        None
    }

    /// Shared code generation configuration.
    fn config(&self) -> (r: &ConfigurationContext)
        ensures
            *r == self.spec_config(),
    ;

    /// File target of the template.
    fn target(&self) -> (r: TemplateTarget)
        ensures
            spec_same_target(r, self.spec_target()),
    ;

    /// Renders the body of the template; the body can be rendered within any namespace
    /// wrapping.
    fn render_body_template(&self, non_fatal_error_recorder: &NonFatalErrorRecorder) -> (r: String)
        ensures
            r@ == self.spec_body(),
    ;

    /// Renders the header of the template; most templates use `standard_header_template`.
    fn render_header_template(&self, non_fatal_error_recorder: &NonFatalErrorRecorder) -> (r: Option<String>)
        ensures
            opt_view(r) == self.spec_header(),
    ;

    /// Renders the section that stands below the header and imports and above the body,
    /// outside any namespace wrapping; most templates have none.
    fn render_detached_template(&self, non_fatal_error_recorder: &NonFatalErrorRecorder) -> (r: Option<String>)
        ensures
            opt_view(r) == self.spec_detached(),
    ;

    /// Renders the template into the final text of its file.
    fn render(&self) -> (r: RenderResult)
        ensures
            r.body@ == spec_render_file(
                self.spec_target(),
                self.spec_config().config,
                self.spec_header(),
                self.spec_detached(),
                self.spec_body(),
            ),
            r.errors@.len() == 0,
    {
        let error_recorder = NonFatalErrorRecorder::new();
        let target = self.target();
        let config = self.config();
        let body = match &target {
            TemplateTarget::SchemaFile(file_type) => {
                let header = self.render_header_template(&error_recorder);
                let detached = self.render_detached_template(&error_recorder);
                let body = self.render_body_template(&error_recorder);
                render_schema_file(file_type, &target, config, header, detached, body)
            },
            TemplateTarget::OperationFile { module_imports } => {
                let header = self.render_header_template(&error_recorder);
                let body = self.render_body_template(&error_recorder);
                match module_imports {
                    Some(m) => render_operation_file(Some(m.as_slice()), &target, config, header, body),
                    None => render_operation_file(None, &target, config, header, body),
                }
            },
            TemplateTarget::ModuleFile => {
                let header = self.render_header_template(&error_recorder);
                let body = self.render_body_template(&error_recorder);
                render_module_file(header, body)
            },
            TemplateTarget::TestMockFile => {
                let header = self.render_header_template(&error_recorder);
                let body = self.render_body_template(&error_recorder);
                render_test_mock_file(config, header, body)
            },
        };
        RenderResult { body, errors: error_recorder.take() }
    }

    /// The access control renderer for the given scope of this template's file.
    fn access_control_renderer(&self, scope: Scope) -> (r: AccessControlRenderer)
        ensures
            r.spec_access_modifier() == spec_access_control_modifier(self.spec_target(), self.spec_config().config, scope),
    {
        AccessControlRenderer::new(&self.target(), &self.config().config, scope)
    }
}

/// The standard header of generated files.
pub fn standard_header_template() -> (r: Option<String>)
    ensures
        opt_view(r) == Some(GENERATED_HEADER@),
{
    Some(String::from_str(HeaderCommentTemplate::template()))
}

/// Appends the header and a blank line, if there is a header.
fn push_header(result: &mut String, header: Option<String>)
    ensures
        final(result)@ == old(result)@ + header_part(opt_view(header)),
{
    match header {
        Some(h) => {
            result.append(h.as_str());
            result.append("\n\n");
            proof {
                reveal_strlit("\n\n");
                assert("\n\n"@ =~= seq!['\n', '\n']);
            }
        },
        None => {
            proof {
                assert(old(result)@ + Seq::<char>::empty() =~= old(result)@);
            }
        },
    }
}

/// Renders a schema file, wrapping its body in the file's namespace.
fn render_schema_file(
    file_type: &SchemaFileType,
    target: &TemplateTarget,
    config: &ConfigurationContext,
    header: Option<String>,
    detached: Option<String>,
    body: String,
) -> (r: String)
    ensures
        r@ == spec_render_schema_file(*file_type, *target, config.config, opt_view(header), opt_view(detached), body@),
{
    let namespace: Option<String> = match file_type {
        SchemaFileType::SchemaConfiguration => None,
        _ => {
            let use_schema_namespace = !config.output().schema_types.is_in_module();
            match file_type.namespace_component() {
                None => if use_schema_namespace {
                    Some(first_uppercased(config.schema_namespace()))
                } else {
                    None
                },
                Some(component) => if use_schema_namespace {
                    let mut ns = first_uppercased(config.schema_namespace());
                    ns.append(".");
                    ns.append(component);
                    proof {
                        reveal_strlit(".");
                        assert("."@ =~= seq!['.']);
                    }
                    Some(ns)
                } else {
                    Some(String::from_str(component))
                },
            }
        },
    };
    proof {
        assert(opt_view(namespace) == spec_schema_file_namespace(*file_type, config.config));
    }
    let ghost header_v = opt_view(header);
    let ghost detached_v = opt_view(detached);
    let mut result = String::new();
    push_header(&mut result, header);
    let import = ImportStatementTemplate::schema_type(config, file_type);
    result.append(import.as_str());
    result.append("\n");
    match detached {
        Some(d) => {
            result.append("\n");
            result.append(d.as_str());
            result.append("\n");
        },
        None => {},
    }
    result.append("\n");
    match namespace {
        Some(ns) => {
            let access_modifier = AccessControlRenderer::new(target, &config.config, Scope::Namespace).render();
            let wrapped = wrap_in_namespace(body.as_str(), ns.as_str(), access_modifier.as_str());
            result.append(wrapped.as_str());
        },
        None => {
            result.append(body.as_str());
        },
    }
    proof {
        reveal_strlit("\n");
        assert("\n"@ =~= seq!['\n']);
        assert(result@ =~= spec_render_schema_file(*file_type, *target, config.config, header_v, detached_v, body@));
    }
    result
}

/// Renders an operation file, with its module imports and, where the schema namespace
/// applies, its body wrapped in that namespace.
fn render_operation_file(
    module_imports: Option<&[String]>,
    target: &TemplateTarget,
    config: &ConfigurationContext,
    header: Option<String>,
    body: String,
) -> (r: String)
    ensures
        r@ == spec_render_operation_file(
            match module_imports {
                Some(m) => Some(views(m@)),
                None => None,
            },
            *target,
            config.config,
            opt_view(header),
            body@,
        ),
{
    let ghost header_v = opt_view(header);
    let mut result = String::new();
    push_header(&mut result, header);
    let import = ImportStatementTemplate::operation(config);
    result.append(import.as_str());
    match module_imports {
        Some(imports) => match ModuleImportStatementTemplate::template(imports) {
            Some(module_import_str) => {
                result.append("\n");
                result.append(module_import_str.as_str());
            },
            None => {},
        },
        None => {},
    }
    result.append("\n\n");
    if config.output().operations.is_in_module() && !config.output().schema_types.is_in_module() {
        let ns = first_uppercased(config.schema_namespace());
        let access_modifier = AccessControlRenderer::new(target, &config.config, Scope::Namespace).render();
        let wrapped = wrap_in_namespace(body.as_str(), ns.as_str(), access_modifier.as_str());
        result.append(wrapped.as_str());
    } else {
        result.append(body.as_str());
    }
    proof {
        reveal_strlit("\n");
        reveal_strlit("\n\n");
        assert("\n"@ =~= seq!['\n']);
        assert("\n\n"@ =~= seq!['\n', '\n']);
        assert(result@ =~= spec_render_operation_file(
            match module_imports {
                Some(m) => Some(views(m@)),
                None => None,
            },
            *target,
            config.config,
            header_v,
            body@,
        ));
    }
    result
}

/// Renders a module file: header and body, without imports.
fn render_module_file(header: Option<String>, body: String) -> (r: String)
    ensures
        r@ == spec_render_module_file(opt_view(header), body@),
{
    let ghost header_v = opt_view(header);
    let mut result = String::new();
    push_header(&mut result, header);
    result.append(body.as_str());
    proof {
        assert(result@ =~= spec_render_module_file(header_v, body@));
    }
    result
}

/// Renders a test mock file with the test support imports.
fn render_test_mock_file(config: &ConfigurationContext, header: Option<String>, body: String) -> (r: String)
    ensures
        r@ == spec_render_test_mock_file(config.config, opt_view(header), body@),
{
    let ghost header_v = opt_view(header);
    let mut result = String::new();
    push_header(&mut result, header);
    let import = ImportStatementTemplate::test_mock(config);
    result.append(import.as_str());
    result.append("\n\n");
    result.append(body.as_str());
    proof {
        reveal_strlit("\n\n");
        assert("\n\n"@ =~= seq!['\n', '\n']);
        assert(result@ =~= spec_render_test_mock_file(config.config, header_v, body@));
    }
    result
}
} // verus!
