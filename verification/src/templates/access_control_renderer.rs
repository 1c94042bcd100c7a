//! Access control rendering for generated Swift code.
use vstd::prelude::*;

use crate::config::{
    AccessModifier, ApolloCodegenConfiguration, ModuleType, OperationsFileOutput,
    TestMockFileOutput,
};
use crate::templates::TemplateTarget;

verus! {

/// The `@_spi` values used by Apollo iOS.
#[derive(Debug, Clone, Copy, PartialEq, Eq, Structural)]
pub enum SPI {
    Unsafe,
    Internal,
    Execution,
}

/// The name of an SPI as written in `@_spi(...)`.
pub open spec fn spec_spi_name(spi: SPI) -> Seq<char> {
    match spi {
        SPI::Unsafe => "Unsafe"@,
        SPI::Internal => "Internal"@,
        SPI::Execution => "Execution"@,
    }
}

impl SPI {
    /// The name of the SPI as written in `@_spi(...)`.
    pub fn display_name(&self) -> (r: String)
        ensures
            r@ == spec_spi_name(*self),
    {
        match self {
            SPI::Unsafe => String::from_str("Unsafe"),
            SPI::Internal => String::from_str("Internal"),
            SPI::Execution => String::from_str("Execution"),
        }
    }
}

/// The scope of the access control modifier within the rendered template.
#[derive(Debug, Clone, Copy, PartialEq, Eq, Structural)]
pub enum Scope {
    /// The access modifier for the namespace (extension) declaration.
    Namespace,
    /// The access modifier for the parent type (struct, class, enum) declaration.
    Parent,
    /// The access modifier for a member (property, function) declaration.
    Member,
}

/// The access modifier of declarations in schema files.
pub open spec fn spec_schema_access(scope: Scope, config: ApolloCodegenConfiguration) -> Option<AccessModifier> {
    match config.output.schema_types.module_type {
        ModuleType::EmbeddedInTarget { access_modifier, .. } => if scope == Scope::Parent {
            None
        } else {
            Some(access_modifier)
        },
        ModuleType::SwiftPackageManager { .. } | ModuleType::Other => Some(AccessModifier::Public),
    }
}

/// The access modifier of declarations in operation files.
pub open spec fn spec_operation_access(scope: Scope, config: ApolloCodegenConfiguration) -> Option<AccessModifier> {
    match config.output.operations {
        OperationsFileOutput::InSchemaModule => spec_schema_access(scope, config),
        OperationsFileOutput::Absolute { access_modifier, .. } => Some(access_modifier),
        OperationsFileOutput::Relative { access_modifier, .. } => Some(access_modifier),
    }
}

/// The access modifier of declarations in test mock files.
pub open spec fn spec_test_mock_access(config: ApolloCodegenConfiguration) -> Option<AccessModifier> {
    match config.output.test_mocks {
        TestMockFileOutput::NoTestMocks => None,
        TestMockFileOutput::Absolute { access_modifier, .. } => Some(access_modifier),
        TestMockFileOutput::SwiftPackage { .. } => Some(AccessModifier::Public),
    }
}

/// The access modifier of declarations in the given scope of a file of the given target.
pub open spec fn spec_access_control_modifier(
    target: TemplateTarget,
    config: ApolloCodegenConfiguration,
    scope: Scope,
) -> Option<AccessModifier> {
    match target {
        TemplateTarget::ModuleFile | TemplateTarget::SchemaFile(_) => spec_schema_access(scope, config),
        TemplateTarget::OperationFile { .. } => spec_operation_access(scope, config),
        TemplateTarget::TestMockFile => spec_test_mock_access(config),
    }
}

/// `@_spi(name) ` for each SPI of `spis`, in order.
pub open spec fn spi_prefixes(spis: Seq<SPI>) -> Seq<char>
    decreases spis.len(),
{
    if spis.len() == 0 {
        Seq::empty()
    } else {
        spi_prefixes(spis.drop_last()) + "@_spi("@ + spec_spi_name(spis.last()) + ") "@
    }
}

/// The rendered modifier: `public ` preceded by the SPI annotations for a public modifier,
/// and nothing for an internal or absent one.
pub open spec fn spec_render_with_spis(access: Option<AccessModifier>, spis: Seq<SPI>) -> Seq<char> {
    if access == Some(AccessModifier::Public) {
        spi_prefixes(spis) + "public "@
    } else {
        Seq::empty()
    }
}

/// Renders Swift access control modifiers based on the template target, configuration,
/// and scope.
pub struct AccessControlRenderer {
    access_modifier: Option<AccessModifier>,
}

impl AccessControlRenderer {
    /// The access modifier this renderer renders.
    pub closed spec fn spec_access_modifier(&self) -> Option<AccessModifier> {
        self.access_modifier
    }

    /// Creates a renderer for the given target, configuration, and scope.
    pub fn new(target: &TemplateTarget, config: &ApolloCodegenConfiguration, scope: Scope) -> (r: Self)
        ensures
            r.spec_access_modifier() == spec_access_control_modifier(*target, *config, scope),
    {
        AccessControlRenderer { access_modifier: Self::access_control_modifier(target, config, scope) }
    }

    /// Renders the access control modifier without any SPI annotation.
    pub fn render(&self) -> (r: String)
        ensures
            r@ == spec_render_with_spis(self.spec_access_modifier(), Seq::empty()),
    {
        let spis: Vec<SPI> = Vec::new();
        self.render_with_spis(spis.as_slice())
    }

    /// Renders the access control modifier, prefixed with `@_spi(...)` annotations; the
    /// annotations are only rendered for a `public` modifier.
    pub fn render_with_spis(&self, spis: &[SPI]) -> (r: String)
        ensures
            r@ == spec_render_with_spis(self.spec_access_modifier(), spis@),
    {
        if !self.should_include_spi() {
            return String::new();
        }
        let mut r = String::new();
        let mut i: usize = 0;
        while i < spis.len()
            invariant
                i <= spis.len(),
                r@ == spi_prefixes(spis@.take(i as int)),
            decreases spis.len() - i,
        {
            let name = spis[i].display_name();
            r.append("@_spi(");
            r.append(name.as_str());
            r.append(") ");
            proof {
                assert(spis@.take(i + 1).drop_last() =~= spis@.take(i as int));
            }
            i = i + 1;
        }
        proof {
            assert(spis@.take(spis.len() as int) =~= spis@);
        }
        r.append("public ");
        r
    }

    /// SPI annotations are only used on public declarations.
    fn should_include_spi(&self) -> (r: bool)
        ensures
            r == (self.access_modifier == Some(AccessModifier::Public)),
    {
        match self.access_modifier {
            Some(AccessModifier::Public) => true,
            _ => false,
        }
    }

    /// Dispatches to the access modifier computation of the target.
    pub fn access_control_modifier(
        target: &TemplateTarget,
        config: &ApolloCodegenConfiguration,
        scope: Scope,
    ) -> (r: Option<AccessModifier>)
        ensures
            r == spec_access_control_modifier(*target, *config, scope),
    {
        match target {
            TemplateTarget::ModuleFile | TemplateTarget::SchemaFile(_) => {
                Self::schema_access_control_modifier(scope, config)
            },
            TemplateTarget::OperationFile { .. } => Self::operation_access_control_modifier(scope, config),
            TemplateTarget::TestMockFile => Self::test_mock_access_control_modifier(scope, config),
        }
    }

    /// The access modifier for schema file targets.
    pub fn schema_access_control_modifier(scope: Scope, config: &ApolloCodegenConfiguration) -> (r: Option<AccessModifier>)
        ensures
            r == spec_schema_access(scope, *config),
    {
        match &config.output.schema_types.module_type {
            ModuleType::EmbeddedInTarget { access_modifier, .. } => match scope {
                Scope::Parent => None,
                Scope::Namespace | Scope::Member => Some(*access_modifier),
            },
            ModuleType::SwiftPackageManager { .. } | ModuleType::Other => Some(AccessModifier::Public),
        }
    }

    /// The access modifier for operation file targets.
    pub fn operation_access_control_modifier(scope: Scope, config: &ApolloCodegenConfiguration) -> (r: Option<AccessModifier>)
        ensures
            r == spec_operation_access(scope, *config),
    {
        match &config.output.operations {
            OperationsFileOutput::InSchemaModule => Self::schema_access_control_modifier(scope, config),
            OperationsFileOutput::Absolute { access_modifier, .. } => Some(*access_modifier),
            OperationsFileOutput::Relative { access_modifier, .. } => Some(*access_modifier),
        }
    }

    /// The access modifier for test mock file targets.
    pub fn test_mock_access_control_modifier(_scope: Scope, config: &ApolloCodegenConfiguration) -> (r: Option<AccessModifier>)
        ensures
            r == spec_test_mock_access(*config),
    {
        match &config.output.test_mocks {
            TestMockFileOutput::NoTestMocks => None,
            TestMockFileOutput::Absolute { access_modifier, .. } => Some(*access_modifier),
            TestMockFileOutput::SwiftPackage { .. } => Some(AccessModifier::Public),
        }
    }
}

/// Operations generated into the schema module are declared with the access of the schema
/// files, in every scope.
pub proof fn law_operations_in_schema_module_follow_schema(config: ApolloCodegenConfiguration, scope: Scope, imports: Option<Vec<String>>)
    requires
        config.output.operations is InSchemaModule,
    ensures
        spec_access_control_modifier(TemplateTarget::OperationFile { module_imports: imports }, config, scope)
            == spec_access_control_modifier(TemplateTarget::ModuleFile, config, scope),
{
}

/// Operations generated outside the schema module are declared with the access modifier
/// configured for them, in every scope.
pub proof fn law_operations_outside_schema_module_take_configured_access(config: ApolloCodegenConfiguration, scope: Scope)
    ensures
        match config.output.operations {
            OperationsFileOutput::InSchemaModule => spec_operation_access(scope, config) == spec_schema_access(scope, config),
            OperationsFileOutput::Absolute { access_modifier, .. } => spec_operation_access(scope, config) == Some(access_modifier),
            OperationsFileOutput::Relative { access_modifier, .. } => spec_operation_access(scope, config) == Some(access_modifier),
        },
{
}

/// Schema types packaged as a module of their own are public in every scope and every file
/// kind of the schema.
pub proof fn law_schema_module_is_public(config: ApolloCodegenConfiguration, scope: Scope, target: TemplateTarget)
    requires
        !(config.output.schema_types.module_type is EmbeddedInTarget),
        target is ModuleFile || target is SchemaFile,
    ensures
        spec_access_control_modifier(target, config, scope) == Some(AccessModifier::Public),
{
}

/// Parent types embedded in a target carry no access modifier, so nothing is rendered for
/// them, whatever SPIs are asked for.
pub proof fn law_embedded_parent_renders_nothing(config: ApolloCodegenConfiguration, spis: Seq<SPI>)
    requires
        config.output.schema_types.module_type is EmbeddedInTarget,
    ensures
        spec_render_with_spis(spec_schema_access(Scope::Parent, config), spis) == Seq::<char>::empty(),
{
}

} // verus!
