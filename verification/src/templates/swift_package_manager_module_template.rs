//! The `Package.swift` file of a schema generated as a Swift package.
use vstd::prelude::*;

use crate::config::{spec_dependency_string, ApolloSDKDependency, ModuleType, TestMockFileOutput};
use crate::templates::rendering_helpers::string_casing::{first_uppercased, spec_first_uppercased};
use crate::templates::{ConfigurationContext, NonFatalErrorRecorder, TemplateRenderer, TemplateTarget};

verus! {

/// The version of this code generator, used by the default SDK dependency.
pub const CODEGEN_VERSION: &'static str = "1.15.1";

/// The test mock target of a package: its name and path, for test mocks generated as a
/// target of the package.  A target without a name is named after the schema namespace.
pub open spec fn spec_test_mock_target(test_mocks: TestMockFileOutput, schema_namespace: Seq<char>) -> Option<(Seq<char>, Seq<char>)> {
    match test_mocks {
        TestMockFileOutput::SwiftPackage { target_name } => match target_name {
            Some(name) => Some((spec_first_uppercased(name@), "./"@ + spec_first_uppercased(name@))),
            None => Some((spec_first_uppercased(schema_namespace) + "TestMocks"@, "./TestMocks"@)),
        },
        _ => None,
    }
}

pub const PACKAGE_HEAD: &'static str = "// swift-tools-version:6.1\n\nimport PackageDescription\n\nlet package = Package(\n  name: \"";
pub const PACKAGE_PLATFORMS: &'static str = "\",\n  platforms: [\n    .iOS(.v15),\n    .macOS(.v12),\n    .tvOS(.v15),\n    .watchOS(.v8),\n    .visionOS(.v1),\n  ],\n  products: [\n    .library(name: \"";
pub const PACKAGE_TARGETS_OPEN: &'static str = "\", targets: [\"";
pub const PACKAGE_PRODUCT_CLOSE: &'static str = "\"]),";
pub const PACKAGE_DEPENDENCIES: &'static str = "\n  ],\n  dependencies: [\n    ";
pub const PACKAGE_TARGET: &'static str = ",\n  ],\n  targets: [\n    .target(\n      name: \"";
pub const PACKAGE_TARGET_END: &'static str = "\",\n      dependencies: [\n        .product(name: \"ApolloAPI\", package: \"apollo-ios\"),\n      ],\n      path: \"./Sources\"\n    ),";
pub const PACKAGE_END: &'static str = "\n  ],\n  swiftLanguageModes: [.v6, .v5]\n)\n";
pub const MOCK_PRODUCT_OPEN: &'static str = "\n    .library(name: \"";
pub const MOCK_TARGET_OPEN: &'static str = "\n    .target(\n      name: \"";
pub const MOCK_TARGET_DEPENDENCIES: &'static str = "\",\n      dependencies: [\n        .product(name: \"ApolloTestSupport\", package: \"apollo-ios\"),\n        .target(name: \"";
pub const MOCK_TARGET_PATH: &'static str = "\"),\n      ],\n      path: \"";
pub const MOCK_TARGET_CLOSE: &'static str = "\"\n    ),";

/// The product entry of the test mock target, if there is one.
pub open spec fn spec_test_mock_product(target: Option<(Seq<char>, Seq<char>)>) -> Seq<char> {
    match target {
        Some((name, _)) => MOCK_PRODUCT_OPEN@ + name + PACKAGE_TARGETS_OPEN@ + name + PACKAGE_PRODUCT_CLOSE@,
        None => Seq::empty(),
    }
}

/// The target entry of the test mock target, if there is one.
pub open spec fn spec_test_mock_target_entry(target: Option<(Seq<char>, Seq<char>)>, namespace: Seq<char>) -> Seq<char> {
    match target {
        Some((name, path)) => MOCK_TARGET_OPEN@ + name + MOCK_TARGET_DEPENDENCIES@ + namespace + MOCK_TARGET_PATH@ + path
            + MOCK_TARGET_CLOSE@,
        None => Seq::empty(),
    }
}

/// The text of `Package.swift` for the schema namespace `namespace` (first uppercased),
/// the SDK dependency entry `dependency` and the test mock target `target`.
pub open spec fn spec_package_swift(namespace: Seq<char>, dependency: Seq<char>, target: Option<(Seq<char>, Seq<char>)>) -> Seq<char> {
    PACKAGE_HEAD@ + namespace + PACKAGE_PLATFORMS@ + namespace + PACKAGE_TARGETS_OPEN@ + namespace
        + PACKAGE_PRODUCT_CLOSE@ + spec_test_mock_product(target) + PACKAGE_DEPENDENCIES@ + dependency
        + PACKAGE_TARGET@ + namespace + PACKAGE_TARGET_END@ + spec_test_mock_target_entry(target, namespace)
        + PACKAGE_END@
}

/// Renders the Swift package definition of the generated schema module.
pub struct SwiftPackageManagerModuleTemplate {
    pub test_mock_config: TestMockFileOutput,
    pub config: ConfigurationContext,
    pub apollo_sdk_dependency: ApolloSDKDependency,
}

impl SwiftPackageManagerModuleTemplate {
    /// Creates the template, taking the SDK dependency from the module type, or the default
    /// dependency when the module type has none.
    pub fn new(test_mock_config: TestMockFileOutput, config: ConfigurationContext) -> (r: Self)
        ensures
            r.test_mock_config == test_mock_config,
            r.config == config,
            match config.config.output.schema_types.module_type {
                ModuleType::SwiftPackageManager { apollo_sdk_dependency: Some(d) } => r.apollo_sdk_dependency == d,
                _ => r.apollo_sdk_dependency.url@ == crate::config::APOLLO_IOS_URL@
                    && r.apollo_sdk_dependency.sdk_version is Default,
            },
    {
        let apollo_sdk_dependency = match config.output().schema_types.module_type.apollo_sdk_dependency() {
            Some(d) => d,
            None => ApolloSDKDependency::new(),
        };
        SwiftPackageManagerModuleTemplate { test_mock_config, config, apollo_sdk_dependency }
    }

    /// The test mock target's name and path, for test mocks generated as a package target.
    pub fn test_mock_target(&self) -> (r: Option<(String, String)>)
        ensures
            r is Some <==> spec_test_mock_target(self.test_mock_config, self.config.config.schema_namespace@) is Some,
            r matches Some((n, p)) ==> spec_test_mock_target(self.test_mock_config, self.config.config.schema_namespace@)
                == Some((n@, p@)),
    {
        match &self.test_mock_config {
            TestMockFileOutput::SwiftPackage { target_name } => match target_name {
                Some(name) => {
                    let cased = first_uppercased(name.as_str());
                    let mut path = String::from_str("./");
                    path.append(cased.as_str());
                    Some((cased, path))
                },
                None => {
                    let mut name = first_uppercased(self.config.schema_namespace());
                    name.append("TestMocks");
                    Some((name, String::from_str("./TestMocks")))
                },
            },
            _ => None,
        }
    }
}

impl TemplateRenderer for SwiftPackageManagerModuleTemplate {
    open spec fn spec_config(&self) -> ConfigurationContext {
        self.config
    }

    open spec fn spec_target(&self) -> TemplateTarget {
        TemplateTarget::ModuleFile
    }

    open spec fn spec_body(&self) -> Seq<char> {
        spec_package_swift(
            spec_first_uppercased(self.config.config.schema_namespace@),
            spec_dependency_string(self.apollo_sdk_dependency.url@, self.apollo_sdk_dependency.sdk_version, CODEGEN_VERSION@),
            spec_test_mock_target(self.test_mock_config, self.config.config.schema_namespace@),
        )
    }

    open spec fn spec_header(&self) -> Option<Seq<char>> {
        None
    }

    open spec fn spec_detached(&self) -> Option<Seq<char>> {
        None
    }

    fn config(&self) -> (r: &ConfigurationContext) {
        &self.config
    }

    fn target(&self) -> (r: TemplateTarget) {
        TemplateTarget::ModuleFile
    }

    /// `Package.swift` has no header comment.
    fn render_header_template(&self, _non_fatal_error_recorder: &NonFatalErrorRecorder) -> (r: Option<String>) {
        None
    }

    fn render_detached_template(&self, _non_fatal_error_recorder: &NonFatalErrorRecorder) -> (r: Option<String>) {
        None
    }

    fn render_body_template(&self, _non_fatal_error_recorder: &NonFatalErrorRecorder) -> (r: String) {
        let ns = first_uppercased(self.config.schema_namespace());
        let dependency = self.apollo_sdk_dependency.dependency_string(CODEGEN_VERSION);
        let target = self.test_mock_target();
        let mut product = String::new();
        let mut entry = String::new();
        match &target {
            Some((name, path)) => {
                product.append(MOCK_PRODUCT_OPEN);
                product.append(name.as_str());
                product.append(PACKAGE_TARGETS_OPEN);
                product.append(name.as_str());
                product.append(PACKAGE_PRODUCT_CLOSE);
                entry.append(MOCK_TARGET_OPEN);
                entry.append(name.as_str());
                entry.append(MOCK_TARGET_DEPENDENCIES);
                entry.append(ns.as_str());
                entry.append(MOCK_TARGET_PATH);
                entry.append(path.as_str());
                entry.append(MOCK_TARGET_CLOSE);
            },
            None => {},
        }
        let ghost t = match target {
            Some((n, p)) => Some((n@, p@)),
            None => None,
        };
        proof {
            assert(product@ == spec_test_mock_product(t));
            assert(entry@ == spec_test_mock_target_entry(t, ns@));
        }
        let mut r = String::from_str(PACKAGE_HEAD);
        r.append(ns.as_str());
        r.append(PACKAGE_PLATFORMS);
        r.append(ns.as_str());
        r.append(PACKAGE_TARGETS_OPEN);
        r.append(ns.as_str());
        r.append(PACKAGE_PRODUCT_CLOSE);
        r.append(product.as_str());
        r.append(PACKAGE_DEPENDENCIES);
        r.append(dependency.as_str());
        r.append(PACKAGE_TARGET);
        r.append(ns.as_str());
        r.append(PACKAGE_TARGET_END);
        r.append(entry.as_str());
        r.append(PACKAGE_END);
        r
    }
}

} // verus!
