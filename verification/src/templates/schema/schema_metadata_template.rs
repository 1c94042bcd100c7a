//! The schema metadata file: the selection set protocols of the schema, the
//! `SchemaMetadata` enum that maps type names to object types, and the type namespaces.
use vstd::prelude::*;

use crate::graphql::{GraphQLNamedType, GraphQLObjectType, Schema};
use crate::templates::rendering_helpers::graphql_name_rendering::{RenderContext, render_named_type};
use crate::templates::rendering_helpers::string_casing::{first_uppercased, spec_first_uppercased};
use crate::templates::rendering_helpers::template_constants::APOLLO_API_TARGET_NAME;
use crate::templates::rendering_helpers::template_string_documentation::{
    render_documentation, spec_rendered_documentation,
};
use crate::templates::schema::spec_object_name;
use crate::templates::{
    spec_nonisolated_modifier, spec_template_access, standard_header_template, ConfigurationContext,
    NonFatalErrorRecorder, SchemaFileType, Scope, TemplateRenderer, TemplateTarget,
};
use crate::text::{join, join_strings, opt_part, opt_str_view, opt_view, push_opt_part, push_part, views};

verus! {

/// The rendered access modifier of a scope of the schema metadata file.
pub open spec fn metadata_access(config: ConfigurationContext, scope: Scope) -> Seq<char> {
    spec_template_access(TemplateTarget::SchemaFile(SchemaFileType::SchemaMetadata), config.config, scope)
}

/// The schema namespace first uppercased.
pub open spec fn metadata_namespace(config: ConfigurationContext) -> Seq<char> {
    spec_first_uppercased(config.config.schema_namespace@)
}

/// The declaration of one selection set protocol.
pub open spec fn spec_protocol(config: ConfigurationContext, prefix: Seq<char>, name: Seq<char>, conformance: Seq<char>) -> Seq<char> {
    spec_nonisolated_modifier(config.config) + metadata_access(config, Scope::Member) + "protocol "@ + prefix + name
        + ": "@ + conformance + "\nwhere Schema == "@ + metadata_namespace(config) + ".SchemaMetadata {}"@
}

/// The selection set protocols of the schema, with names prefixed by `prefix`, separated
/// by blank lines.
pub open spec fn spec_protocol_definition(config: ConfigurationContext, prefix: Seq<char>) -> Seq<char> {
    let api = APOLLO_API_TARGET_NAME@;
    spec_protocol(config, prefix, "SelectionSet"@, api + ".SelectionSet & "@ + api + ".RootSelectionSet"@) + "\n\n"@
        + spec_protocol(config, prefix, "InlineFragment"@, api + ".SelectionSet & "@ + api + ".InlineFragment"@) + "\n\n"@
        + spec_protocol(config, prefix, "MutableSelectionSet"@, api + ".MutableRootSelectionSet"@) + "\n\n"@
        + spec_protocol(config, prefix, "MutableInlineFragment"@, api + ".MutableSelectionSet & "@ + api + ".InlineFragment"@)
}

/// The entry of the type name map for an object.
pub open spec fn spec_object_entry(o: GraphQLObjectType, namespace: Seq<char>) -> Seq<char> {
    "    \""@ + o.name.schema_name@ + "\": "@ + namespace + ".Objects."@ + spec_object_name(o)
}

/// The entries of the type name map for the objects.
pub open spec fn spec_object_entries(objects: Seq<GraphQLObjectType>, namespace: Seq<char>) -> Seq<Seq<char>>
    decreases objects.len(),
{
    if objects.len() == 0 {
        Seq::empty()
    } else {
        spec_object_entries(objects.drop_last(), namespace).push(spec_object_entry(objects.last(), namespace))
    }
}

/// The map from type names to object types, and the function that looks them up.
pub open spec fn spec_object_type_function(schema: Schema, config: ConfigurationContext) -> Seq<char> {
    let api = APOLLO_API_TARGET_NAME@;
    "  private static let objectTypeMap: [String: "@ + api + ".Object] = [\n"@
        + join(spec_object_entries(schema.referenced_types.objects@, metadata_namespace(config)), ",\n"@)
        + "\n  ]\n\n  "@ + metadata_access(config, Scope::Member)
        + "static func objectType(forTypename typename: String) -> "@ + api
        + ".Object? {\n    objectTypeMap[typename]\n  }"@
}

/// The type aliases to the prefixed selection set protocols, for schema types that are
/// embedded in a target.
pub open spec fn spec_typealiases(config: ConfigurationContext) -> Seq<char> {
    let pa = metadata_access(config, Scope::Parent);
    let ns = metadata_namespace(config);
    pa + "typealias SelectionSet = "@ + ns + "_SelectionSet\n\n"@
        + pa + "typealias InlineFragment = "@ + ns + "_InlineFragment\n\n"@
        + pa + "typealias MutableSelectionSet = "@ + ns + "_MutableSelectionSet\n\n"@
        + pa + "typealias MutableInlineFragment = "@ + ns + "_MutableInlineFragment"@
}

/// The `SchemaMetadata` enum.
pub open spec fn spec_schema_metadata_enum(schema: Schema, config: ConfigurationContext) -> Seq<char> {
    let api = APOLLO_API_TARGET_NAME@;
    spec_nonisolated_modifier(config.config) + metadata_access(config, Scope::Parent) + "enum SchemaMetadata: "@ + api
        + ".SchemaMetadata {\n  "@ + metadata_access(config, Scope::Member) + "static let configuration: any "@ + api
        + ".SchemaConfiguration.Type = SchemaConfiguration.self\n\n"@ + spec_object_type_function(schema, config) + "\n}"@
}

/// The namespaces of the generated object, interface and union types.
pub open spec fn spec_type_namespaces(config: ConfigurationContext) -> Seq<char> {
    let prefix = spec_nonisolated_modifier(config.config) + metadata_access(config, Scope::Parent);
    prefix + "enum Objects {}\n"@ + prefix + "enum Interfaces {}\n"@ + prefix + "enum Unions {}"@
}

/// The body of the schema metadata file: the selection set protocols (or, for schema
/// types embedded in a target, aliases to the prefixed protocols of the detached section),
/// the schema's documentation, the `SchemaMetadata` enum and the type namespaces,
/// separated by blank lines and followed by a newline.
pub open spec fn spec_schema_metadata_body(schema: Schema, config: ConfigurationContext) -> Seq<char> {
    let first = if !config.config.output.schema_types.spec_is_in_module() {
        spec_typealiases(config)
    } else {
        spec_protocol_definition(config, Seq::empty())
    };
    join(
        seq![first] + opt_part(spec_rendered_documentation(opt_view(schema.documentation), config.config))
            + seq![spec_schema_metadata_enum(schema, config), spec_type_namespaces(config)],
        "\n\n"@,
    ) + "\n"@
}

/// The detached section: the prefixed selection set protocols, for schema types embedded in
/// a target.
pub open spec fn spec_schema_metadata_detached(config: ConfigurationContext) -> Option<Seq<char>> {
    if config.config.output.schema_types.spec_is_in_module() {
        None
    } else {
        Some(spec_protocol_definition(config, metadata_namespace(config) + "_"@))
    }
}

/// Renders the schema metadata file.
pub struct SchemaMetadataTemplate {
    pub schema: Schema,
    pub config: ConfigurationContext,
}

impl SchemaMetadataTemplate {
    /// A template for the given schema and configuration.
    pub fn new(schema: Schema, config: ConfigurationContext) -> (r: Self)
        ensures
            r.schema == schema,
            r.config == config,
    {
        SchemaMetadataTemplate { schema, config }
    }

    fn protocol(&self, access: &str, prefix: &str, name: &str, conformance: &str) -> (r: String)
        ensures
            access@ == metadata_access(self.config, Scope::Member) ==> r@ == spec_protocol(self.config, prefix@, name@, conformance@),
    {
        let mut r = self.config.nonisolated_modifier();
        r.append(access);
        r.append("protocol ");
        r.append(prefix);
        r.append(name);
        r.append(": ");
        r.append(conformance);
        r.append("\nwhere Schema == ");
        let ns = first_uppercased(self.config.schema_namespace());
        r.append(ns.as_str());
        r.append(".SchemaMetadata {}");
        r
    }

    fn protocol_definition(&self, prefix: &str) -> (r: String)
        ensures
            r@ == spec_protocol_definition(self.config, prefix@),
    {
        let access = self.access_control_renderer(Scope::Member).render();
        let api = APOLLO_API_TARGET_NAME;
        let mut selection_set = String::from_str(api);
        selection_set.append(".SelectionSet & ");
        selection_set.append(api);
        selection_set.append(".RootSelectionSet");
        let mut inline_fragment = String::from_str(api);
        inline_fragment.append(".SelectionSet & ");
        inline_fragment.append(api);
        inline_fragment.append(".InlineFragment");
        let mut mutable_selection_set = String::from_str(api);
        mutable_selection_set.append(".MutableRootSelectionSet");
        let mut mutable_inline_fragment = String::from_str(api);
        mutable_inline_fragment.append(".MutableSelectionSet & ");
        mutable_inline_fragment.append(api);
        mutable_inline_fragment.append(".InlineFragment");
        let mut r = self.protocol(access.as_str(), prefix, "SelectionSet", selection_set.as_str());
        r.append("\n\n");
        let p = self.protocol(access.as_str(), prefix, "InlineFragment", inline_fragment.as_str());
        r.append(p.as_str());
        r.append("\n\n");
        let p = self.protocol(access.as_str(), prefix, "MutableSelectionSet", mutable_selection_set.as_str());
        r.append(p.as_str());
        r.append("\n\n");
        let p = self.protocol(access.as_str(), prefix, "MutableInlineFragment", mutable_inline_fragment.as_str());
        r.append(p.as_str());
        r
    }

    fn object_entries(&self, namespace: &str) -> (r: Vec<String>)
        ensures
            views(r@) == spec_object_entries(self.schema.referenced_types.objects@, namespace@),
    {
        let objects = &self.schema.referenced_types.objects;
        let mut r: Vec<String> = Vec::new();
        let mut i: usize = 0;
        while i < objects.len()
            invariant
                i <= objects.len(),
                objects == &self.schema.referenced_types.objects,
                views(r@) == spec_object_entries(objects@.take(i as int), namespace@),
            decreases objects.len() - i,
        {
            proof {
                assert(objects@.take(i + 1).drop_last() =~= objects@.take(i as int));
                assert(objects@.take(i + 1).last() == objects@[i as int]);
            }
            let typename = render_named_type(&GraphQLNamedType::Object(&objects[i]), &RenderContext::Typename { is_input_value: false });
            let mut entry = String::from_str("    \"");
            entry.append(objects[i].name.schema_name.as_str());
            entry.append("\": ");
            entry.append(namespace);
            entry.append(".Objects.");
            entry.append(typename.as_str());
            push_part(&mut r, entry);
            i = i + 1;
        }
        proof {
            assert(objects@.take(objects.len() as int) =~= objects@);
        }
        r
    }

    fn object_type_function(&self) -> (r: String)
        ensures
            r@ == spec_object_type_function(self.schema, self.config),
    {
        let access = self.access_control_renderer(Scope::Member).render();
        let ns = first_uppercased(self.config.schema_namespace());
        let entries = self.object_entries(ns.as_str());
        let dict = join_strings(&entries, ",\n");
        let mut r = String::from_str("  private static let objectTypeMap: [String: ");
        r.append(APOLLO_API_TARGET_NAME);
        r.append(".Object] = [\n");
        r.append(dict.as_str());
        r.append("\n  ]\n\n  ");
        r.append(access.as_str());
        r.append("static func objectType(forTypename typename: String) -> ");
        r.append(APOLLO_API_TARGET_NAME);
        r.append(".Object? {\n    objectTypeMap[typename]\n  }");
        r
    }

    fn typealiases(&self) -> (r: String)
        ensures
            r@ == spec_typealiases(self.config),
    {
        let pa = self.access_control_renderer(Scope::Parent).render();
        let ns = first_uppercased(self.config.schema_namespace());
        let mut r = copy_of(pa.as_str());
        r.append("typealias SelectionSet = ");
        r.append(ns.as_str());
        r.append("_SelectionSet\n\n");
        r.append(pa.as_str());
        r.append("typealias InlineFragment = ");
        r.append(ns.as_str());
        r.append("_InlineFragment\n\n");
        r.append(pa.as_str());
        r.append("typealias MutableSelectionSet = ");
        r.append(ns.as_str());
        r.append("_MutableSelectionSet\n\n");
        r.append(pa.as_str());
        r.append("typealias MutableInlineFragment = ");
        r.append(ns.as_str());
        r.append("_MutableInlineFragment");
        r
    }

    fn schema_metadata_enum(&self) -> (r: String)
        ensures
            r@ == spec_schema_metadata_enum(self.schema, self.config),
    {
        let pa = self.access_control_renderer(Scope::Parent).render();
        let ma = self.access_control_renderer(Scope::Member).render();
        let object_type_fn = self.object_type_function();
        let mut r = self.config.nonisolated_modifier();
        r.append(pa.as_str());
        r.append("enum SchemaMetadata: ");
        r.append(APOLLO_API_TARGET_NAME);
        r.append(".SchemaMetadata {\n  ");
        r.append(ma.as_str());
        r.append("static let configuration: any ");
        r.append(APOLLO_API_TARGET_NAME);
        r.append(".SchemaConfiguration.Type = SchemaConfiguration.self\n\n");
        r.append(object_type_fn.as_str());
        r.append("\n}");
        r
    }

    fn type_namespaces(&self) -> (r: String)
        ensures
            r@ == spec_type_namespaces(self.config),
    {
        let pa = self.access_control_renderer(Scope::Parent).render();
        let mut prefix = self.config.nonisolated_modifier();
        prefix.append(pa.as_str());
        let mut r = copy_of(prefix.as_str());
        r.append("enum Objects {}\n");
        r.append(prefix.as_str());
        r.append("enum Interfaces {}\n");
        r.append(prefix.as_str());
        r.append("enum Unions {}");
        r
    }
}

fn copy_of(s: &str) -> (r: String)
    ensures
        r@ == s@,
{
    String::from_str(s)
}

impl TemplateRenderer for SchemaMetadataTemplate {
    open spec fn spec_config(&self) -> ConfigurationContext {
        self.config
    }

    open spec fn spec_target(&self) -> TemplateTarget {
        TemplateTarget::SchemaFile(SchemaFileType::SchemaMetadata)
    }

    open spec fn spec_body(&self) -> Seq<char> {
        spec_schema_metadata_body(self.schema, self.config)
    }

    open spec fn spec_detached(&self) -> Option<Seq<char>> {
        spec_schema_metadata_detached(self.config)
    }

    fn config(&self) -> (r: &ConfigurationContext) {
        &self.config
    }

    fn target(&self) -> (r: TemplateTarget) {
        TemplateTarget::SchemaFile(SchemaFileType::SchemaMetadata)
    }

    fn render_header_template(&self, _non_fatal_error_recorder: &NonFatalErrorRecorder) -> (r: Option<String>) {
        standard_header_template()
    }

    fn render_detached_template(&self, _non_fatal_error_recorder: &NonFatalErrorRecorder) -> (r: Option<String>) {
        if self.config.output().schema_types.is_in_module() {
            return None;
        }
        let mut prefix = first_uppercased(self.config.schema_namespace());
        prefix.append("_");
        Some(self.protocol_definition(prefix.as_str()))
    }

    fn render_body_template(&self, _non_fatal_error_recorder: &NonFatalErrorRecorder) -> (r: String) {
        let mut parts: Vec<String> = Vec::new();
        proof {
            reveal_strlit("");
            assert(""@ =~= Seq::<char>::empty());
        }
        if !self.config.output().schema_types.is_in_module() {
            push_part(&mut parts, self.typealiases());
        } else {
            push_part(&mut parts, self.protocol_definition(""));
        }
        let ghost first = views(parts@);
        let documentation = match &self.schema.documentation {
            Some(d) => Some(d.as_str()),
            None => None,
        };
        proof {
            assert(opt_str_view(documentation) == opt_view(self.schema.documentation));
            reveal_strlit("");
        }
        push_opt_part(&mut parts, render_documentation(documentation, &self.config));
        let ghost with_doc = views(parts@);
        push_part(&mut parts, self.schema_metadata_enum());
        push_part(&mut parts, self.type_namespaces());
        proof {
            let c = self.config;
            let f = if !c.config.output.schema_types.spec_is_in_module() {
                spec_typealiases(c)
            } else {
                spec_protocol_definition(c, Seq::empty())
            };
            assert(first =~= seq![f]);
            assert(views(parts@) =~= seq![f] + opt_part(spec_rendered_documentation(opt_view(self.schema.documentation), c.config))
                + seq![spec_schema_metadata_enum(self.schema, c), spec_type_namespaces(c)]);
        }
        let mut r = join_strings(&parts, "\n\n");
        r.append("\n");
        r
    }
}

} // verus!
