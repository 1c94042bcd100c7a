//! Schema file templates, and the references to schema types that they render.
pub mod custom_scalar_template;
pub mod enum_template;
pub mod input_object_template;
pub mod interface_template;
pub mod object_template;
pub mod one_of_input_object_template;
pub mod schema_configuration_template;
pub mod schema_metadata_template;
pub mod schema_module_namespace_template;
pub mod union_template;

use vstd::prelude::*;

use crate::graphql::{GraphQLInterfaceType, GraphQLNamedType, GraphQLObjectType};
use crate::templates::rendering_helpers::graphql_name_rendering::{
    RenderContext, render_named_type, spec_render_named_type,
};
use crate::templates::rendering_helpers::string_casing::{first_uppercased, spec_first_uppercased};
use crate::templates::ConfigurationContext;
use crate::templates::rendering_helpers::template_blocks::{quoted, render_list_of_quoted_strings, spec_bracketed_list};
use crate::text::{push_part, views};

verus! {

/// The schema namespace and a dot when the schema types are not a module of their own,
/// else nothing.
pub open spec fn spec_schema_namespace_prefix(config: ConfigurationContext) -> Seq<char> {
    if !config.config.output.schema_types.spec_is_in_module() {
        spec_first_uppercased(config.config.schema_namespace@) + "."@
    } else {
        Seq::empty()
    }
}

/// The prefix that qualifies schema type references by the schema namespace where needed.
pub fn schema_namespace_prefix(config: &ConfigurationContext) -> (r: String)
    ensures
        r@ == spec_schema_namespace_prefix(*config),
{
    if !config.output().schema_types.is_in_module() {
        let mut r = first_uppercased(config.schema_namespace());
        r.append(".");
        r
    } else {
        String::new()
    }
}

/// The Swift type name of an object.
pub open spec fn spec_object_name(o: GraphQLObjectType) -> Seq<char> {
    spec_render_named_type(GraphQLNamedType::Object(&o), RenderContext::Typename { is_input_value: false })
}

/// The Swift type name of an interface.
pub open spec fn spec_interface_name(i: GraphQLInterfaceType) -> Seq<char> {
    spec_render_named_type(GraphQLNamedType::Interface(&i), RenderContext::Typename { is_input_value: false })
}

/// References to the generated object types: `prefix`, `Objects.`, the type name and
/// `.self`, for each object.
pub open spec fn spec_object_references(objects: Seq<GraphQLObjectType>, prefix: Seq<char>) -> Seq<Seq<char>> {
    objects.map_values(|o: GraphQLObjectType| prefix + "Objects."@ + spec_object_name(o) + ".self"@)
}

/// References to the generated object types of `objects`.
pub fn object_references(objects: &Vec<GraphQLObjectType>, prefix: &str) -> (r: Vec<String>)
    ensures
        views(r@) == spec_object_references(objects@, prefix@),
{
    let mut r: Vec<String> = Vec::new();
    let mut i: usize = 0;
    while i < objects.len()
        invariant
            i <= objects.len(),
            views(r@) == spec_object_references(objects@, prefix@).take(i as int),
        decreases objects.len() - i,
    {
        let name = render_named_type(&GraphQLNamedType::Object(&objects[i]), &RenderContext::Typename { is_input_value: false });
        let mut item = String::from_str(prefix);
        item.append("Objects.");
        item.append(name.as_str());
        item.append(".self");
        proof {
            assert(item@ =~= spec_object_references(objects@, prefix@)[i as int]);
            assert(spec_object_references(objects@, prefix@).take(i + 1)
                =~= spec_object_references(objects@, prefix@).take(i as int).push(item@));
        }
        push_part(&mut r, item);
        i = i + 1;
    }
    proof {
        assert(spec_object_references(objects@, prefix@).take(objects.len() as int) =~= spec_object_references(objects@, prefix@));
    }
    r
}

/// The names of the objects, each in double quotes.
pub open spec fn spec_quoted_object_names(objects: Seq<GraphQLObjectType>) -> Seq<Seq<char>> {
    objects.map_values(|o: GraphQLObjectType| "\""@ + spec_object_name(o) + "\""@)
}

/// The Swift type names of `objects`, each in double quotes.
pub fn quoted_object_names(objects: &Vec<GraphQLObjectType>) -> (r: Vec<String>)
    ensures
        views(r@) == spec_quoted_object_names(objects@),
{
    let mut r: Vec<String> = Vec::new();
    let mut i: usize = 0;
    while i < objects.len()
        invariant
            i <= objects.len(),
            views(r@) == spec_quoted_object_names(objects@).take(i as int),
        decreases objects.len() - i,
    {
        let name = render_named_type(&GraphQLNamedType::Object(&objects[i]), &RenderContext::Typename { is_input_value: false });
        let mut item = String::from_str("\"");
        item.append(name.as_str());
        item.append("\"");
        proof {
            assert(item@ =~= spec_quoted_object_names(objects@)[i as int]);
            assert(spec_quoted_object_names(objects@).take(i + 1)
                =~= spec_quoted_object_names(objects@).take(i as int).push(item@));
        }
        push_part(&mut r, item);
        i = i + 1;
    }
    proof {
        assert(spec_quoted_object_names(objects@).take(objects.len() as int) =~= spec_quoted_object_names(objects@));
    }
    r
}

/// References to the generated interface types: `prefix`, `Interfaces.`, the type name
/// and `.self`, for each interface.
pub open spec fn spec_interface_references(interfaces: Seq<GraphQLInterfaceType>, prefix: Seq<char>) -> Seq<Seq<char>> {
    interfaces.map_values(|i: GraphQLInterfaceType| prefix + "Interfaces."@ + spec_interface_name(i) + ".self"@)
}

/// References to the generated interface types of `interfaces`.
pub fn interface_references(interfaces: &Vec<GraphQLInterfaceType>, prefix: &str) -> (r: Vec<String>)
    ensures
        views(r@) == spec_interface_references(interfaces@, prefix@),
{
    let mut r: Vec<String> = Vec::new();
    let mut i: usize = 0;
    while i < interfaces.len()
        invariant
            i <= interfaces.len(),
            views(r@) == spec_interface_references(interfaces@, prefix@).take(i as int),
        decreases interfaces.len() - i,
    {
        let name = render_named_type(&GraphQLNamedType::Interface(&interfaces[i]), &RenderContext::Typename { is_input_value: false });
        let mut item = String::from_str(prefix);
        item.append("Interfaces.");
        item.append(name.as_str());
        item.append(".self");
        proof {
            assert(item@ =~= spec_interface_references(interfaces@, prefix@)[i as int]);
            assert(spec_interface_references(interfaces@, prefix@).take(i + 1)
                =~= spec_interface_references(interfaces@, prefix@).take(i as int).push(item@));
        }
        push_part(&mut r, item);
        i = i + 1;
    }
    proof {
        assert(spec_interface_references(interfaces@, prefix@).take(interfaces.len() as int) =~= spec_interface_references(interfaces@, prefix@));
    }
    r
}

/// Key fields as rendered: `nil` when there are none, else the quoted field names as a
/// bracketed list.
pub open spec fn spec_key_fields(key_fields: Option<Vec<String>>) -> Seq<char> {
    match key_fields {
        Some(fields) => if fields@.len() == 0 {
            "nil"@
        } else {
            spec_bracketed_list(views(fields@).map_values(|s: Seq<char>| quoted(s)))
        },
        None => "nil"@,
    }
}

/// Renders key fields as `spec_key_fields` describes.
pub fn render_key_fields(key_fields: &Option<Vec<String>>) -> (r: String)
    ensures
        r@ == spec_key_fields(*key_fields),
{
    match key_fields {
        None => String::from_str("nil"),
        Some(fields) => {
            if fields.len() == 0 {
                String::from_str("nil")
            } else {
                render_list_of_quoted_strings(fields.as_slice())
            }
        },
    }
}

} // verus!
