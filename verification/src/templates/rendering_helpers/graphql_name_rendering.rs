//! How the names of schema types, enum values and input fields are rendered in Swift.
use vstd::prelude::*;

use crate::config::{ApolloCodegenConfiguration, EnumCases, InputObjects, SwiftKeywords, is_in, spec_is_in};
use crate::graphql::{
    GraphQLEnumValue, GraphQLInputField, GraphQLNamedType, GraphQLScalarType, spec_is_custom_scalar,
    spec_named_type_name,
};
use crate::templates::rendering_helpers::string_casing::{first_uppercased, spec_first_uppercased};
use crate::templates::rendering_helpers::string_swift_name_escaping::{
    as_enum_case_name, convert_to_camel_case, escape_if, spec_convert_to_camel_case, spec_escape_if,
};
use crate::text::{copy_str, str_eq};

verus! {

/// The context a named type is rendered in.
#[derive(Debug, Clone, Copy, PartialEq, Eq, Structural)]
pub enum RenderContext {
    /// As the name of the file it is generated into.
    Filename,
    /// As a Swift type name, possibly of an input value.
    Typename { is_input_value: bool },
}

/// The Swift name of a type: the built-in scalars map to Swift's types (`Int` to `Int32`
/// for input values); every other name is kept.
pub open spec fn spec_swift_name_for_type(t: GraphQLNamedType, is_input_value: bool) -> Seq<char> {
    let n = spec_named_type_name(t).schema_name@;
    if n == "Boolean"@ {
        "Bool"@
    } else if n == "Float"@ {
        "Double"@
    } else if n == "Int"@ {
        if is_input_value {
            "Int32"@
        } else {
            "Int"@
        }
    } else {
        n
    }
}

/// The suffix that keeps a type name from colliding with a reserved name.
pub open spec fn spec_typename_suffix(t: GraphQLNamedType) -> Seq<char> {
    match t {
        GraphQLNamedType::Enum(_) => "_Enum"@,
        GraphQLNamedType::InputObject(_) => "_InputObject"@,
        GraphQLNamedType::Interface(_) => "_Interface"@,
        GraphQLNamedType::Object(_) => "_Object"@,
        GraphQLNamedType::Scalar(_) => "_Scalar"@,
        GraphQLNamedType::Union(_) => "_Union"@,
    }
}

/// `name` first uppercased, and suffixed when that is a reserved type name.
pub open spec fn spec_suffixed_type_name(name: Seq<char>, t: GraphQLNamedType) -> Seq<char> {
    let u = spec_first_uppercased(name);
    if spec_is_in(SwiftKeywords::TYPE_NAMES_TO_SUFFIX@, u) {
        u + spec_typename_suffix(t)
    } else {
        u
    }
}

/// The Swift type name of a type: built-in scalars (and `ID`) by their Swift name, every
/// other type by its name first uppercased and suffixed when reserved.
pub open spec fn spec_render_type_name(t: GraphQLNamedType, is_input_value: bool) -> Seq<char> {
    let swift_name = spec_swift_name_for_type(t, is_input_value);
    match t {
        GraphQLNamedType::Scalar(s) => if !spec_is_custom_scalar(*s) || s.name.schema_name@ == "ID"@ {
            swift_name
        } else {
            spec_suffixed_type_name(swift_name, t)
        },
        _ => spec_suffixed_type_name(swift_name, t),
    }
}

/// A named type rendered in a context: its custom name when it has one, else its schema
/// name for a file name and its Swift type name for a type name.
pub open spec fn spec_render_named_type(t: GraphQLNamedType, context: RenderContext) -> Seq<char> {
    match spec_named_type_name(t).custom_name {
        Some(c) => c@,
        None => match context {
            RenderContext::Filename => spec_named_type_name(t).schema_name@,
            RenderContext::Typename { is_input_value } => spec_render_type_name(t, is_input_value),
        },
    }
}

/// The Swift name of a type, with the built-in scalars mapped to Swift's types.
pub fn swift_name_for_type(named_type: &GraphQLNamedType, is_input_value: bool) -> (r: String)
    ensures
        r@ == spec_swift_name_for_type(*named_type, is_input_value),
{
    let n = named_type.name().schema_name.as_str();
    proof {
        reveal_strlit("Boolean");
        reveal_strlit("Float");
        reveal_strlit("Int");
    }
    if str_eq(n, "Boolean") {
        String::from_str("Bool")
    } else if str_eq(n, "Float") {
        String::from_str("Double")
    } else if str_eq(n, "Int") {
        if is_input_value {
            String::from_str("Int32")
        } else {
            String::from_str("Int")
        }
    } else {
        copy_str(n)
    }
}

fn typename_suffix(named_type: &GraphQLNamedType) -> (r: &'static str)
    ensures
        r@ == spec_typename_suffix(*named_type),
{
    match named_type {
        GraphQLNamedType::Enum(_) => "_Enum",
        GraphQLNamedType::InputObject(_) => "_InputObject",
        GraphQLNamedType::Interface(_) => "_Interface",
        GraphQLNamedType::Object(_) => "_Object",
        GraphQLNamedType::Scalar(_) => "_Scalar",
        GraphQLNamedType::Union(_) => "_Union",
    }
}

fn suffixed_type_name(name: &str, named_type: &GraphQLNamedType) -> (r: String)
    ensures
        r@ == spec_suffixed_type_name(name@, *named_type),
{
    let mut u = first_uppercased(name);
    if is_in(&SwiftKeywords::TYPE_NAMES_TO_SUFFIX, u.as_str()) {
        u.append(typename_suffix(named_type));
    }
    u
}

fn render_type_name(named_type: &GraphQLNamedType, is_input_value: bool) -> (r: String)
    ensures
        r@ == spec_render_type_name(*named_type, is_input_value),
{
    let swift_name = swift_name_for_type(named_type, is_input_value);
    match named_type {
        GraphQLNamedType::Scalar(scalar) => {
            proof {
                reveal_strlit("ID");
            }
            if !scalar.is_custom_scalar() || str_eq(scalar.name.schema_name.as_str(), "ID") {
                swift_name
            } else {
                suffixed_type_name(swift_name.as_str(), named_type)
            }
        },
        _ => suffixed_type_name(swift_name.as_str(), named_type),
    }
}

/// Renders a named type in the given context.
pub fn render_named_type(named_type: &GraphQLNamedType, context: &RenderContext) -> (r: String)
    ensures
        r@ == spec_render_named_type(*named_type, *context),
{
    match &named_type.name().custom_name {
        Some(custom_name) => return copy_str(custom_name.as_str()),
        None => {},
    }
    match context {
        RenderContext::Filename => copy_str(named_type.name().schema_name.as_str()),
        RenderContext::Typename { is_input_value } => render_type_name(named_type, *is_input_value),
    }
}

/// Whether a scalar is one that Swift has a type of its own for.
pub open spec fn spec_is_swift_type(scalar: GraphQLScalarType) -> bool {
    let n = scalar.name.schema_name@;
    n == "String"@ || n == "Int"@ || n == "Float"@ || n == "Boolean"@
}

/// Whether a scalar is `String`, `Int`, `Float` or `Boolean`, which Swift has types for.
pub fn is_swift_type(scalar: &GraphQLScalarType) -> (r: bool)
    ensures
        r == spec_is_swift_type(*scalar),
{
    let n = scalar.name.schema_name.as_str();
    proof {
        reveal_strlit("String");
        reveal_strlit("Int");
        reveal_strlit("Float");
        reveal_strlit("Boolean");
    }
    str_eq(n, "String") || str_eq(n, "Int") || str_eq(n, "Float") || str_eq(n, "Boolean")
}

// ---------------------------------------------------------------------------
// Enum values
// ---------------------------------------------------------------------------

/// The context an enum value is rendered in.
#[derive(Debug, Clone, Copy, PartialEq, Eq, Structural)]
pub enum EnumRenderContext {
    /// As the name of a Swift enum case.
    EnumCase,
    /// As the raw value of a Swift enum case.
    EnumRawValue,
}

/// An enum value as a Swift case name: its name, converted as the configuration asks, and
/// escaped when it is a keyword.
pub open spec fn spec_render_enum_case(value: GraphQLEnumValue, config: ApolloCodegenConfiguration) -> Seq<char> {
    let n = value.name.schema_name@;
    match config.options.conversion_strategies.enum_cases {
        EnumCases::Unchanged => spec_escape_if(n, SwiftKeywords::FIELD_ACCESSOR_NAMES_TO_ESCAPE@),
        EnumCases::CamelCase => spec_escape_if(spec_convert_to_camel_case(n), SwiftKeywords::FIELD_ACCESSOR_NAMES_TO_ESCAPE@),
    }
}

/// An enum value rendered in a context: the raw value is always the schema name; a case
/// name is the custom name when there is one.
pub open spec fn spec_render_enum_value(value: GraphQLEnumValue, context: EnumRenderContext, config: ApolloCodegenConfiguration) -> Seq<char> {
    match context {
        EnumRenderContext::EnumRawValue => value.name.schema_name@,
        EnumRenderContext::EnumCase => match value.name.custom_name {
            Some(c) => c@,
            None => spec_render_enum_case(value, config),
        },
    }
}

fn render_enum_case(value: &GraphQLEnumValue, config: &ApolloCodegenConfiguration) -> (r: String)
    ensures
        r@ == spec_render_enum_case(*value, *config),
{
    match config.options.conversion_strategies.enum_cases {
        EnumCases::Unchanged => as_enum_case_name(value.name.schema_name.as_str()),
        EnumCases::CamelCase => {
            let camel = convert_to_camel_case(value.name.schema_name.as_str());
            as_enum_case_name(camel.as_str())
        },
    }
}

/// Renders an enum value in the given context.
pub fn render_enum_value(value: &GraphQLEnumValue, context: EnumRenderContext, config: &ApolloCodegenConfiguration) -> (r: String)
    ensures
        r@ == spec_render_enum_value(*value, context, *config),
{
    match &value.name.custom_name {
        Some(custom_name) => {
            if context != EnumRenderContext::EnumRawValue {
                return copy_str(custom_name.as_str());
            }
        },
        None => {},
    }
    match context {
        EnumRenderContext::EnumCase => render_enum_case(value, config),
        EnumRenderContext::EnumRawValue => copy_str(value.name.schema_name.as_str()),
    }
}

// ---------------------------------------------------------------------------
// Input fields
// ---------------------------------------------------------------------------

/// An input field's Swift property name: its custom name when it has one, else its schema
/// name converted as the configuration asks and escaped when it is a keyword.
pub open spec fn spec_render_input_field(field: GraphQLInputField, config: ApolloCodegenConfiguration) -> Seq<char> {
    match field.name.custom_name {
        Some(c) => c@,
        None => {
            let n = field.name.schema_name@;
            let converted = match config.options.conversion_strategies.input_objects {
                InputObjects::Unchanged => n,
                InputObjects::CamelCase => spec_convert_to_camel_case(n),
            };
            spec_escape_if(converted, SwiftKeywords::FIELD_ACCESSOR_NAMES_TO_ESCAPE@)
        },
    }
}

fn render_input_field_name(field: &GraphQLInputField, config: &ApolloCodegenConfiguration) -> (r: String)
    requires
        field.name.custom_name is None,
    ensures
        r@ == spec_render_input_field(*field, *config),
{
    let typename = match config.options.conversion_strategies.input_objects {
        InputObjects::Unchanged => copy_str(field.name.schema_name.as_str()),
        InputObjects::CamelCase => convert_to_camel_case(field.name.schema_name.as_str()),
    };
    escape_if(typename.as_str(), &SwiftKeywords::FIELD_ACCESSOR_NAMES_TO_ESCAPE)
}

/// Renders an input field's name as a Swift property name.
pub fn render_input_field(field: &GraphQLInputField, config: &ApolloCodegenConfiguration) -> (r: String)
    ensures
        r@ == spec_render_input_field(*field, *config),
{
    match &field.name.custom_name {
        Some(custom_name) => copy_str(custom_name.as_str()),
        None => render_input_field_name(field, config),
    }
}

} // verus!
