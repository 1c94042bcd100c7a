//! How type references are rendered as Swift types: optionals, lists, enums wrapped in
//! `GraphQLEnum`, nullable input values wrapped in `GraphQLNullable`.
use vstd::prelude::*;

use crate::config::{ApolloCodegenConfiguration, SwiftKeywords, is_in, spec_is_in};
use crate::graphql::{GraphQLCompositeType, GraphQLNamedType, GraphQLType};
use crate::templates::rendering_helpers::graphql_name_rendering::{
    RenderContext, is_swift_type, render_named_type, spec_is_swift_type, spec_render_named_type,
};
use crate::templates::rendering_helpers::string_casing::{first_uppercased, spec_first_uppercased};
use crate::text::{copy_str, opt_str_view};

verus! {

/// The context a type reference is rendered in.
#[derive(Debug, Clone, Copy, PartialEq, Eq, Structural)]
pub enum TypeRenderContext {
    /// The type of a field of a selection set.
    SelectionSetField { force_non_null: bool },
    /// The type of a field of a test mock.
    TestMockField { force_non_null: bool },
    /// The type of an input value; an outermost nullable type is wrapped in
    /// `GraphQLNullable` in place of being optional.
    InputValue,
}

/// The named type of a composite type.
pub open spec fn spec_named_of_composite(c: &GraphQLCompositeType) -> GraphQLNamedType<'_> {
    match c {
        GraphQLCompositeType::Object(o) => GraphQLNamedType::Object(o),
        GraphQLCompositeType::Interface(i) => GraphQLNamedType::Interface(i),
        GraphQLCompositeType::Union(u) => GraphQLNamedType::Union(u),
    }
}

/// The type name of a named type in a test mock: an abstract type whose name is reserved
/// there is qualified by `MockObject`.
pub open spec fn spec_test_mock_field_type_name(t: GraphQLNamedType) -> Seq<char> {
    let typename = spec_render_named_type(t, RenderContext::Typename { is_input_value: false });
    if spec_is_in(SwiftKeywords::TEST_MOCK_FIELD_ABSTRACT_TYPE_NAMES_TO_NAMESPACE@, typename)
        && (t is Interface || t is Union) {
        "MockObject."@ + typename
    } else {
        typename
    }
}

/// The schema namespace and a dot.
pub open spec fn spec_namespace_prefix(config: ApolloCodegenConfiguration) -> Seq<char> {
    spec_first_uppercased(config.schema_namespace@) + "."@
}

/// The fully qualified name of a named type: composite types and Swift's own scalars are
/// not qualified; other types are qualified by the schema namespace, except input values of
/// operations that are generated into the schema module.
pub open spec fn spec_qualified_root_type_name(
    t: GraphQLNamedType,
    context: TypeRenderContext,
    replacing_name: Option<Seq<char>>,
    config: ApolloCodegenConfiguration,
) -> Seq<char> {
    let tname = match replacing_name {
        Some(r) => r,
        None => match context {
            TypeRenderContext::TestMockField { .. } => spec_test_mock_field_type_name(t),
            _ => spec_render_named_type(t, RenderContext::Typename { is_input_value: context is InputValue }),
        },
    };
    let prefix = match t {
        GraphQLNamedType::Object(_) | GraphQLNamedType::Interface(_) | GraphQLNamedType::Union(_) => Seq::empty(),
        GraphQLNamedType::Scalar(s) if spec_is_swift_type(*s) => Seq::empty(),
        _ => match context {
            TypeRenderContext::InputValue => if !config.output.operations.spec_is_in_module() {
                spec_namespace_prefix(config)
            } else {
                Seq::empty()
            },
            _ => spec_namespace_prefix(config),
        },
    };
    prefix + tname
}

/// `name` wrapped in `GraphQLEnum` when the type is an enum.
pub open spec fn spec_wrapped_in_graphql_enum(name: Seq<char>, t: GraphQLType) -> Seq<char> {
    if t is Enum {
        "GraphQLEnum<"@ + name + ">"@
    } else {
        name
    }
}

/// `name` made optional unless it is contained in a non-null type.
pub open spec fn spec_optional_unless(name: Seq<char>, contained_in_non_null: bool) -> Seq<char> {
    if contained_in_non_null {
        name
    } else {
        name + "?"@
    }
}

/// A type reference rendered as a Swift type: named types by their qualified name, lists
/// in brackets, and every type optional unless it stands in a non-null type.
pub open spec fn spec_render_type(
    t: GraphQLType,
    context: TypeRenderContext,
    contained_in_non_null: bool,
    replacing_name: Option<Seq<char>>,
    config: ApolloCodegenConfiguration,
) -> Seq<char>
    decreases t,
{
    match t {
        GraphQLType::NonNull(of_type) => spec_render_type(*of_type, context, true, replacing_name, config),
        GraphQLType::List(of_type) => spec_optional_unless(
            "["@ + spec_render_type(*of_type, context, false, replacing_name, config) + "]"@,
            contained_in_non_null,
        ),
        GraphQLType::Entity(c) => spec_optional_unless(
            spec_wrapped_in_graphql_enum(spec_qualified_root_type_name(spec_named_of_composite(&c), context, replacing_name, config), t),
            contained_in_non_null,
        ),
        GraphQLType::Scalar(s) => spec_optional_unless(
            spec_wrapped_in_graphql_enum(spec_qualified_root_type_name(GraphQLNamedType::Scalar(&s), context, replacing_name, config), t),
            contained_in_non_null,
        ),
        GraphQLType::Enum(e) => spec_optional_unless(
            spec_wrapped_in_graphql_enum(spec_qualified_root_type_name(GraphQLNamedType::Enum(&e), context, replacing_name, config), t),
            contained_in_non_null,
        ),
        GraphQLType::InputObject(i) => spec_optional_unless(
            spec_wrapped_in_graphql_enum(spec_qualified_root_type_name(GraphQLNamedType::InputObject(&i), context, replacing_name, config), t),
            contained_in_non_null,
        ),
    }
}

/// `name` wrapped in `GraphQLNullable` when the value may be null.
pub open spec fn spec_nullable_unless(name: Seq<char>, in_nullable: bool) -> Seq<char> {
    if in_nullable {
        "GraphQLNullable<"@ + name + ">"@
    } else {
        name
    }
}

/// A type rendered as an input value: a nullable outermost type is wrapped in
/// `GraphQLNullable`.
pub open spec fn spec_render_as_input_value(t: GraphQLType, in_nullable: bool, config: ApolloCodegenConfiguration) -> Seq<char>
    decreases t,
{
    match t {
        GraphQLType::NonNull(of_type) => spec_render_as_input_value(*of_type, false, config),
        GraphQLType::List(of_type) => spec_nullable_unless(
            "["@ + spec_render_type(*of_type, TypeRenderContext::InputValue, false, None, config) + "]"@,
            in_nullable,
        ),
        _ => spec_nullable_unless(spec_render_type(t, TypeRenderContext::InputValue, true, None, config), in_nullable),
    }
}

/// A type rendered in a context.
pub open spec fn spec_rendered(
    t: GraphQLType,
    context: TypeRenderContext,
    replacing_name: Option<Seq<char>>,
    config: ApolloCodegenConfiguration,
) -> Seq<char> {
    match context {
        TypeRenderContext::SelectionSetField { force_non_null } => spec_render_type(
            t, TypeRenderContext::SelectionSetField { force_non_null: false }, force_non_null, replacing_name, config),
        TypeRenderContext::TestMockField { force_non_null } => spec_render_type(
            t, TypeRenderContext::TestMockField { force_non_null: false }, force_non_null, replacing_name, config),
        TypeRenderContext::InputValue => spec_render_as_input_value(t, true, config),
    }
}

/// Renders a type reference as a Swift type for the given context; `replacing_name`, when
/// given, stands in place of the named type's own name.
pub fn rendered(
    graphql_type: &GraphQLType,
    context: &TypeRenderContext,
    replacing_name: Option<&str>,
    config: &ApolloCodegenConfiguration,
) -> (r: String)
    ensures
        r@ == spec_rendered(*graphql_type, *context, opt_str_view(replacing_name), *config),
{
    match context {
        TypeRenderContext::SelectionSetField { force_non_null } => render_type(
            graphql_type,
            &TypeRenderContext::SelectionSetField { force_non_null: false },
            *force_non_null,
            replacing_name,
            config,
        ),
        TypeRenderContext::TestMockField { force_non_null } => render_type(
            graphql_type,
            &TypeRenderContext::TestMockField { force_non_null: false },
            *force_non_null,
            replacing_name,
            config,
        ),
        TypeRenderContext::InputValue => render_as_input_value(graphql_type, true, config),
    }
}

fn nullable_unless(name: String, in_nullable: bool) -> (r: String)
    ensures
        r@ == spec_nullable_unless(name@, in_nullable),
{
    if in_nullable {
        let mut r = String::from_str("GraphQLNullable<");
        r.append(name.as_str());
        r.append(">");
        r
    } else {
        name
    }
}

/// Renders a type as an input value, wrapping a nullable type in `GraphQLNullable`.
pub fn render_as_input_value(graphql_type: &GraphQLType, in_nullable: bool, config: &ApolloCodegenConfiguration) -> (r: String)
    ensures
        r@ == spec_render_as_input_value(*graphql_type, in_nullable, *config),
    decreases graphql_type,
{
    match graphql_type {
        GraphQLType::NonNull(of_type) => render_as_input_value(of_type, false, config),
        GraphQLType::List(of_type) => {
            let mut tname = String::from_str("[");
            let inner = render_type(of_type, &TypeRenderContext::InputValue, false, None, config);
            tname.append(inner.as_str());
            tname.append("]");
            nullable_unless(tname, in_nullable)
        },
        _ => {
            let tname = render_type(graphql_type, &TypeRenderContext::InputValue, true, None, config);
            nullable_unless(tname, in_nullable)
        },
    }
}

fn optional_unless(mut name: String, contained_in_non_null: bool) -> (r: String)
    ensures
        r@ == spec_optional_unless(name@, contained_in_non_null),
{
    if !contained_in_non_null {
        name.append("?");
    }
    name
}

fn wrapped_in_graphql_enum(tname: String, graphql_type: &GraphQLType) -> (r: String)
    ensures
        r@ == spec_wrapped_in_graphql_enum(tname@, *graphql_type),
{
    match graphql_type {
        GraphQLType::Enum(_) => {
            let mut r = String::from_str("GraphQLEnum<");
            r.append(tname.as_str());
            r.append(">");
            r
        },
        _ => tname,
    }
}

fn named_type_from_composite(composite: &GraphQLCompositeType) -> (r: GraphQLNamedType<'_>)
    ensures
        r == spec_named_of_composite(composite),
{
    match composite {
        GraphQLCompositeType::Object(o) => GraphQLNamedType::Object(o),
        GraphQLCompositeType::Interface(i) => GraphQLNamedType::Interface(i),
        GraphQLCompositeType::Union(u) => GraphQLNamedType::Union(u),
    }
}

fn render_named_root(
    named_type: &GraphQLNamedType,
    graphql_type: &GraphQLType,
    context: &TypeRenderContext,
    contained_in_non_null: bool,
    replacing_name: Option<&str>,
    config: &ApolloCodegenConfiguration,
) -> (r: String)
    ensures
        r@ == spec_optional_unless(
            spec_wrapped_in_graphql_enum(
                spec_qualified_root_type_name(*named_type, *context, opt_str_view(replacing_name), *config),
                *graphql_type,
            ),
            contained_in_non_null,
        ),
{
    let tname = qualified_root_type_name(named_type, context, replacing_name, config);
    let tname = wrapped_in_graphql_enum(tname, graphql_type);
    optional_unless(tname, contained_in_non_null)
}

fn render_type(
    graphql_type: &GraphQLType,
    context: &TypeRenderContext,
    contained_in_non_null: bool,
    replacing_name: Option<&str>,
    config: &ApolloCodegenConfiguration,
) -> (r: String)
    ensures
        r@ == spec_render_type(*graphql_type, *context, contained_in_non_null, opt_str_view(replacing_name), *config),
    decreases graphql_type,
{
    match graphql_type {
        GraphQLType::Entity(composite) => {
            let named = named_type_from_composite(composite);
            render_named_root(&named, graphql_type, context, contained_in_non_null, replacing_name, config)
        },
        GraphQLType::Scalar(scalar) => {
            render_named_root(&GraphQLNamedType::Scalar(scalar), graphql_type, context, contained_in_non_null, replacing_name, config)
        },
        GraphQLType::Enum(enum_type) => {
            render_named_root(&GraphQLNamedType::Enum(enum_type), graphql_type, context, contained_in_non_null, replacing_name, config)
        },
        GraphQLType::InputObject(input_obj) => {
            render_named_root(&GraphQLNamedType::InputObject(input_obj), graphql_type, context, contained_in_non_null, replacing_name, config)
        },
        GraphQLType::NonNull(of_type) => render_type(of_type, context, true, replacing_name, config),
        GraphQLType::List(of_type) => {
            let rendered = render_type(of_type, context, false, replacing_name, config);
            let mut inner = String::from_str("[");
            inner.append(rendered.as_str());
            inner.append("]");
            optional_unless(inner, contained_in_non_null)
        },
    }
}

/// The type name of a named type in a test mock; `Any` as an interface or union is
/// qualified by `MockObject`.
pub fn test_mock_field_type_name(named_type: &GraphQLNamedType, config: &ApolloCodegenConfiguration) -> (r: String)
    ensures
        r@ == spec_test_mock_field_type_name(*named_type),
{
    let typename = render_named_type(named_type, &RenderContext::Typename { is_input_value: false });
    if is_in(&SwiftKeywords::TEST_MOCK_FIELD_ABSTRACT_TYPE_NAMES_TO_NAMESPACE, typename.as_str()) {
        match named_type {
            GraphQLNamedType::Interface(_) | GraphQLNamedType::Union(_) => {
                let mut r = String::from_str("MockObject.");
                r.append(typename.as_str());
                return r;
            },
            _ => {},
        }
    }
    typename
}

fn namespace_prefix(config: &ApolloCodegenConfiguration) -> (r: String)
    ensures
        r@ == spec_namespace_prefix(*config),
{
    let mut r = first_uppercased(config.schema_namespace.as_str());
    r.append(".");
    r
}

fn qualified_root_type_name(
    named_type: &GraphQLNamedType,
    context: &TypeRenderContext,
    replacing_name: Option<&str>,
    config: &ApolloCodegenConfiguration,
) -> (r: String)
    ensures
        r@ == spec_qualified_root_type_name(*named_type, *context, opt_str_view(replacing_name), *config),
{
    let tname = match replacing_name {
        Some(s) => copy_str(s),
        None => match context {
            TypeRenderContext::TestMockField { .. } => test_mock_field_type_name(named_type, config),
            TypeRenderContext::InputValue => render_named_type(named_type, &RenderContext::Typename { is_input_value: true }),
            TypeRenderContext::SelectionSetField { .. } => render_named_type(named_type, &RenderContext::Typename { is_input_value: false }),
        },
    };
    let mut r = match named_type {
        GraphQLNamedType::Object(_) | GraphQLNamedType::Interface(_) | GraphQLNamedType::Union(_) => String::new(),
        GraphQLNamedType::Scalar(scalar) => {
            if is_swift_type(scalar) {
                String::new()
            } else {
                match context {
                    TypeRenderContext::InputValue => if !config.output.operations.is_in_module() {
                        namespace_prefix(config)
                    } else {
                        String::new()
                    },
                    _ => namespace_prefix(config),
                }
            }
        },
        _ => match context {
            TypeRenderContext::InputValue => if !config.output.operations.is_in_module() {
                namespace_prefix(config)
            } else {
                String::new()
            },
            _ => namespace_prefix(config),
        },
    };
    r.append(tname.as_str());
    r
}

} // verus!
