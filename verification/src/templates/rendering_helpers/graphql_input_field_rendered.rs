//! How the type of an input object field is rendered.
use vstd::prelude::*;

use crate::config::ApolloCodegenConfiguration;
use crate::graphql::GraphQLInputField;
use crate::templates::rendering_helpers::graphql_type_rendered::{
    TypeRenderContext, rendered, spec_rendered,
};

verus! {

/// Whether the field's type admits null.
pub open spec fn spec_field_is_nullable(field: GraphQLInputField) -> bool {
    !(field.type_ is NonNull)
}

/// The field's type rendered as an input value, optional when the type is non-null but the
/// field has a default value, with ` = nil` when asked for and the field may be left out.
pub open spec fn spec_render_input_value_type(field: GraphQLInputField, include_default: bool, config: ApolloCodegenConfiguration) -> Seq<char> {
    let nullable = spec_field_is_nullable(field);
    let has_default = field.default_value is Some;
    spec_rendered(field.type_, TypeRenderContext::InputValue, None, config)
        + (if !nullable && has_default { "?"@ } else { Seq::empty() })
        + (if include_default && (nullable || has_default) { " = nil"@ } else { Seq::empty() })
}

/// Renders the Swift type of an input field.
pub fn render_input_value_type(field: &GraphQLInputField, include_default: bool, config: &ApolloCodegenConfiguration) -> (r: String)
    ensures
        r@ == spec_render_input_value_type(*field, include_default, *config),
{
    let mut r = rendered(&field.type_, &TypeRenderContext::InputValue, None, config);
    let ghost type_string = r@;
    if is_swift_optional(field) {
        r.append("?");
    }
    let ghost with_optional = r@;
    if include_default && has_swift_nil_default(field) {
        r.append(" = nil");
    }
    proof {
        assert(with_optional =~= type_string + (if !spec_field_is_nullable(*field) && field.default_value is Some {
            "?"@
        } else {
            Seq::empty()
        }));
        assert(r@ =~= with_optional + (if include_default && (spec_field_is_nullable(*field) || field.default_value is Some) {
            " = nil"@
        } else {
            Seq::empty()
        }));
    }
    r
}

fn is_swift_optional(field: &GraphQLInputField) -> (r: bool)
    ensures
        r == (!spec_field_is_nullable(*field) && field.default_value is Some),
{
    !is_nullable(field) && has_default_value(field)
}

fn has_swift_nil_default(field: &GraphQLInputField) -> (r: bool)
    ensures
        r == (spec_field_is_nullable(*field) || field.default_value is Some),
{
    is_nullable(field) || has_default_value(field)
}

/// Whether the field's type admits null (it is not a non-null type).
pub fn is_nullable(field: &GraphQLInputField) -> (r: bool)
    ensures
        r == spec_field_is_nullable(*field),
{
    field.type_.is_nullable()
}

/// Whether the field has a default value.
pub fn has_default_value(field: &GraphQLInputField) -> (r: bool)
    ensures
        r == field.default_value is Some,
{
    field.default_value.is_some()
}

} // verus!
