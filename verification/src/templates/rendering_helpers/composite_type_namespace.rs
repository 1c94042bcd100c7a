//! The namespace that generated schema types of each composite kind are declared in.
use vstd::prelude::*;

use crate::graphql::GraphQLCompositeType;

verus! {

/// The schema types namespace of a composite type's kind.
pub open spec fn spec_schema_types_namespace(c: GraphQLCompositeType) -> Seq<char> {
    match c {
        GraphQLCompositeType::Object(_) => "Objects"@,
        GraphQLCompositeType::Interface(_) => "Interfaces"@,
        GraphQLCompositeType::Union(_) => "Unions"@,
    }
}

/// The schema types namespace of a composite type: `Objects`, `Interfaces` or `Unions`.
pub fn schema_types_namespace(composite_type: &GraphQLCompositeType) -> (r: &'static str)
    ensures
        r@ == spec_schema_types_namespace(*composite_type),
{
    match composite_type {
        GraphQLCompositeType::Object(_) => "Objects",
        GraphQLCompositeType::Interface(_) => "Interfaces",
        GraphQLCompositeType::Union(_) => "Unions",
    }
}

} // verus!
