//! Names used throughout generated code.
use vstd::prelude::*;

verus! {

/// The name of the Apollo API target that generated code imports.
pub const APOLLO_API_TARGET_NAME: &'static str = "ApolloAPI";

} // verus!
