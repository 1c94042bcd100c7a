//! Swift source rendering for Apollo iOS code generation: access control, naming, casing
//! and escaping rules, and the file layout of generated templates, with verified contracts.
use vstd::prelude::*;

pub mod config;
pub mod graphql;
pub mod ir;
pub mod pluralizer;
pub mod templates;
pub mod text;

verus! {
} // verus!
