//! Names of generated definitions.
use vstd::prelude::*;

use crate::templates::rendering_helpers::string_casing::{
    first_cased_index, first_uppercased, is_cased, lemma_first_cased_index_props,
    spec_first_uppercased,
};
use crate::templates::ConfigurationContext;
use crate::text::{ends_with, str_eq, str_ends_with};

verus! {

/// The selection set type of definitions in the schema namespace.
pub open spec fn spec_rendered_selection_set_type(namespace: Seq<char>, is_mutable: bool) -> Seq<char> {
    spec_first_uppercased(namespace) + seq!['.'] + (if is_mutable {
        "Mutable"@
    } else {
        Seq::empty()
    }) + "SelectionSet"@
}

/// Returns the selection set type of a definition: `<Namespace>.SelectionSet`, or
/// `<Namespace>.MutableSelectionSet` for a mutable one.
pub fn rendered_selection_set_type(config: &ConfigurationContext, is_mutable: bool) -> (r: String)
    ensures
        r@ == spec_rendered_selection_set_type(config.config.schema_namespace@, is_mutable),
{
    let mut r = first_uppercased(config.schema_namespace());
    r.append(".");
    if is_mutable {
        r.append("Mutable");
    }
    r.append("SelectionSet");
    proof {
        reveal_strlit(".");
        assert("."@ =~= seq!['.']);
    }
    r
}

/// The suffix of an operation's definition name.
pub open spec fn spec_definition_suffix(operation_type: Seq<char>, is_local_cache_mutation: bool) -> Seq<char> {
    if is_local_cache_mutation {
        "LocalCacheMutation"@
    } else if operation_type == "query"@ {
        "Query"@
    } else if operation_type == "mutation"@ {
        "Mutation"@
    } else if operation_type == "subscription"@ {
        "Subscription"@
    } else {
        operation_type
    }
}

/// The definition name of an operation: the name with the suffix of its operation type
/// appended unless it already ends with it, first uppercased.
pub open spec fn spec_generated_definition_name(name: Seq<char>, operation_type: Seq<char>, is_local_cache_mutation: bool) -> Seq<char> {
    let suffix = spec_definition_suffix(operation_type, is_local_cache_mutation);
    spec_first_uppercased(if ends_with(name, suffix) {
        name
    } else {
        name + suffix
    })
}

/// Generates the definition name of an operation, appending a suffix for its operation
/// type if the name does not already end with it.
pub fn generated_definition_name(name: &str, operation_type: &str, is_local_cache_mutation: bool) -> (r: String)
    ensures
        r@ == spec_generated_definition_name(name@, operation_type@, is_local_cache_mutation),
{
    let suffix: String = if is_local_cache_mutation {
        String::from_str("LocalCacheMutation")
    } else if str_eq(operation_type, "query") {
        String::from_str("Query")
    } else if str_eq(operation_type, "mutation") {
        String::from_str("Mutation")
    } else if str_eq(operation_type, "subscription") {
        String::from_str("Subscription")
    } else {
        String::from_str(operation_type)
    };
    let name_with_suffix = if str_ends_with(name, suffix.as_str()) {
        String::from_str(name)
    } else {
        let mut n = String::from_str(name);
        n.append(suffix.as_str());
        n
    };
    first_uppercased(name_with_suffix.as_str())
}

/// Generates the definition name of a fragment: its name first uppercased.
pub fn generated_fragment_definition_name(name: &str) -> (r: String)
    ensures
        r@ == spec_first_uppercased(name@),
{
    first_uppercased(name)
}

/// A generated definition name ends with the suffix of the operation type whenever the
/// name has a cased character before the part that the suffix takes: only characters up to
/// the first cased character change case.
pub proof fn law_definition_name_ends_with_suffix(name: Seq<char>, operation_type: Seq<char>, is_local_cache_mutation: bool)
    requires
        exists|i: int|
            0 <= i < name.len() - spec_definition_suffix(operation_type, is_local_cache_mutation).len()
                && is_cased(#[trigger] name[i]),
    ensures
        ends_with(
            spec_generated_definition_name(name, operation_type, is_local_cache_mutation),
            spec_definition_suffix(operation_type, is_local_cache_mutation),
        ),
{
    let suffix = spec_definition_suffix(operation_type, is_local_cache_mutation);
    let full = if ends_with(name, suffix) {
        name
    } else {
        name + suffix
    };
    let i = choose|i: int| 0 <= i < name.len() - suffix.len() && is_cased(#[trigger] name[i]);
    assert(ends_with(full, suffix)) by {
        if !ends_with(name, suffix) {
            assert(full.subrange(full.len() - suffix.len(), full.len() as int) =~= suffix);
        }
    }
    lemma_first_cased_index_props(full);
    let k = first_cased_index(full) as int;
    assert(full[i] == name[i]);
    assert(k <= i) by {
        if k > i {
            assert(!is_cased(full[i]));
        }
    }
    let result = spec_first_uppercased(full);
    let head = crate::text::str_upper(full.take(k + 1));
    let rest = full.skip(k + 1);
    assert(result == head + rest);
    let n = suffix.len() as int;
    let rs = result.subrange(result.len() - n, result.len() as int);
    let fs = full.subrange(full.len() - n, full.len() as int);
    assert(rs =~= fs) by {
        assert forall|j: int| 0 <= j < n implies #[trigger] rs[j] == fs[j] by {
            assert(result[result.len() - n + j] == rest[rest.len() - n + j]);
            assert(rest[rest.len() - n + j] == full[full.len() - n + j]);
        }
    }
}

} // verus!
