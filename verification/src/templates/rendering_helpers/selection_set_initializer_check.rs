//! Whether the selection sets of a definition are generated with initializers.
use vstd::prelude::*;

use crate::config::SelectionSetInitializers;
use crate::text::views;

verus! {

/// Initializers are generated for local cache mutations, for definitions named in the
/// configuration, and otherwise as the configuration's flag for fragments or for
/// operations says.
pub open spec fn spec_should_generate_selection_set_initializers(
    config: SelectionSetInitializers,
    definition_name: Seq<char>,
    is_local_cache_mutation: bool,
    is_fragment: bool,
) -> bool {
    ||| is_local_cache_mutation
    ||| views(config.definitions@).contains(definition_name)
    ||| if is_fragment {
        config.named_fragments
    } else {
        config.operations
    }
}

/// Returns whether selection set initializers are generated for the definition with the
/// given name, as `spec_should_generate_selection_set_initializers` describes.
pub fn should_generate_selection_set_initializers(
    config: &SelectionSetInitializers,
    definition_name: &str,
    is_local_cache_mutation: bool,
    is_fragment: bool,
) -> (r: bool)
    ensures
        r == spec_should_generate_selection_set_initializers(*config, definition_name@, is_local_cache_mutation, is_fragment),
{
    if is_local_cache_mutation {
        return true;
    }
    if config.contains_definition(definition_name) {
        return true;
    }
    if is_fragment {
        config.named_fragments
    } else {
        config.operations
    }
}

/// Local cache mutations always get initializers, as operations and as fragments, whatever
/// the configuration says.
pub proof fn law_local_cache_mutations_get_initializers(
    config: SelectionSetInitializers,
    definition_name: Seq<char>,
    is_fragment: bool,
)
    ensures
        spec_should_generate_selection_set_initializers(config, definition_name, true, is_fragment),
{
}

/// A definition named in the configuration gets initializers whatever its kind and the
/// configuration's flags.
pub proof fn law_named_definitions_get_initializers(
    config: SelectionSetInitializers,
    definition_name: Seq<char>,
    is_local_cache_mutation: bool,
    is_fragment: bool,
)
    requires
        views(config.definitions@).contains(definition_name),
    ensures
        spec_should_generate_selection_set_initializers(config, definition_name, is_local_cache_mutation, is_fragment),
{
}

} // verus!
