# Verified Swift code generation templates

This library renders the Swift source files of a GraphQL client: schema types (objects,
interfaces, unions, enums, input objects, custom scalars, schema metadata and
configuration), operations, fragments, local cache mutations, selection sets, test mocks
and Swift package descriptions. Every rendering function states in its contract, over `Seq<char>`
specifications, exactly which text it produces, and Verus proves it.

## Layout

- `src/text.rs`: text primitives (joining, lines, trimming, case mapping of characters)
  and the few calls into `std` that they rest on.
- `src/config.rs`: the code generation configuration and the reserved Swift names.
- `src/graphql.rs`: the schema elements that templates read: names, types, values.
- `src/ir.rs`: the intermediate representation of operations and fragments as plain
  values: scopes, type infos, merged sources, computed selection sets and the selection
  trees that deferred fragments are searched in.
- `src/pluralizer.rs`: the singular forms that names of list fields are built from.
- `src/templates/`: the templates and their rendering helpers, with the laws that relate
  them (`law_*` proof functions).
- `tests/`: tests on concrete values.
