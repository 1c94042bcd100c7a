//! The variables of an operation: their properties, the initializer that sets them, and
//! the accessor that hands them to the network layer.
use vstd::prelude::*;

use crate::config::{ApolloCodegenConfiguration, SwiftKeywords};
use crate::graphql::{GraphQLType, GraphQLValue};
use crate::templates::rendering_helpers::graphql_type_rendered::{rendered, spec_rendered, TypeRenderContext};
use crate::templates::rendering_helpers::input_variable_renderable::{
    render_variable_default_value, spec_default_renderable, spec_variable_default_value, InputVariable,
};
use crate::templates::rendering_helpers::string_swift_name_escaping::{
    render_as_field_property_name, spec_escape_if, spec_rendered_as_property_name,
};
use crate::text::{join, join_strings, push_part, views};

verus! {

/// A variable of an operation: its name, type and default value.
pub struct VariableDefinition {
    pub name: String,
    pub type_: GraphQLType,
    pub default_value: Option<GraphQLValue>,
}

/// Whether the default value of a variable, if it has one, can be written for its type.
pub open spec fn spec_variable_renderable(v: VariableDefinition) -> bool {
    v.default_value matches Some(d) ==> spec_default_renderable(v.type_, d)
}

/// Whether the default values of all variables can be written.
pub open spec fn spec_variables_renderable(vs: Seq<VariableDefinition>) -> bool {
    forall|i: int| 0 <= i < vs.len() ==> spec_variable_renderable(#[trigger] vs[i])
}

/// The Swift property name of a variable.
pub open spec fn spec_variable_name(v: VariableDefinition, config: ApolloCodegenConfiguration) -> Seq<char> {
    spec_escape_if(spec_rendered_as_property_name(v.name@, config), SwiftKeywords::FIELD_ACCESSOR_NAMES_TO_ESCAPE@)
}

/// The Swift type of a variable.
pub open spec fn spec_variable_type(v: VariableDefinition, config: ApolloCodegenConfiguration) -> Seq<char> {
    spec_rendered(v.type_, TypeRenderContext::InputValue, None, config)
}

/// The initializer parameter of a variable: `name: Type`, followed by ` = default` when the
/// variable has a default value.
pub open spec fn spec_variable_parameter(v: VariableDefinition, config: ApolloCodegenConfiguration) -> Seq<char> {
    spec_variable_name(v, config) + ": "@ + spec_variable_type(v, config) + match v.default_value {
        Some(_) => " = "@ + spec_variable_default_value(v.type_, v.default_value, config),
        None => Seq::empty(),
    }
}

/// The property declaration of a variable.
pub open spec fn spec_variable_property(v: VariableDefinition, config: ApolloCodegenConfiguration) -> Seq<char> {
    "public var "@ + spec_variable_name(v, config) + ": "@ + spec_variable_type(v, config)
}

/// The statement of the initializer that sets the property of a variable.
pub open spec fn spec_variable_assignment(v: VariableDefinition, config: ApolloCodegenConfiguration) -> Seq<char> {
    "self."@ + spec_variable_name(v, config) + " = "@ + spec_variable_name(v, config)
}

/// The entry of a variable in the variables dictionary: its GraphQL name, quoted, and its
/// property.
pub open spec fn spec_variable_entry(v: VariableDefinition, config: ApolloCodegenConfiguration) -> Seq<char> {
    "\""@ + v.name@ + "\": "@ + spec_variable_name(v, config)
}

/// The parameters of the initializer, one per variable, in order.
pub open spec fn spec_parameters(vs: Seq<VariableDefinition>, config: ApolloCodegenConfiguration) -> Seq<Seq<char>> {
    vs.map_values(|v: VariableDefinition| spec_variable_parameter(v, config))
}

/// The property declarations, one per variable, in order.
pub open spec fn spec_properties(vs: Seq<VariableDefinition>, config: ApolloCodegenConfiguration) -> Seq<Seq<char>> {
    vs.map_values(|v: VariableDefinition| spec_variable_property(v, config))
}

/// The assignments of the initializer, one per variable, in order.
pub open spec fn spec_assignments(vs: Seq<VariableDefinition>, config: ApolloCodegenConfiguration) -> Seq<Seq<char>> {
    vs.map_values(|v: VariableDefinition| spec_variable_assignment(v, config))
}

/// The entries of the variables dictionary, one per variable, in order.
pub open spec fn spec_entries(vs: Seq<VariableDefinition>, config: ApolloCodegenConfiguration) -> Seq<Seq<char>> {
    vs.map_values(|v: VariableDefinition| spec_variable_entry(v, config))
}

/// The initializer of an operation: `public init() {}` without variables; otherwise the
/// parameters (each on a line of its own when there are several) and one assignment per
/// variable.
pub open spec fn spec_initializer(vs: Seq<VariableDefinition>, config: ApolloCodegenConfiguration) -> Seq<char> {
    if vs.len() == 0 {
        "public init() {}"@
    } else {
        let params = spec_parameters(vs, config);
        let params_text = if params.len() > 1 {
            "\n  "@ + join(params, ",\n  "@) + "\n"@
        } else {
            join(params, ", "@)
        };
        "public init("@ + params_text + ") {\n  "@ + join(spec_assignments(vs, config), "\n  "@) + "\n}"@
    }
}

/// The variable properties of an operation, one per line.
pub open spec fn spec_variable_properties(vs: Seq<VariableDefinition>, config: ApolloCodegenConfiguration) -> Seq<char> {
    join(spec_properties(vs, config), "\n"@)
}

/// The accessor of the variables of an operation: nothing without variables; otherwise the
/// `__variables` property, with the entries on one line when there is one and each on a
/// line of its own when there are several.
pub open spec fn spec_variable_accessors(vs: Seq<VariableDefinition>, config: ApolloCodegenConfiguration, graphql_operation: bool) -> Seq<char> {
    if vs.len() == 0 {
        Seq::empty()
    } else {
        let prefix = if !graphql_operation {
            "GraphQLOperation."@
        } else {
            Seq::empty()
        };
        let entries = spec_entries(vs, config);
        "@_spi(Unsafe) public var __variables: "@ + prefix + "Variables? { ["@ + if entries.len() == 1 {
            entries[0]
        } else {
            "\n  "@ + join(entries, ",\n  "@) + "\n"@
        } + "] }"@
    }
}

/// Renders the initializer parameter of a variable, as `spec_variable_parameter` describes.
pub fn render_variable_parameter(variable: &VariableDefinition, config: &ApolloCodegenConfiguration) -> (r: String)
    requires
        spec_variable_renderable(*variable),
    ensures
        r@ == spec_variable_parameter(*variable, *config),
{
    let name = render_as_field_property_name(variable.name.as_str(), config);
    let type_str = rendered(&variable.type_, &TypeRenderContext::InputValue, None, config);
    let mut r = name;
    r.append(": ");
    r.append(type_str.as_str());
    if variable.default_value.is_some() {
        let input_var = InputVariable { type_: &variable.type_, default_value: variable.default_value.as_ref() };
        let default_val = render_variable_default_value(&input_var, config);
        r.append(" = ");
        r.append(default_val.as_str());
    }
    r
}

/// Renders the initializer of an operation with the given variables, as `spec_initializer`
/// describes.
pub fn render_initializer(variables: &[VariableDefinition], config: &ApolloCodegenConfiguration) -> (r: String)
    requires
        spec_variables_renderable(variables@),
    ensures
        r@ == spec_initializer(variables@, *config),
{
    if variables.len() == 0 {
        return String::from_str("public init() {}");
    }
    let ghost vs = variables@;
    let mut params: Vec<String> = Vec::new();
    let mut assignments: Vec<String> = Vec::new();
    let mut i: usize = 0;
    while i < variables.len()
        invariant
            i <= variables.len(),
            vs == variables@,
            spec_variables_renderable(vs),
            views(params@) == spec_parameters(vs.take(i as int), *config),
            views(assignments@) == spec_assignments(vs.take(i as int), *config),
        decreases variables.len() - i,
    {
        proof {
            assert(spec_variable_renderable(vs[i as int]));
            assert(vs.take(i + 1) =~= vs.take(i as int).push(vs[i as int]));
        }
        push_part(&mut params, render_variable_parameter(&variables[i], config));
        let name = render_as_field_property_name(variables[i].name.as_str(), config);
        let mut assignment = String::from_str("self.");
        assignment.append(name.as_str());
        assignment.append(" = ");
        assignment.append(name.as_str());
        push_part(&mut assignments, assignment);
        proof {
            assert(views(params@) =~= spec_parameters(vs.take(i + 1), *config));
            assert(views(assignments@) =~= spec_assignments(vs.take(i + 1), *config));
        }
        i = i + 1;
    }
    proof {
        assert(vs.take(variables.len() as int) =~= vs);
    }
    let params_str = if params.len() > 1 {
        let mut s = String::from_str("\n  ");
        s.append(join_strings(&params, ",\n  ").as_str());
        s.append("\n");
        s
    } else {
        join_strings(&params, ", ")
    };
    let mut r = String::from_str("public init(");
    r.append(params_str.as_str());
    r.append(") {\n  ");
    r.append(join_strings(&assignments, "\n  ").as_str());
    r.append("\n}");
    r
}

/// Renders the variable properties of an operation, as `spec_variable_properties`
/// describes.
pub fn render_variable_properties(variables: &[VariableDefinition], config: &ApolloCodegenConfiguration) -> (r: String)
    ensures
        r@ == spec_variable_properties(variables@, *config),
{
    let ghost vs = variables@;
    let mut props: Vec<String> = Vec::new();
    let mut i: usize = 0;
    while i < variables.len()
        invariant
            i <= variables.len(),
            vs == variables@,
            views(props@) == spec_properties(vs.take(i as int), *config),
        decreases variables.len() - i,
    {
        proof {
            assert(vs.take(i + 1) =~= vs.take(i as int).push(vs[i as int]));
        }
        let name = render_as_field_property_name(variables[i].name.as_str(), config);
        let type_str = rendered(&variables[i].type_, &TypeRenderContext::InputValue, None, config);
        let mut prop = String::from_str("public var ");
        prop.append(name.as_str());
        prop.append(": ");
        prop.append(type_str.as_str());
        push_part(&mut props, prop);
        proof {
            assert(views(props@) =~= spec_properties(vs.take(i + 1), *config));
        }
        i = i + 1;
    }
    proof {
        assert(vs.take(variables.len() as int) =~= vs);
    }
    join_strings(&props, "\n")
}

/// Renders the variables accessor of an operation, as `spec_variable_accessors` describes;
/// a local cache mutation names the `Variables` type through `GraphQLOperation`.
pub fn render_variable_accessors(
    variables: &[VariableDefinition],
    config: &ApolloCodegenConfiguration,
    graphql_operation: bool,
) -> (r: String)
    ensures
        r@ == spec_variable_accessors(variables@, *config, graphql_operation),
{
    if variables.len() == 0 {
        return String::new();
    }
    let ghost vs = variables@;
    let mut entries: Vec<String> = Vec::new();
    let mut i: usize = 0;
    while i < variables.len()
        invariant
            i <= variables.len(),
            vs == variables@,
            views(entries@) == spec_entries(vs.take(i as int), *config),
        decreases variables.len() - i,
    {
        proof {
            assert(vs.take(i + 1) =~= vs.take(i as int).push(vs[i as int]));
        }
        let name = render_as_field_property_name(variables[i].name.as_str(), config);
        let mut entry = String::from_str("\"");
        entry.append(variables[i].name.as_str());
        entry.append("\": ");
        entry.append(name.as_str());
        push_part(&mut entries, entry);
        proof {
            assert(views(entries@) =~= spec_entries(vs.take(i + 1), *config));
        }
        i = i + 1;
    }
    proof {
        assert(vs.take(variables.len() as int) =~= vs);
    }
    let mut r = String::from_str("@_spi(Unsafe) public var __variables: ");
    if !graphql_operation {
        r.append("GraphQLOperation.");
    }
    r.append("Variables? { [");
    if entries.len() == 1 {
        r.append(entries[0].as_str());
        proof {
            assert(entries@[0]@ == views(entries@)[0]);
        }
    } else {
        r.append("\n  ");
        r.append(join_strings(&entries, ",\n  ").as_str());
        r.append("\n");
    }
    r.append("] }");
    r
}

} // verus!
