//! Default values of operation variables and input fields, written as Swift expressions.
use vstd::prelude::*;

use crate::config::{ApolloCodegenConfiguration, EnumCases, SwiftKeywords};
use crate::graphql::{
    GraphQLEnumValue, GraphQLInputField, GraphQLInputObjectType, GraphQLName, GraphQLNamedType, GraphQLType,
    GraphQLValue,
};
use crate::templates::rendering_helpers::graphql_name_rendering::{
    EnumRenderContext, RenderContext, render_enum_value, render_input_field, render_named_type,
    spec_render_input_field, spec_render_named_type,
};
use crate::templates::rendering_helpers::graphql_type_rendered::spec_namespace_prefix;
use crate::templates::rendering_helpers::string_casing::first_uppercased;
use crate::templates::rendering_helpers::string_swift_name_escaping::{spec_convert_to_camel_case, spec_escape_if};
use crate::text::{i64_to_string, join, join_strings, push_part, spec_int_text, str_eq, views};

verus! {

/// Something with a type and, possibly, a default value.
pub trait InputVariableRenderable {
    /// The type.
    spec fn spec_type(&self) -> GraphQLType;

    /// The default value, if there is one.
    spec fn spec_default_value(&self) -> Option<GraphQLValue>;

    /// The type.
    fn type_(&self) -> (r: &GraphQLType)
        ensures
            *r == self.spec_type(),
    ;

    /// The default value, if there is one.
    fn default_value(&self) -> (r: Option<&GraphQLValue>)
        ensures
            match r {
                Some(v) => self.spec_default_value() == Some(*v),
                None => self.spec_default_value() is None,
            },
    ;
}

/// A type and a default value, borrowed.
pub struct InputVariable<'a> {
    pub type_: &'a GraphQLType,
    pub default_value: Option<&'a GraphQLValue>,
}

impl<'a> InputVariableRenderable for InputVariable<'a> {
    open spec fn spec_type(&self) -> GraphQLType {
        *self.type_
    }

    open spec fn spec_default_value(&self) -> Option<GraphQLValue> {
        match self.default_value {
            Some(v) => Some(*v),
            None => None,
        }
    }

    fn type_(&self) -> (r: &GraphQLType) {
        self.type_
    }

    fn default_value(&self) -> (r: Option<&GraphQLValue>) {
        self.default_value
    }
}

/// The element type of a list type, or of a non-null list type.
pub open spec fn spec_list_element_type(t: GraphQLType) -> Option<GraphQLType> {
    match t {
        GraphQLType::NonNull(inner) => match *inner {
            GraphQLType::List(element) => Some(*element),
            _ => None,
        },
        GraphQLType::List(element) => Some(*element),
        _ => None,
    }
}

/// The input object of an input object type, or of a non-null input object type.
pub open spec fn spec_input_object_of(t: GraphQLType) -> Option<GraphQLInputObjectType> {
    match t {
        GraphQLType::NonNull(inner) => match *inner {
            GraphQLType::InputObject(o) => Some(o),
            _ => None,
        },
        GraphQLType::InputObject(o) => Some(o),
        _ => None,
    }
}

/// The position of the first field with the given schema name.
pub open spec fn spec_find_field(fields: Seq<GraphQLInputField>, key: Seq<char>) -> Option<int>
    decreases fields.len(),
{
    if fields.len() == 0 {
        None
    } else {
        match spec_find_field(fields.drop_last(), key) {
            Some(i) => Some(i),
            None => if fields.last().name.schema_name@ == key {
                Some(fields.len() - 1)
            } else {
                None
            },
        }
    }
}

/// Whether a default value can be written for a type: no variables, lists only where the
/// type is a list, objects only where it is an input object, and likewise within them.
pub open spec fn spec_default_renderable(t: GraphQLType, v: GraphQLValue) -> bool
    decreases v, 1nat, 0nat,
{
    match v {
        GraphQLValue::Variable(_) => false,
        GraphQLValue::List(items) => match spec_list_element_type(t) {
            Some(element) => spec_items_renderable(element, v, items@.len()),
            None => false,
        },
        GraphQLValue::Object(entries) => match spec_input_object_of(t) {
            Some(o) => spec_entries_renderable(o, v, entries@.len()),
            None => false,
        },
        _ => true,
    }
}

/// Whether the first `n` items of a list can be written for the element type.
pub open spec fn spec_items_renderable(element: GraphQLType, v: GraphQLValue, n: nat) -> bool
    decreases v, 0nat, n,
{
    match v {
        GraphQLValue::List(items) => if n == 0 || n > items@.len() {
            true
        } else {
            spec_items_renderable(element, v, (n - 1) as nat) && spec_default_renderable(element, items@[n - 1])
        },
        _ => true,
    }
}

/// Whether the first `n` entries of an object can be written for the fields they name.
pub open spec fn spec_entries_renderable(o: GraphQLInputObjectType, v: GraphQLValue, n: nat) -> bool
    decreases v, 0nat, n,
{
    match v {
        GraphQLValue::Object(entries) => if n == 0 || n > entries@.len() {
            true
        } else {
            spec_entries_renderable(o, v, (n - 1) as nat) && match spec_find_field(o.fields@, entries@[n - 1].0@) {
                Some(j) => spec_default_renderable(o.fields@[j].type_, entries@[n - 1].1),
                None => true,
            }
        },
        _ => true,
    }
}

/// An enum value as the name of a case, converted as the configuration asks.
pub open spec fn spec_enum_case_name(name: Seq<char>, config: ApolloCodegenConfiguration) -> Seq<char> {
    match config.options.conversion_strategies.enum_cases {
        EnumCases::Unchanged => spec_escape_if(name, SwiftKeywords::FIELD_ACCESSOR_NAMES_TO_ESCAPE@),
        EnumCases::CamelCase => spec_escape_if(spec_convert_to_camel_case(name), SwiftKeywords::FIELD_ACCESSOR_NAMES_TO_ESCAPE@),
    }
}

/// An input object's initializer with the given arguments, qualified by the schema
/// namespace when operations are not generated into the schema module.
pub open spec fn spec_initializer_call(o: GraphQLInputObjectType, arguments: Seq<char>, config: ApolloCodegenConfiguration) -> Seq<char> {
    (if !config.output.operations.spec_is_in_module() {
        spec_namespace_prefix(config)
    } else {
        Seq::empty()
    }) + spec_render_named_type(GraphQLNamedType::InputObject(&o), RenderContext::Typename { is_input_value: false })
        + "("@ + arguments + ")"@
}

/// A default value written as a Swift expression for a variable of type `t`: `.null` (or
/// `nil` inside a list), literals for strings, numbers and booleans, `.init(.case)` for enum
/// values, lists in brackets, and input objects through their initializers.
pub open spec fn spec_default_value(t: GraphQLType, v: GraphQLValue, in_list: bool, config: ApolloCodegenConfiguration) -> Seq<char>
    decreases v, 1nat, 0nat,
{
    match v {
        GraphQLValue::Null => if in_list {
            "nil"@
        } else {
            ".null"@
        },
        GraphQLValue::String(s) => "\""@ + s@ + "\""@,
        GraphQLValue::Boolean(b) => if b {
            "true"@
        } else {
            "false"@
        },
        GraphQLValue::Int(i) => spec_int_text(i as int),
        GraphQLValue::Float(f) => f@,
        GraphQLValue::Enum(e) => ".init(."@ + spec_enum_case_name(e@, config) + ")"@,
        GraphQLValue::List(items) => match spec_list_element_type(t) {
            Some(element) => "["@ + join(spec_default_items(element, v, items@.len(), config), ", "@) + "]"@,
            None => Seq::empty(),
        },
        GraphQLValue::Object(entries) => match t {
            GraphQLType::NonNull(inner) => match *inner {
                GraphQLType::InputObject(o) => spec_initializer_call(
                    o, join(spec_initializer_arguments(o, v, entries@.len(), config), ", "@), config),
                _ => Seq::empty(),
            },
            GraphQLType::InputObject(o) => {
                let call = spec_initializer_call(o, join(spec_initializer_arguments(o, v, entries@.len(), config), ", "@), config);
                if in_list {
                    call
                } else {
                    ".init(\n  "@ + call + "\n)"@
                }
            },
            _ => Seq::empty(),
        },
        GraphQLValue::Variable(_) => Seq::empty(),
    }
}

/// The default values of the first `n` items of a list, leaving out those that render
/// empty.
pub open spec fn spec_default_items(element: GraphQLType, v: GraphQLValue, n: nat, config: ApolloCodegenConfiguration) -> Seq<Seq<char>>
    decreases v, 0nat, n,
{
    match v {
        GraphQLValue::List(items) => if n == 0 || n > items@.len() {
            Seq::empty()
        } else {
            let rest = spec_default_items(element, v, (n - 1) as nat, config);
            let item = spec_default_value(element, items@[n - 1], true, config);
            if item.len() == 0 {
                rest
            } else {
                rest.push(item)
            }
        },
        _ => Seq::empty(),
    }
}

/// The initializer arguments of the first `n` entries of an object: for each entry that
/// names a field, the field's property name and the value written for the field's type.
pub open spec fn spec_initializer_arguments(o: GraphQLInputObjectType, v: GraphQLValue, n: nat, config: ApolloCodegenConfiguration) -> Seq<Seq<char>>
    decreases v, 0nat, n,
{
    match v {
        GraphQLValue::Object(entries) => if n == 0 || n > entries@.len() {
            Seq::empty()
        } else {
            let rest = spec_initializer_arguments(o, v, (n - 1) as nat, config);
            match spec_find_field(o.fields@, entries@[n - 1].0@) {
                Some(j) => rest.push(spec_render_input_field(o.fields@[j], config) + ": "@
                    + spec_default_value(o.fields@[j].type_, entries@[n - 1].1, false, config)),
                None => rest,
            }
        },
        _ => Seq::empty(),
    }
}

/// The default value of a variable as a Swift expression; empty when it has none.
pub open spec fn spec_variable_default_value(t: GraphQLType, v: Option<GraphQLValue>, config: ApolloCodegenConfiguration) -> Seq<char> {
    match v {
        Some(value) => spec_default_value(t, value, false, config),
        None => Seq::empty(),
    }
}

/// Renders the default value of a variable, as `spec_variable_default_value` describes.
pub fn render_variable_default_value<R: InputVariableRenderable>(renderable: &R, config: &ApolloCodegenConfiguration) -> (r: String)
    requires
        renderable.spec_default_value() matches Some(v) ==> spec_default_renderable(renderable.spec_type(), v),
    ensures
        r@ == spec_variable_default_value(renderable.spec_type(), renderable.spec_default_value(), *config),
{
    match renderable.default_value() {
        None => String::new(),
        Some(value) => render_default_value(renderable.type_(), value, false, config),
    }
}

/// A boolean default value is written as the Swift literal of the same truth value,
/// `true` or `false`, whatever the variable's type and wherever the value stands (alone
/// or as an item of a list); a variable whose default is a boolean gets that literal.
pub proof fn law_boolean_default_is_same_literal(
    t: GraphQLType,
    b: bool,
    in_list: bool,
    config: ApolloCodegenConfiguration,
)
    ensures
        b ==> spec_default_value(t, GraphQLValue::Boolean(b), in_list, config) == "true"@,
        !b ==> spec_default_value(t, GraphQLValue::Boolean(b), in_list, config) == "false"@,
        b ==> spec_variable_default_value(t, Some(GraphQLValue::Boolean(b)), config) == "true"@,
        !b ==> spec_variable_default_value(t, Some(GraphQLValue::Boolean(b)), config) == "false"@,
{
}

fn find_field<'a>(fields: &'a Vec<GraphQLInputField>, key: &str) -> (r: Option<&'a GraphQLInputField>)
    ensures
        match spec_find_field(fields@, key@) {
            Some(j) => 0 <= j < fields@.len() && r == Some(&fields@[j]),
            None => r is None,
        },
{
    let mut i: usize = 0;
    while i < fields.len()
        invariant
            i <= fields.len(),
            spec_find_field(fields@.take(i as int), key@) is None,
        decreases fields.len() - i,
    {
        proof {
            assert(fields@.take(i + 1).drop_last() =~= fields@.take(i as int));
        }
        if str_eq(fields[i].name.schema_name.as_str(), key) {
            proof {
                lemma_find_field_prefix(fields@, key@, (i + 1) as int);
            }
            return Some(&fields[i]);
        }
        i = i + 1;
    }
    proof {
        assert(fields@.take(fields.len() as int) =~= fields@);
    }
    None
}

/// A field found in a prefix of the fields is found at the same position in all of them.
pub proof fn lemma_find_field_prefix(fields: Seq<GraphQLInputField>, key: Seq<char>, n: int)
    requires
        0 <= n <= fields.len(),
        spec_find_field(fields.take(n), key) is Some,
    ensures
        spec_find_field(fields, key) == spec_find_field(fields.take(n), key),
    decreases fields.len() - n,
{
    if n < fields.len() {
        assert(fields.take(n + 1).drop_last() =~= fields.take(n));
        lemma_find_field_prefix(fields, key, n + 1);
    } else {
        assert(fields.take(n) =~= fields);
    }
}

fn enum_case_name(name: &str, config: &ApolloCodegenConfiguration) -> (r: String)
    ensures
        r@ == spec_enum_case_name(name@, *config),
{
    let value = GraphQLEnumValue {
        name: GraphQLName::new(String::from_str(name)),
        documentation: None,
        deprecation_reason: None,
    };
    render_enum_value(&value, EnumRenderContext::EnumCase, config)
}

fn initializer_call(o: &GraphQLInputObjectType, arguments: &str, config: &ApolloCodegenConfiguration) -> (r: String)
    ensures
        r@ == spec_initializer_call(*o, arguments@, *config),
{
    let typename = render_named_type(&GraphQLNamedType::InputObject(o), &RenderContext::Typename { is_input_value: false });
    let mut r = if !config.output.operations.is_in_module() {
        let mut p = first_uppercased(config.schema_namespace.as_str());
        p.append(".");
        p
    } else {
        String::new()
    };
    r.append(typename.as_str());
    r.append("(");
    r.append(arguments);
    r.append(")");
    r
}

fn render_default_value(t: &GraphQLType, value: &GraphQLValue, in_list: bool, config: &ApolloCodegenConfiguration) -> (r: String)
    requires
        spec_default_renderable(*t, *value),
    ensures
        r@ == spec_default_value(*t, *value, in_list, *config),
    decreases value,
{
    match value {
        GraphQLValue::Null => if in_list {
            String::from_str("nil")
        } else {
            String::from_str(".null")
        },
        GraphQLValue::String(s) => {
            let mut r = String::from_str("\"");
            r.append(s.as_str());
            r.append("\"");
            r
        },
        GraphQLValue::Boolean(b) => if *b {
            String::from_str("true")
        } else {
            String::from_str("false")
        },
        GraphQLValue::Int(i) => i64_to_string(*i),
        GraphQLValue::Float(f) => String::from_str(f.as_str()),
        GraphQLValue::Enum(e) => {
            let name = enum_case_name(e.as_str(), config);
            let mut r = String::from_str(".init(.");
            r.append(name.as_str());
            r.append(")");
            r
        },
        GraphQLValue::List(items) => {
            let element: &GraphQLType = match t {
                GraphQLType::NonNull(inner) => match &**inner {
                    GraphQLType::List(element) => element,
                    _ => {
                        proof {
                            assert(false);
                        }
                        t
                    },
                },
                GraphQLType::List(element) => element,
                _ => {
                    proof {
                        assert(false);
                    }
                    t
                },
            };
            proof {
                assert(spec_list_element_type(*t) == Some(*element));
            }
            let mut rendered: Vec<String> = Vec::new();
            let mut i: usize = 0;
            while i < items.len()
                invariant
                    i <= items.len(),
                    *value == GraphQLValue::List(*items),
                    spec_items_renderable(*element, *value, items@.len()),
                    views(rendered@) == spec_default_items(*element, *value, i as nat, *config),
                decreases items.len() - i,
            {
                proof {
                    assert(decreases_to!(*value => items@[i as int]));
                    lemma_items_renderable_prefix(*element, *value, items@.len(), (i + 1) as nat);
                }
                let item = render_default_value(element, &items[i], true, config);
                if !item.as_str().is_empty() {
                    push_part(&mut rendered, item);
                } else {
                    proof {
                        assert(item@.len() == 0);
                    }
                }
                i = i + 1;
            }
            let joined = join_strings(&rendered, ", ");
            let mut r = String::from_str("[");
            r.append(joined.as_str());
            r.append("]");
            r
        },
        GraphQLValue::Object(entries) => {
            let (o, wrapped): (&GraphQLInputObjectType, bool) = match t {
                GraphQLType::NonNull(inner) => match &**inner {
                    GraphQLType::InputObject(o) => (o, false),
                    _ => {
                        proof {
                            assert(false);
                        }
                        return String::new();
                    },
                },
                GraphQLType::InputObject(o) => (o, !in_list),
                _ => {
                    proof {
                        assert(false);
                    }
                    return String::new();
                },
            };
            proof {
                assert(spec_input_object_of(*t) == Some(*o));
            }
            let mut arguments: Vec<String> = Vec::new();
            let mut i: usize = 0;
            while i < entries.len()
                invariant
                    i <= entries.len(),
                    *value == GraphQLValue::Object(*entries),
                    spec_entries_renderable(*o, *value, entries@.len()),
                    views(arguments@) == spec_initializer_arguments(*o, *value, i as nat, *config),
                decreases entries.len() - i,
            {
                proof {
                    assert(decreases_to!(*value => entries@[i as int].1));
                    lemma_entries_renderable_prefix(*o, *value, entries@.len(), (i + 1) as nat);
                }
                let (key, item) = &entries[i];
                match find_field(&o.fields, key.as_str()) {
                    Some(field) => {
                        let name = render_input_field(field, config);
                        let rendered = render_default_value(&field.type_, item, false, config);
                        let mut argument = name;
                        argument.append(": ");
                        argument.append(rendered.as_str());
                        push_part(&mut arguments, argument);
                    },
                    None => {},
                }
                i = i + 1;
            }
            let joined = join_strings(&arguments, ", ");
            let call = initializer_call(o, joined.as_str(), config);
            if wrapped {
                let mut r = String::from_str(".init(\n  ");
                r.append(call.as_str());
                r.append("\n)");
                r
            } else {
                call
            }
        },
        GraphQLValue::Variable(_) => {
            proof {
                assert(false);
            }
            String::new()
        },
    }
}

/// The items of a prefix of a renderable list are renderable.
pub proof fn lemma_items_renderable_prefix(element: GraphQLType, v: GraphQLValue, n: nat, m: nat)
    requires
        v is List,
        m <= n <= v->List_0@.len(),
        spec_items_renderable(element, v, n),
    ensures
        spec_items_renderable(element, v, m),
        m > 0 ==> spec_default_renderable(element, v->List_0@[m - 1]),
    decreases n - m,
{
    if m < n {
        lemma_items_renderable_prefix(element, v, (n - 1) as nat, m);
    }
}

/// The entries of a prefix of a renderable object are renderable.
pub proof fn lemma_entries_renderable_prefix(o: GraphQLInputObjectType, v: GraphQLValue, n: nat, m: nat)
    requires
        v is Object,
        m <= n <= v->Object_0@.len(),
        spec_entries_renderable(o, v, n),
    ensures
        spec_entries_renderable(o, v, m),
        m > 0 ==> match spec_find_field(o.fields@, v->Object_0@[m - 1].0@) {
            Some(j) => spec_default_renderable(o.fields@[j].type_, v->Object_0@[m - 1].1),
            None => true,
        },
    decreases n - m,
{
    if m < n {
        lemma_entries_renderable_prefix(o, v, (n - 1) as nat, m);
    }
}

} // verus!
