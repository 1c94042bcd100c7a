//! The GraphQL schema elements that templates read, held as plain values: names, scalar,
//! object, interface, union, enum and input object types, type references and values.
use vstd::prelude::*;

verus! {

/// A name from the GraphQL schema, with the custom name the configuration gave it, if any.
pub struct GraphQLName {
    pub schema_name: String,
    pub custom_name: Option<String>,
}

/// The comment that records the schema name of a renamed element.
pub open spec fn spec_type_name_documentation(name: GraphQLName) -> Option<Seq<char>> {
    match name.custom_name {
        Some(_) => Some("// Renamed from GraphQL schema value: '"@ + name.schema_name@ + "'"@),
        None => None,
    }
}

impl GraphQLName {
    /// A schema name without a custom name.
    pub fn new(schema_name: String) -> (r: Self)
        ensures
            r.schema_name@ == schema_name@,
            r.custom_name is None,
    {
        GraphQLName { schema_name, custom_name: None }
    }

    /// For a renamed element, a comment naming its schema name.
    pub fn type_name_documentation(&self) -> (r: Option<String>)
        ensures
            match r {
                Some(s) => spec_type_name_documentation(*self) == Some(s@),
                None => spec_type_name_documentation(*self) is None,
            },
    {
        match &self.custom_name {
            Some(_) => {
                let mut s = String::from_str("// Renamed from GraphQL schema value: '");
                s.append(self.schema_name.as_str());
                s.append("'");
                Some(s)
            },
            None => None,
        }
    }
}

/// A scalar type.
pub struct GraphQLScalarType {
    pub name: GraphQLName,
    pub documentation: Option<String>,
    pub specified_by_url: Option<String>,
}

/// Whether a scalar is a custom scalar: one with a specification URL, or one that is not
/// among the scalars that GraphQL itself defines.
pub open spec fn spec_is_custom_scalar(scalar: GraphQLScalarType) -> bool {
    scalar.specified_by_url is Some || !(scalar.name.schema_name@ == "String"@
        || scalar.name.schema_name@ == "Int"@ || scalar.name.schema_name@ == "Float"@
        || scalar.name.schema_name@ == "Boolean"@ || scalar.name.schema_name@ == "ID"@)
}

impl GraphQLScalarType {
    /// Whether this is a custom scalar.
    pub fn is_custom_scalar(&self) -> (r: bool)
        ensures
            r == spec_is_custom_scalar(*self),
    {
        if self.specified_by_url.is_some() {
            return true;
        }
        let n = self.name.schema_name.as_str();
        proof {
            reveal_strlit("String");
            reveal_strlit("Int");
            reveal_strlit("Float");
            reveal_strlit("Boolean");
            reveal_strlit("ID");
        }
        !(crate::text::str_eq(n, "String") || crate::text::str_eq(n, "Int")
            || crate::text::str_eq(n, "Float") || crate::text::str_eq(n, "Boolean")
            || crate::text::str_eq(n, "ID"))
    }
}

/// A value of an enum type.
pub struct GraphQLEnumValue {
    pub name: GraphQLName,
    pub documentation: Option<String>,
    pub deprecation_reason: Option<String>,
}

impl GraphQLEnumValue {
    /// Whether the value is deprecated.
    pub fn is_deprecated(&self) -> (r: bool)
        ensures
            r == self.deprecation_reason is Some,
    {
        self.deprecation_reason.is_some()
    }
}

/// An enum type.
pub struct GraphQLEnumType {
    pub name: GraphQLName,
    pub documentation: Option<String>,
    pub values: Vec<GraphQLEnumValue>,
}

/// An object type, with the interfaces it implements.
pub struct GraphQLObjectType {
    pub name: GraphQLName,
    pub documentation: Option<String>,
    pub interfaces: Vec<GraphQLInterfaceType>,
    pub key_fields: Option<Vec<String>>,
}

/// An interface type, with the objects that implement it.
pub struct GraphQLInterfaceType {
    pub name: GraphQLName,
    pub documentation: Option<String>,
    pub key_fields: Option<Vec<String>>,
    pub implementing_objects: Vec<GraphQLObjectType>,
}

/// A union type, with its member objects.
pub struct GraphQLUnionType {
    pub name: GraphQLName,
    pub documentation: Option<String>,
    pub types: Vec<GraphQLObjectType>,
}

/// An input object type with its fields, in schema order.
pub struct GraphQLInputObjectType {
    pub name: GraphQLName,
    pub documentation: Option<String>,
    pub fields: Vec<GraphQLInputField>,
}

/// Whether no two fields have the same schema name: a field's name is its key.
pub open spec fn spec_distinct_field_names(fields: Seq<GraphQLInputField>) -> bool {
    forall|i: int, j: int|
        0 <= i < j < fields.len() ==> #[trigger] fields[i].name.schema_name@ != #[trigger] fields[j].name.schema_name@
}

/// An input object type is well formed when its fields are keyed by name: no two fields
/// have the same schema name.
pub open spec fn spec_input_object_wf(o: GraphQLInputObjectType) -> bool {
    spec_distinct_field_names(o.fields@)
}

/// A field of an input object.
pub struct GraphQLInputField {
    pub name: GraphQLName,
    pub type_: GraphQLType,
    pub documentation: Option<String>,
    pub deprecation_reason: Option<String>,
    pub default_value: Option<GraphQLValue>,
}

/// A type that selections can be made on.
pub enum GraphQLCompositeType {
    Object(GraphQLObjectType),
    Interface(GraphQLInterfaceType),
    Union(GraphQLUnionType),
}

/// Whether two composite types are the same type: of the same kind, with the same schema
/// name (a schema has one type of each name).
pub open spec fn spec_same_composite_type(a: GraphQLCompositeType, b: GraphQLCompositeType) -> bool {
    match (a, b) {
        (GraphQLCompositeType::Object(x), GraphQLCompositeType::Object(y)) => x.name.schema_name@ == y.name.schema_name@,
        (GraphQLCompositeType::Interface(x), GraphQLCompositeType::Interface(y)) => x.name.schema_name@
            == y.name.schema_name@,
        (GraphQLCompositeType::Union(x), GraphQLCompositeType::Union(y)) => x.name.schema_name@ == y.name.schema_name@,
        _ => false,
    }
}

/// Returns whether two composite types are the same type, as `spec_same_composite_type`
/// describes.
pub fn same_composite_type(a: &GraphQLCompositeType, b: &GraphQLCompositeType) -> (r: bool)
    ensures
        r == spec_same_composite_type(*a, *b),
{
    match (a, b) {
        (GraphQLCompositeType::Object(x), GraphQLCompositeType::Object(y)) => crate::text::str_eq(
            x.name.schema_name.as_str(),
            y.name.schema_name.as_str(),
        ),
        (GraphQLCompositeType::Interface(x), GraphQLCompositeType::Interface(y)) => crate::text::str_eq(
            x.name.schema_name.as_str(),
            y.name.schema_name.as_str(),
        ),
        (GraphQLCompositeType::Union(x), GraphQLCompositeType::Union(y)) => crate::text::str_eq(
            x.name.schema_name.as_str(),
            y.name.schema_name.as_str(),
        ),
        _ => false,
    }
}

/// The condition of a `@defer` directive: its label and the variable that switches it, if
/// any.
pub struct DeferCondition {
    pub label: String,
    pub variable: Option<String>,
}

/// An argument given to a field: its name, its value, and the deprecation reason of the
/// argument's definition, if it is deprecated.
pub struct Argument {
    pub name: String,
    pub value: GraphQLValue,
    pub deprecation_reason: Option<String>,
}

/// The kind of an operation.
#[derive(Debug, Clone, Copy, PartialEq, Eq, Structural)]
pub enum OperationType {
    Query,
    Mutation,
    Subscription,
}

/// The GraphQL keyword of an operation type.
pub open spec fn spec_operation_type_name(t: OperationType) -> Seq<char> {
    match t {
        OperationType::Query => "query"@,
        OperationType::Mutation => "mutation"@,
        OperationType::Subscription => "subscription"@,
    }
}

impl OperationType {
    /// The GraphQL keyword of the operation type: `query`, `mutation` or `subscription`.
    pub fn display_name(&self) -> (r: &'static str)
        ensures
            r@ == spec_operation_type_name(*self),
    {
        match self {
            OperationType::Query => "query",
            OperationType::Mutation => "mutation",
            OperationType::Subscription => "subscription",
        }
    }
}

/// A reference to a type, as it appears on a field, an argument or a variable.
pub enum GraphQLType {
    Entity(GraphQLCompositeType),
    Scalar(GraphQLScalarType),
    Enum(GraphQLEnumType),
    InputObject(GraphQLInputObjectType),
    NonNull(Box<GraphQLType>),
    List(Box<GraphQLType>),
}

/// Whether a type reference is a list, possibly inside a non-null wrapper.
pub open spec fn spec_is_list_type(t: GraphQLType) -> bool
    decreases t,
{
    match t {
        GraphQLType::List(_) => true,
        GraphQLType::NonNull(inner) => spec_is_list_type(*inner),
        _ => false,
    }
}

impl GraphQLType {
    /// Whether the type is a list, possibly inside a non-null wrapper.
    pub fn is_list_type(&self) -> (r: bool)
        ensures
            r == spec_is_list_type(*self),
        decreases self,
    {
        match self {
            GraphQLType::List(_) => true,
            GraphQLType::NonNull(inner) => inner.is_list_type(),
            _ => false,
        }
    }
}

/// The named type inside any list and non-null wrappers.
pub open spec fn spec_inner_type(t: GraphQLType) -> GraphQLType
    decreases t,
{
    match t {
        GraphQLType::NonNull(inner) => spec_inner_type(*inner),
        GraphQLType::List(inner) => spec_inner_type(*inner),
        _ => t,
    }
}

impl GraphQLType {
    /// The named type inside any list and non-null wrappers.
    pub fn inner_type(&self) -> (r: &GraphQLType)
        ensures
            *r == spec_inner_type(*self),
        decreases self,
    {
        match self {
            GraphQLType::NonNull(inner) => inner.inner_type(),
            GraphQLType::List(inner) => inner.inner_type(),
            _ => self,
        }
    }

    /// Whether the type admits null: it does unless it is non-null.
    pub fn is_nullable(&self) -> (r: bool)
        ensures
            r == !(*self is NonNull),
    {
        match self {
            GraphQLType::NonNull(_) => false,
            _ => true,
        }
    }
}

/// A named type of the schema, borrowed from where it is defined.
pub enum GraphQLNamedType<'a> {
    Scalar(&'a GraphQLScalarType),
    Object(&'a GraphQLObjectType),
    Interface(&'a GraphQLInterfaceType),
    Union(&'a GraphQLUnionType),
    Enum(&'a GraphQLEnumType),
    InputObject(&'a GraphQLInputObjectType),
}

/// The name of a named type.
pub open spec fn spec_named_type_name(t: GraphQLNamedType) -> GraphQLName {
    match t {
        GraphQLNamedType::Scalar(s) => s.name,
        GraphQLNamedType::Object(o) => o.name,
        GraphQLNamedType::Interface(i) => i.name,
        GraphQLNamedType::Union(u) => u.name,
        GraphQLNamedType::Enum(e) => e.name,
        GraphQLNamedType::InputObject(i) => i.name,
    }
}

impl<'a> GraphQLNamedType<'a> {
    /// The name of the type.
    pub fn name(&self) -> (r: &'a GraphQLName)
        ensures
            *r == spec_named_type_name(*self),
    {
        match self {
            GraphQLNamedType::Scalar(s) => &s.name,
            GraphQLNamedType::Object(o) => &o.name,
            GraphQLNamedType::Interface(i) => &i.name,
            GraphQLNamedType::Union(u) => &u.name,
            GraphQLNamedType::Enum(e) => &e.name,
            GraphQLNamedType::InputObject(i) => &i.name,
        }
    }
}

/// The named types that the operations of a schema reference.
pub struct ReferencedTypes {
    /// The object types, in the order the schema lists them.
    pub objects: Vec<GraphQLObjectType>,
}

/// A schema as code generation sees it: the types its operations reference and its
/// documentation.
pub struct Schema {
    pub referenced_types: ReferencedTypes,
    pub documentation: Option<String>,
}

/// A value written in a GraphQL document: a default value or an argument.
///
/// A float is held as the decimal text that `f64::to_string` gives for it.
pub enum GraphQLValue {
    Variable(String),
    Int(i64),
    Float(String),
    String(String),
    Boolean(bool),
    Null,
    Enum(String),
    List(Vec<GraphQLValue>),
    Object(Vec<(String, GraphQLValue)>),
}

} // verus!
