//! The test mock class of an object type: its `MockFields`, and a convenience initializer
//! that sets every field.
use vstd::prelude::*;

use crate::config::{ApolloCodegenConfiguration, SwiftKeywords, is_in, spec_is_in};
use crate::graphql::{GraphQLCompositeType, GraphQLNamedType, GraphQLObjectType, GraphQLScalarType, GraphQLType};
use crate::templates::rendering_helpers::graphql_name_rendering::{
    EnumRenderContext, RenderContext, render_enum_value, render_named_type, spec_render_enum_value,
    spec_render_named_type,
};
use crate::templates::rendering_helpers::graphql_type_rendered::{TypeRenderContext, rendered, spec_rendered};
use crate::templates::rendering_helpers::string_casing::{first_uppercased, spec_first_uppercased};
use crate::templates::rendering_helpers::string_swift_name_escaping::{
    as_test_mock_field_property_name, as_test_mock_initializer_parameter_name, spec_escape_if,
};
use crate::templates::rendering_helpers::template_blocks::{render_mock_deprecation, spec_mock_deprecation};
use crate::templates::{
    spec_template_access, standard_header_template, ConfigurationContext, NonFatalErrorRecorder, Scope,
    TemplateRenderer, TemplateTarget,
};
use crate::text::{
    join, join_strings, lemma_lex_le_transitive, lemma_lex_lt_asymmetric, opt_view, push_part, spec_lex_lt, str_eq,
    str_lt, views,
};

verus! {

// ---------------------------------------------------------------------------
// Field order
// ---------------------------------------------------------------------------

/// The response keys of the fields.
pub open spec fn spec_field_keys(fields: Seq<(String, GraphQLType, Option<String>)>) -> Seq<Seq<char>> {
    fields.map_values(|f: (String, GraphQLType, Option<String>)| f.0@)
}

/// `order` with `i` inserted after every index whose key is not greater than the key of
/// `i`.
pub open spec fn spec_insert_index(order: Seq<int>, i: int, keys: Seq<Seq<char>>) -> Seq<int>
    decreases order.len(),
{
    if order.len() == 0 {
        seq![i]
    } else if spec_lex_lt(keys[i], keys[order.last()]) {
        spec_insert_index(order.drop_last(), i, keys).push(order.last())
    } else {
        order.push(i)
    }
}

/// The indices `0..n` ordered by their keys, stably: indices with equal keys keep their
/// order.
pub open spec fn spec_sorted_order(keys: Seq<Seq<char>>, n: nat) -> Seq<int>
    decreases n,
{
    if n == 0 {
        Seq::empty()
    } else {
        spec_insert_index(spec_sorted_order(keys, (n - 1) as nat), n - 1, keys)
    }
}

/// Inserting an index adds one element, and keeps every element below `bound`.
pub proof fn lemma_insert_index_bounds(order: Seq<int>, i: int, keys: Seq<Seq<char>>, bound: int)
    requires
        0 <= i < bound,
        forall|k: int| 0 <= k < order.len() ==> 0 <= #[trigger] order[k] < bound,
    ensures
        spec_insert_index(order, i, keys).len() == order.len() + 1,
        forall|k: int| 0 <= k < order.len() + 1 ==> 0 <= #[trigger] spec_insert_index(order, i, keys)[k] < bound,
    decreases order.len(),
{
    if order.len() > 0 && spec_lex_lt(keys[i], keys[order.last()]) {
        lemma_insert_index_bounds(order.drop_last(), i, keys, bound);
    }
}

/// The sorted order holds each index below `n` and has `n` elements.
pub proof fn lemma_sorted_order_bounds(keys: Seq<Seq<char>>, n: nat)
    ensures
        spec_sorted_order(keys, n).len() == n,
        forall|k: int| 0 <= k < n ==> 0 <= #[trigger] spec_sorted_order(keys, n)[k] < n,
    decreases n,
{
    if n > 0 {
        lemma_sorted_order_bounds(keys, (n - 1) as nat);
        lemma_insert_index_bounds(spec_sorted_order(keys, (n - 1) as nat), n - 1, keys, n as int);
    }
}

/// Inserting at the position that a scan from the end stops at gives `spec_insert_index`.
pub proof fn lemma_insert_at_scan(order: Seq<int>, i: int, keys: Seq<Seq<char>>, k: int)
    requires
        0 <= k <= order.len(),
        forall|j: int| k <= j < order.len() ==> spec_lex_lt(keys[i], keys[#[trigger] order[j]]),
        k > 0 ==> !spec_lex_lt(keys[i], keys[order[k - 1]]),
    ensures
        spec_insert_index(order, i, keys) == order.insert(k, i),
    decreases order.len(),
{
    if order.len() == 0 {
        assert(order.insert(k, i) =~= seq![i]);
    } else if k == order.len() {
        assert(order.insert(k, i) =~= order.push(i));
    } else {
        assert(spec_lex_lt(keys[i], keys[order[order.len() - 1]]));
        lemma_insert_at_scan(order.drop_last(), i, keys, k);
        assert(order.insert(k, i) =~= order.drop_last().insert(k, i).push(order.last()));
    }
}

/// Whether the keys of consecutive indices of `order` never decrease.
pub open spec fn spec_ordered_by_key(order: Seq<int>, keys: Seq<Seq<char>>) -> bool {
    forall|p: int, q: int| 0 <= p < q < order.len() ==> !spec_lex_lt(#[trigger] keys[order[q]], #[trigger] keys[order[p]])
}

/// Whether indices of `order` with equal keys come in increasing order.
pub open spec fn spec_stable_by_key(order: Seq<int>, keys: Seq<Seq<char>>) -> bool {
    forall|p: int, q: int|
        0 <= p < q < order.len() && #[trigger] keys[order[p]] == #[trigger] keys[order[q]] ==> order[p] < order[q]
}

/// Whether `order` holds distinct indices below `n`.
pub open spec fn spec_distinct_below(order: Seq<int>, n: int) -> bool {
    &&& order.no_duplicates()
    &&& forall|k: int| 0 <= k < order.len() ==> 0 <= #[trigger] order[k] < n
}

/// `spec_insert_index` inserts at the position where a scan from the end stops.
proof fn lemma_insert_index_position(order: Seq<int>, i: int, keys: Seq<Seq<char>>) -> (k: int)
    ensures
        0 <= k <= order.len(),
        spec_insert_index(order, i, keys) == order.insert(k, i),
        forall|j: int| k <= j < order.len() ==> spec_lex_lt(keys[i], keys[#[trigger] order[j]]),
        k > 0 ==> !spec_lex_lt(keys[i], keys[order[k - 1]]),
    decreases order.len(),
{
    if order.len() == 0 {
        assert(order.insert(0, i) =~= seq![i]);
        0
    } else if spec_lex_lt(keys[i], keys[order.last()]) {
        let k = lemma_insert_index_position(order.drop_last(), i, keys);
        assert(order.drop_last().insert(k, i).push(order.last()) =~= order.insert(k, i));
        assert forall|j: int| k <= j < order.len() implies spec_lex_lt(keys[i], keys[#[trigger] order[j]]) by {
            if j < order.len() - 1 {
                assert(order.drop_last()[j] == order[j]);
            }
        }
        if k > 0 {
            assert(order.drop_last()[k - 1] == order[k - 1]);
        }
        k
    } else {
        assert(order.push(i) =~= order.insert(order.len() as int, i));
        order.len() as int
    }
}

/// Inserting the next index at its scan position keeps the order sorted, stable and
/// without duplicates.
proof fn lemma_insert_keeps_sorted(order: Seq<int>, i: int, keys: Seq<Seq<char>>, k: int)
    requires
        0 <= k <= order.len(),
        0 <= i < keys.len(),
        spec_distinct_below(order, i),
        spec_ordered_by_key(order, keys),
        spec_stable_by_key(order, keys),
        forall|j: int| k <= j < order.len() ==> spec_lex_lt(keys[i], keys[#[trigger] order[j]]),
        k > 0 ==> !spec_lex_lt(keys[i], keys[order[k - 1]]),
    ensures
        spec_distinct_below(order.insert(k, i), i + 1),
        spec_ordered_by_key(order.insert(k, i), keys),
        spec_stable_by_key(order.insert(k, i), keys),
{
    let r = order.insert(k, i);
    assert(r.len() == order.len() + 1);
    assert forall|x: int| 0 <= x < r.len() implies #[trigger] r[x] == (if x < k {
        order[x]
    } else if x == k {
        i
    } else {
        order[x - 1]
    }) by {}
    assert forall|x: int| 0 <= x < r.len() implies 0 <= #[trigger] r[x] < i + 1 by {
        if x < k {
            assert(r[x] == order[x]);
        } else if x > k {
            assert(r[x] == order[x - 1]);
        }
    }
    assert(r.no_duplicates()) by {
        assert forall|p: int, q: int| 0 <= p < r.len() && 0 <= q < r.len() && p != q implies r[p] != r[q] by {
            if p != k && q != k {
                let pp = if p < k { p } else { p - 1 };
                let qq = if q < k { q } else { q - 1 };
                assert(r[p] == order[pp]);
                assert(r[q] == order[qq]);
                assert(pp != qq);
            } else if p == k {
                let qq = if q < k { q } else { q - 1 };
                assert(r[q] == order[qq]);
            } else {
                let pp = if p < k { p } else { p - 1 };
                assert(r[p] == order[pp]);
            }
        }
    }
    assert forall|p: int, q: int| 0 <= p < q < r.len() implies !spec_lex_lt(#[trigger] keys[r[q]], #[trigger] keys[r[p]]) by {
        if q < k {
            assert(r[p] == order[p] && r[q] == order[q]);
        } else if q == k {
            assert(r[p] == order[p]);
            if p < k - 1 {
                assert(!spec_lex_lt(keys[order[k - 1]], keys[order[p]]));
                lemma_lex_le_transitive(keys[order[p]], keys[order[k - 1]], keys[i]);
            }
        } else if p < k {
            assert(r[p] == order[p] && r[q] == order[q - 1]);
        } else if p == k {
            assert(r[q] == order[q - 1]);
            assert(spec_lex_lt(keys[i], keys[order[q - 1]]));
            lemma_lex_lt_asymmetric(keys[i], keys[order[q - 1]]);
        } else {
            assert(r[p] == order[p - 1] && r[q] == order[q - 1]);
        }
    }
    assert forall|p: int, q: int| 0 <= p < q < r.len() && #[trigger] keys[r[p]] == #[trigger] keys[r[q]] implies r[p] < r[q] by {
        if q < k {
            assert(r[p] == order[p] && r[q] == order[q]);
        } else if q == k {
            assert(r[p] == order[p]);
        } else if p < k {
            assert(r[p] == order[p] && r[q] == order[q - 1]);
        } else if p == k {
            assert(r[q] == order[q - 1]);
            assert(spec_lex_lt(keys[i], keys[order[q - 1]]));
            lemma_lex_lt_asymmetric(keys[i], keys[order[q - 1]]);
        } else {
            assert(r[p] == order[p - 1] && r[q] == order[q - 1]);
        }
    }
}

/// The sorted order of the first `n` indices is sorted, stable and without duplicates.
proof fn lemma_sorted_order_sorted(keys: Seq<Seq<char>>, n: nat)
    requires
        n <= keys.len(),
    ensures
        spec_sorted_order(keys, n).len() == n,
        spec_distinct_below(spec_sorted_order(keys, n), n as int),
        spec_ordered_by_key(spec_sorted_order(keys, n), keys),
        spec_stable_by_key(spec_sorted_order(keys, n), keys),
    decreases n,
{
    if n > 0 {
        let before = spec_sorted_order(keys, (n - 1) as nat);
        lemma_sorted_order_sorted(keys, (n - 1) as nat);
        let k = lemma_insert_index_position(before, n - 1, keys);
        lemma_insert_keeps_sorted(before, n - 1, keys, k);
    } else {
        assert(spec_sorted_order(keys, 0) =~= Seq::<int>::empty());
    }
}

/// The fields of a mock object are rendered ordered by response key, fields with equal
/// keys in the order they were given, and every field exactly once.
pub proof fn law_mock_fields_sorted_stably(fields: Seq<(String, GraphQLType, Option<String>)>)
    ensures
        ({
            let keys = spec_field_keys(fields);
            let order = spec_sorted_order(keys, fields.len());
            &&& order.len() == fields.len()
            &&& spec_distinct_below(order, fields.len() as int)
            &&& spec_sorted_fields(fields).len() == fields.len()
            &&& forall|k: int| 0 <= k < fields.len() ==> #[trigger] spec_sorted_fields(fields)[k] == fields[order[k]]
            &&& spec_ordered_by_key(order, keys)
            &&& spec_stable_by_key(order, keys)
        }),
{
    lemma_sorted_order_sorted(spec_field_keys(fields), fields.len());
}

/// The order of the fields by response key, stable among equal keys.
fn sorted_order(fields: &Vec<(String, GraphQLType, Option<String>)>) -> (r: Vec<usize>)
    ensures
        r@.len() == fields@.len(),
        forall|k: int| 0 <= k < r@.len() ==> #[trigger] r@[k] as int == spec_sorted_order(spec_field_keys(fields@), fields@.len())[k],
        forall|k: int| 0 <= k < r@.len() ==> #[trigger] r@[k] < fields@.len(),
{
    let ghost keys = spec_field_keys(fields@);
    let mut order: Vec<usize> = Vec::new();
    let mut i: usize = 0;
    while i < fields.len()
        invariant
            i <= fields.len(),
            keys == spec_field_keys(fields@),
            order@.len() == i,
            forall|k: int| 0 <= k < i ==> #[trigger] order@[k] as int == spec_sorted_order(keys, i as nat)[k],
            forall|k: int| 0 <= k < i ==> #[trigger] order@[k] < i,
        decreases fields.len() - i,
    {
        let ghost before = spec_sorted_order(keys, i as nat);
        proof {
            lemma_sorted_order_bounds(keys, i as nat);
            assert(order@.map_values(|x: usize| x as int) =~= before);
        }
        let mut k: usize = order.len();
        while k > 0 && str_lt(fields[i].0.as_str(), fields[order[k - 1]].0.as_str())
            invariant
                k <= order@.len(),
                i < fields.len(),
                order@.len() == i,
                keys == spec_field_keys(fields@),
                before == spec_sorted_order(keys, i as nat),
                forall|m: int| 0 <= m < i ==> #[trigger] order@[m] as int == before[m],
                forall|m: int| 0 <= m < i ==> #[trigger] order@[m] < i,
                forall|j: int| k <= j < order@.len() ==> spec_lex_lt(keys[i as int], keys[#[trigger] before[j]]),
            decreases k,
        {
            proof {
                assert(keys[i as int] == fields@[i as int].0@);
                assert(keys[order@[k - 1] as int] == fields@[order@[k - 1] as int].0@);
            }
            k = k - 1;
        }
        proof {
            if k > 0 {
                assert(keys[i as int] == fields@[i as int].0@);
                assert(keys[order@[k - 1] as int] == fields@[order@[k - 1] as int].0@);
            }
            lemma_insert_at_scan(before, i as int, keys, k as int);
        }
        let ghost old_order = order@;
        order.insert(k, i);
        proof {
            assert(spec_sorted_order(keys, (i + 1) as nat) == before.insert(k as int, i as int));
            assert(order@ == old_order.insert(k as int, i));
            assert forall|m: int| 0 <= m < i + 1 implies #[trigger] order@[m] as int == spec_sorted_order(keys, (i + 1) as nat)[m] by {
                if m < k {
                    assert(order@[m] == old_order[m]);
                } else if m > k {
                    assert(order@[m] == old_order[m - 1]);
                }
            }
            assert forall|m: int| 0 <= m < i + 1 implies #[trigger] order@[m] < i + 1 by {
                if m < k {
                    assert(order@[m] == old_order[m]);
                } else if m > k {
                    assert(order@[m] == old_order[m - 1]);
                }
            }
        }
        i = i + 1;
    }
    order
}

// ---------------------------------------------------------------------------
// Field types
// ---------------------------------------------------------------------------

/// Whether a default mock value exists for a type: not for input objects, enums without
/// cases, interfaces that no object implements, or unions without members.
pub open spec fn spec_default_mockable(t: GraphQLType) -> bool
    decreases t,
{
    match t {
        GraphQLType::List(_) => true,
        GraphQLType::NonNull(inner) => spec_default_mockable(*inner),
        GraphQLType::Scalar(_) => true,
        GraphQLType::Enum(e) => e.values@.len() > 0,
        GraphQLType::Entity(GraphQLCompositeType::Object(_)) => true,
        GraphQLType::Entity(GraphQLCompositeType::Interface(i)) => i.implementing_objects@.len() > 0,
        GraphQLType::Entity(GraphQLCompositeType::Union(u)) => u.types@.len() > 0,
        GraphQLType::InputObject(_) => false,
    }
}

/// The type with its outer non-null wrappers removed.
pub open spec fn spec_strip_non_null(t: GraphQLType) -> GraphQLType
    decreases t,
{
    match t {
        GraphQLType::NonNull(inner) => spec_strip_non_null(*inner),
        _ => t,
    }
}

/// Whether a field of this type can be mocked: it is not an input object, and when it is
/// non-null a default mock value exists for it.
pub open spec fn spec_mockable(t: GraphQLType) -> bool {
    !(spec_strip_non_null(t) is InputObject) && (t is NonNull ==> spec_default_mockable(t))
}

/// The default mock value of a type: empty lists, empty strings, zeros and `false` for the
/// built-in scalars, `.defaultMockValue` for custom scalars, the first case of an enum, and
/// a mock of the object (or of the first implementing or member object).
pub open spec fn spec_default_mock_value(t: GraphQLType, config: ApolloCodegenConfiguration) -> Seq<char>
    decreases t,
{
    match t {
        GraphQLType::List(_) => "[]"@,
        GraphQLType::NonNull(inner) => spec_default_mock_value(*inner, config),
        GraphQLType::Scalar(s) => {
            let n = s.name.schema_name@;
            if n == "String"@ || n == "ID"@ {
                "\"\""@
            } else if n == "Int"@ {
                "0"@
            } else if n == "Float"@ {
                "0.0"@
            } else if n == "Boolean"@ {
                "false"@
            } else {
                ".defaultMockValue"@
            }
        },
        GraphQLType::Enum(e) => ".case(."@ + spec_render_enum_value(e.values@[0], EnumRenderContext::EnumCase, config) + ")"@,
        GraphQLType::Entity(GraphQLCompositeType::Object(o)) => "Mock<"@
            + spec_render_named_type(GraphQLNamedType::Object(&o), RenderContext::Typename { is_input_value: false }) + ">()"@,
        GraphQLType::Entity(GraphQLCompositeType::Interface(i)) => "Mock<"@ + i.implementing_objects@[0].name.schema_name@ + ">()"@,
        GraphQLType::Entity(GraphQLCompositeType::Union(u)) => "Mock<"@ + u.types@[0].name.schema_name@ + ">()"@,
        GraphQLType::InputObject(_) => Seq::empty(),
    }
}

/// The default mock value of a built-in scalar, nullable or not, is the zero value of its
/// Swift type: `false` for `Boolean`, `0` for `Int`, `0.0` for `Float` and the empty string
/// for `String` and `ID`.
pub proof fn law_builtin_scalar_mocks_are_zero_values(s: GraphQLScalarType, config: ApolloCodegenConfiguration)
    ensures
        s.name.schema_name@ == "Boolean"@ ==> {
            &&& spec_default_mock_value(GraphQLType::Scalar(s), config) == "false"@
            &&& spec_default_mock_value(GraphQLType::NonNull(Box::new(GraphQLType::Scalar(s))), config) == "false"@
        },
        s.name.schema_name@ == "Int"@ ==> {
            &&& spec_default_mock_value(GraphQLType::Scalar(s), config) == "0"@
            &&& spec_default_mock_value(GraphQLType::NonNull(Box::new(GraphQLType::Scalar(s))), config) == "0"@
        },
        s.name.schema_name@ == "Float"@ ==> {
            &&& spec_default_mock_value(GraphQLType::Scalar(s), config) == "0.0"@
            &&& spec_default_mock_value(GraphQLType::NonNull(Box::new(GraphQLType::Scalar(s))), config) == "0.0"@
        },
        s.name.schema_name@ == "String"@ || s.name.schema_name@ == "ID"@ ==> {
            &&& spec_default_mock_value(GraphQLType::Scalar(s), config) == "\"\""@
            &&& spec_default_mock_value(GraphQLType::NonNull(Box::new(GraphQLType::Scalar(s))), config) == "\"\""@
        },
{
    reveal_strlit("Boolean");
    reveal_strlit("Int");
    reveal_strlit("Float");
    reveal_strlit("String");
    reveal_strlit("ID");
    reveal_with_fuel(spec_default_mock_value, 2);
    let n = s.name.schema_name@;
    if n == "Boolean"@ || n == "Int"@ || n == "Float"@ {
        assert(n != "String"@ && n != "ID"@) by {
            assert(n.len() != "String"@.len() && n.len() != "ID"@.len());
        }
    }
    if n == "Float"@ || n == "Boolean"@ {
        assert(n != "Int"@);
    }
    if n == "Boolean"@ {
        assert(n != "Float"@);
    }
}

/// The name of the `_set` function of the mock that sets a field of this type.
pub open spec fn spec_mock_function_descriptor(t: GraphQLType) -> Seq<char>
    decreases t,
{
    match t {
        GraphQLType::List(inner) => match *inner {
            GraphQLType::NonNull(inner2) => match *inner2 {
                GraphQLType::List(_) => spec_mock_function_descriptor(*inner),
                GraphQLType::Entity(_) => "List"@,
                _ => "ScalarList"@,
            },
            GraphQLType::List(_) => spec_mock_function_descriptor(*inner),
            GraphQLType::Entity(_) => "List"@,
            _ => "ScalarList"@,
        },
        GraphQLType::Scalar(_) | GraphQLType::Enum(_) => "Scalar"@,
        GraphQLType::Entity(_) => "Entity"@,
        GraphQLType::InputObject(_) => Seq::empty(),
        GraphQLType::NonNull(inner) => spec_mock_function_descriptor(*inner),
    }
}

/// A type as the parameter type of the convenience initializer: entities as mocks (any
/// mock for abstract types), other named types as they render in test mocks, lists in
/// brackets, and optional unless non-null.
pub open spec fn spec_mock_type_name(t: GraphQLType, force_non_null: bool, config: ApolloCodegenConfiguration) -> Seq<char>
    decreases t,
{
    match t {
        GraphQLType::Entity(c) => {
            let mock_type = match c {
                GraphQLCompositeType::Object(o) => "Mock<"@
                    + spec_render_named_type(GraphQLNamedType::Object(&o), RenderContext::Typename { is_input_value: false }) + ">"@,
                _ => "(any AnyMock)"@,
            };
            if force_non_null {
                mock_type
            } else {
                mock_type + "?"@
            }
        },
        GraphQLType::NonNull(inner) => spec_mock_type_name(*inner, true, config),
        GraphQLType::List(inner) => {
            let inner_name = spec_mock_type_name(*inner, false, config);
            if force_non_null {
                "["@ + inner_name + "]"@
            } else {
                "["@ + inner_name + "]?"@
            }
        },
        _ => {
            let type_str = spec_rendered(t, TypeRenderContext::TestMockField { force_non_null: true }, None, config);
            if force_non_null {
                type_str
            } else {
                type_str + "?"@
            }
        },
    }
}

fn default_mock_value(t: &GraphQLType, config: &ApolloCodegenConfiguration) -> (r: String)
    requires
        spec_default_mockable(*t),
    ensures
        r@ == spec_default_mock_value(*t, *config),
    decreases t,
{
    match t {
        GraphQLType::List(_) => String::from_str("[]"),
        GraphQLType::NonNull(inner) => default_mock_value(inner, config),
        GraphQLType::Scalar(s) => {
            let n = s.name.schema_name.as_str();
            proof {
                reveal_strlit("String");
                reveal_strlit("ID");
                reveal_strlit("Int");
                reveal_strlit("Float");
                reveal_strlit("Boolean");
            }
            if str_eq(n, "String") || str_eq(n, "ID") {
                String::from_str("\"\"")
            } else if str_eq(n, "Int") {
                String::from_str("0")
            } else if str_eq(n, "Float") {
                String::from_str("0.0")
            } else if str_eq(n, "Boolean") {
                String::from_str("false")
            } else {
                String::from_str(".defaultMockValue")
            }
        },
        GraphQLType::Enum(e) => {
            let case_name = render_enum_value(&e.values[0], EnumRenderContext::EnumCase, config);
            let mut r = String::from_str(".case(.");
            r.append(case_name.as_str());
            r.append(")");
            r
        },
        GraphQLType::Entity(GraphQLCompositeType::Object(o)) => {
            let name = render_named_type(&GraphQLNamedType::Object(o), &RenderContext::Typename { is_input_value: false });
            let mut r = String::from_str("Mock<");
            r.append(name.as_str());
            r.append(">()");
            r
        },
        GraphQLType::Entity(GraphQLCompositeType::Interface(i)) => {
            let mut r = String::from_str("Mock<");
            r.append(i.implementing_objects[0].name.schema_name.as_str());
            r.append(">()");
            r
        },
        GraphQLType::Entity(GraphQLCompositeType::Union(u)) => {
            let mut r = String::from_str("Mock<");
            r.append(u.types[0].name.schema_name.as_str());
            r.append(">()");
            r
        },
        GraphQLType::InputObject(_) => String::new(),
    }
}

fn mock_function_descriptor(t: &GraphQLType) -> (r: &'static str)
    ensures
        r@ == spec_mock_function_descriptor(*t),
    decreases t,
{
    match t {
        GraphQLType::List(inner) => match &**inner {
            GraphQLType::NonNull(inner2) => match &**inner2 {
                GraphQLType::List(_) => mock_function_descriptor(inner),
                GraphQLType::Entity(_) => "List",
                _ => "ScalarList",
            },
            GraphQLType::List(_) => mock_function_descriptor(inner),
            GraphQLType::Entity(_) => "List",
            _ => "ScalarList",
        },
        GraphQLType::Scalar(_) | GraphQLType::Enum(_) => "Scalar",
        GraphQLType::Entity(_) => "Entity",
        GraphQLType::InputObject(_) => {
            proof {
                reveal_strlit("");
            }
            ""
        },
        GraphQLType::NonNull(inner) => mock_function_descriptor(inner),
    }
}

fn mock_type_name(t: &GraphQLType, force_non_null: bool, config: &ApolloCodegenConfiguration) -> (r: String)
    ensures
        r@ == spec_mock_type_name(*t, force_non_null, *config),
    decreases t,
{
    match t {
        GraphQLType::Entity(c) => {
            let mut mock_type = match c {
                GraphQLCompositeType::Object(o) => {
                    let name = render_named_type(&GraphQLNamedType::Object(o), &RenderContext::Typename { is_input_value: false });
                    let mut m = String::from_str("Mock<");
                    m.append(name.as_str());
                    m.append(">");
                    m
                },
                _ => String::from_str("(any AnyMock)"),
            };
            if !force_non_null {
                mock_type.append("?");
            }
            mock_type
        },
        GraphQLType::NonNull(inner) => mock_type_name(inner, true, config),
        GraphQLType::List(inner) => {
            let inner_name = mock_type_name(inner, false, config);
            let mut r = String::from_str("[");
            r.append(inner_name.as_str());
            if force_non_null {
                r.append("]");
            } else {
                r.append("]?");
            }
            r
        },
        _ => {
            let mut type_str = rendered(t, &TypeRenderContext::TestMockField { force_non_null: true }, None, config);
            if !force_non_null {
                type_str.append("?");
            }
            type_str
        },
    }
}

// ---------------------------------------------------------------------------
// Field lines
// ---------------------------------------------------------------------------

/// A mock field: its response key, type and deprecation reason.
pub open spec fn spec_property_name(f: (String, GraphQLType, Option<String>)) -> Seq<char> {
    spec_escape_if(f.0@, SwiftKeywords::TEST_MOCK_FIELD_NAMES_TO_ESCAPE@)
}

/// The internal name of the initializer parameter of a field whose name cannot be one.
pub open spec fn spec_initializer_parameter_name(f: (String, GraphQLType, Option<String>)) -> Option<Seq<char>> {
    if spec_is_in(SwiftKeywords::TEST_MOCK_INITIALIZER_PARAMETERS_TO_SUFFIX@, f.0@) {
        Some(f.0@ + "_value"@)
    } else {
        None
    }
}

/// The name the initializer sets a field from.
pub open spec fn spec_argument_name(f: (String, GraphQLType, Option<String>)) -> Seq<char> {
    match spec_initializer_parameter_name(f) {
        Some(n) => n,
        None => spec_property_name(f),
    }
}

/// The declaration of a field in `MockFields`, after its deprecation annotation.
pub open spec fn spec_mock_field_line(f: (String, GraphQLType, Option<String>), config: ApolloCodegenConfiguration) -> Seq<char> {
    let deprecation = spec_mock_deprecation(opt_view(f.2), config);
    deprecation + "    "@ + (if deprecation.len() == 0 {
        Seq::empty()
    } else {
        "    "@
    }) + "@Field<"@ + spec_rendered(f.1, TypeRenderContext::TestMockField { force_non_null: true }, None, config)
        + ">(\""@ + f.0@ + "\") public var "@ + spec_property_name(f)
}

/// The default of an initializer parameter: `nil` for a nullable field, else its default
/// mock value.
pub open spec fn spec_default_initializer(t: GraphQLType, config: ApolloCodegenConfiguration) -> Seq<char> {
    if !(t is NonNull) {
        " = nil"@
    } else {
        " = "@ + spec_default_mock_value(t, config)
    }
}

/// The initializer parameter of a field.
pub open spec fn spec_parameter_line(f: (String, GraphQLType, Option<String>), config: ApolloCodegenConfiguration) -> Seq<char> {
    let name = match spec_initializer_parameter_name(f) {
        Some(n) => spec_property_name(f) + " "@ + n,
        None => spec_property_name(f),
    };
    "    "@ + name + ": "@ + spec_mock_type_name(f.1, false, config) + spec_default_initializer(f.1, config)
}

/// The statement of the initializer that sets a field.
pub open spec fn spec_set_line(f: (String, GraphQLType, Option<String>)) -> Seq<char> {
    "    _set"@ + spec_mock_function_descriptor(f.1) + "("@ + spec_argument_name(f) + ", for: \\."@
        + spec_property_name(f) + ")\n"@
}

/// For a field whose name conflicts with a member of the mock, a property that reaches it
/// through the mock's data, followed by a blank line; nothing for other fields.
pub open spec fn spec_conflicting_property(f: (String, GraphQLType, Option<String>), config: ApolloCodegenConfiguration) -> Seq<char> {
    if spec_is_in(SwiftKeywords::TEST_MOCK_CONFLICTING_FIELD_NAMES@, f.0@) {
        let p = spec_property_name(f);
        let m = spec_mock_type_name(f.1, false, config);
        "  var "@ + p + ": "@ + m + "? {\n    get { _data[\""@ + p + "\"] as? "@ + m + " }\n    set { _set"@
            + spec_mock_function_descriptor(f.1) + "(newValue, for: \\."@ + p + ") }\n  }\n\n"@
    } else {
        Seq::empty()
    }
}

/// The `MockFields` declarations of the fields.
pub open spec fn spec_mock_field_lines(fs: Seq<(String, GraphQLType, Option<String>)>, config: ApolloCodegenConfiguration) -> Seq<Seq<char>>
    decreases fs.len(),
{
    if fs.len() == 0 {
        Seq::empty()
    } else {
        spec_mock_field_lines(fs.drop_last(), config).push(spec_mock_field_line(fs.last(), config))
    }
}

/// The initializer parameters of the fields.
pub open spec fn spec_parameter_lines(fs: Seq<(String, GraphQLType, Option<String>)>, config: ApolloCodegenConfiguration) -> Seq<Seq<char>>
    decreases fs.len(),
{
    if fs.len() == 0 {
        Seq::empty()
    } else {
        spec_parameter_lines(fs.drop_last(), config).push(spec_parameter_line(fs.last(), config))
    }
}

/// The statements that set the fields, one after another.
pub open spec fn spec_set_lines(fs: Seq<(String, GraphQLType, Option<String>)>) -> Seq<char>
    decreases fs.len(),
{
    if fs.len() == 0 {
        Seq::empty()
    } else {
        spec_set_lines(fs.drop_last()) + spec_set_line(fs.last())
    }
}

/// The conflicting-name properties of the fields, one after another.
pub open spec fn spec_conflicting_properties(fs: Seq<(String, GraphQLType, Option<String>)>, config: ApolloCodegenConfiguration) -> Seq<char>
    decreases fs.len(),
{
    if fs.len() == 0 {
        Seq::empty()
    } else {
        spec_conflicting_properties(fs.drop_last(), config) + spec_conflicting_property(fs.last(), config)
    }
}

/// The fields in the order of their response keys.
pub open spec fn spec_sorted_fields(fields: Seq<(String, GraphQLType, Option<String>)>) -> Seq<(String, GraphQLType, Option<String>)> {
    let order = spec_sorted_order(spec_field_keys(fields), fields.len());
    Seq::new(fields.len(), |k: int| fields[order[k]])
}

/// The body of a test mock file for an object: the mock class with its `MockFields`, a
/// blank line, and, when there are fields, the extension with the convenience initializer.
pub open spec fn spec_mock_object_body(
    o: GraphQLObjectType,
    fields: Seq<(String, GraphQLType, Option<String>)>,
    config: ConfigurationContext,
) -> Seq<char> {
    let c = config.config;
    let fs = spec_sorted_fields(fields);
    let name = spec_render_named_type(GraphQLNamedType::Object(&o), RenderContext::Typename { is_input_value: false });
    let ma = spec_template_access(TemplateTarget::TestMockFile, c, Scope::Member);
    let pa = spec_template_access(TemplateTarget::TestMockFile, c, Scope::Parent);
    let mock_fields = if fs.len() == 0 {
        "  "@ + ma + "struct MockFields: Sendable {\n  }\n"@
    } else {
        "  "@ + ma + "struct MockFields: Sendable {\n"@ + join(spec_mock_field_lines(fs, c), seq!['\n']) + "\n  }\n"@
    };
    let class = pa + "final class "@ + name + ": MockObject {\n  "@ + ma + "static let objectType: ApolloAPI.Object = "@
        + spec_first_uppercased(c.schema_namespace@) + ".Objects."@ + name + "\n  "@ + ma
        + "static let _mockFields = MockFields()\n  "@ + ma + "typealias MockValueCollectionType = Array<Mock<"@
        + name + ">>\n\n"@ + mock_fields + "}\n\n"@;
    if fs.len() == 0 {
        class
    } else {
        class + pa + "extension Mock where O == "@ + name + " {\n"@ + spec_conflicting_properties(fs, c)
            + "  convenience init(\n"@ + join(spec_parameter_lines(fs, c), ",\n"@) + "\n  ) {\n    self.init()\n"@
            + spec_set_lines(fs) + "  }\n}\n"@
    }
}

fn mock_field_line(f: &(String, GraphQLType, Option<String>), config: &ApolloCodegenConfiguration) -> (r: String)
    ensures
        r@ == spec_mock_field_line(*f, *config),
{
    let reason = match &f.2 {
        Some(d) => Some(d.as_str()),
        None => None,
    };
    proof {
        assert(match reason {
            Some(s) => Some(s@),
            None => None,
        } == opt_view(f.2));
    }
    let deprecation_line = render_mock_deprecation(reason, config);
    let field_type = rendered(&f.1, &TypeRenderContext::TestMockField { force_non_null: true }, None, config);
    let property_name = as_test_mock_field_property_name(f.0.as_str());
    let mut r = String::from_str(deprecation_line.as_str());
    r.append("    ");
    if !deprecation_line.as_str().is_empty() {
        r.append("    ");
    }
    r.append("@Field<");
    r.append(field_type.as_str());
    r.append(">(\"");
    r.append(f.0.as_str());
    r.append("\") public var ");
    r.append(property_name.as_str());
    r
}

fn argument_name(f: &(String, GraphQLType, Option<String>)) -> (r: String)
    ensures
        r@ == spec_argument_name(*f),
{
    match as_test_mock_initializer_parameter_name(f.0.as_str()) {
        Some(n) => n,
        None => as_test_mock_field_property_name(f.0.as_str()),
    }
}

fn parameter_line(f: &(String, GraphQLType, Option<String>), config: &ApolloCodegenConfiguration) -> (r: String)
    requires
        spec_mockable(f.1),
    ensures
        r@ == spec_parameter_line(*f, *config),
{
    let property_name = as_test_mock_field_property_name(f.0.as_str());
    let mut r = String::from_str("    ");
    r.append(property_name.as_str());
    match as_test_mock_initializer_parameter_name(f.0.as_str()) {
        Some(n) => {
            r.append(" ");
            r.append(n.as_str());
        },
        None => {},
    }
    r.append(": ");
    let mock_type = mock_type_name(&f.1, false, config);
    r.append(mock_type.as_str());
    if f.1.is_nullable() {
        r.append(" = nil");
    } else {
        let value = default_mock_value(&f.1, config);
        r.append(" = ");
        r.append(value.as_str());
    }
    r
}

fn set_line(f: &(String, GraphQLType, Option<String>)) -> (r: String)
    ensures
        r@ == spec_set_line(*f),
{
    let property_name = as_test_mock_field_property_name(f.0.as_str());
    let argument = argument_name(f);
    let mut r = String::from_str("    _set");
    r.append(mock_function_descriptor(&f.1));
    r.append("(");
    r.append(argument.as_str());
    r.append(", for: \\.");
    r.append(property_name.as_str());
    r.append(")\n");
    r
}

fn conflicting_property(f: &(String, GraphQLType, Option<String>), config: &ApolloCodegenConfiguration) -> (r: String)
    ensures
        r@ == spec_conflicting_property(*f, *config),
{
    if !is_in(&SwiftKeywords::TEST_MOCK_CONFLICTING_FIELD_NAMES, f.0.as_str()) {
        return String::new();
    }
    let p = as_test_mock_field_property_name(f.0.as_str());
    let m = mock_type_name(&f.1, false, config);
    let mut r = String::from_str("  var ");
    r.append(p.as_str());
    r.append(": ");
    r.append(m.as_str());
    r.append("? {\n    get { _data[\"");
    r.append(p.as_str());
    r.append("\"] as? ");
    r.append(m.as_str());
    r.append(" }\n    set { _set");
    r.append(mock_function_descriptor(&f.1));
    r.append("(newValue, for: \\.");
    r.append(p.as_str());
    r.append(") }\n  }\n\n");
    r
}

// ---------------------------------------------------------------------------
// Template
// ---------------------------------------------------------------------------

/// Renders the test mock class of a GraphQL object type, with a field for each of the
/// given response keys, types and deprecation reasons.
pub struct MockObjectTemplate {
    graphql_object: GraphQLObjectType,
    fields: Vec<(String, GraphQLType, Option<String>)>,
    config: ConfigurationContext,
}

impl MockObjectTemplate {
    /// Every field can be mocked.
    #[verifier::type_invariant]
    spec fn fields_mockable(self) -> bool {
        forall|i: int| 0 <= i < self.fields@.len() ==> spec_mockable(#[trigger] self.fields@[i].1)
    }

    /// A template for the object with the given fields; each field's type must be one that
    /// can be mocked.
    pub fn new(
        graphql_object: GraphQLObjectType,
        fields: Vec<(String, GraphQLType, Option<String>)>,
        config: ConfigurationContext,
    ) -> (r: Self)
        requires
            forall|i: int| 0 <= i < fields@.len() ==> spec_mockable(#[trigger] fields@[i].1),
        ensures
            r.spec_config() == config,
            r.spec_body() == spec_mock_object_body(graphql_object, fields@, config),
    {
        MockObjectTemplate { graphql_object, fields, config }
    }
}

impl TemplateRenderer for MockObjectTemplate {
    closed spec fn spec_config(&self) -> ConfigurationContext {
        self.config
    }

    open spec fn spec_target(&self) -> TemplateTarget {
        TemplateTarget::TestMockFile
    }

    closed spec fn spec_body(&self) -> Seq<char> {
        spec_mock_object_body(self.graphql_object, self.fields@, self.config)
    }

    fn config(&self) -> (r: &ConfigurationContext) {
        &self.config
    }

    fn target(&self) -> (r: TemplateTarget) {
        TemplateTarget::TestMockFile
    }

    fn render_header_template(&self, _non_fatal_error_recorder: &NonFatalErrorRecorder) -> (r: Option<String>) {
        standard_header_template()
    }

    fn render_detached_template(&self, _non_fatal_error_recorder: &NonFatalErrorRecorder) -> (r: Option<String>) {
        None
    }

    fn render_body_template(&self, _non_fatal_error_recorder: &NonFatalErrorRecorder) -> (r: String) {
        proof {
            use_type_invariant(self);
        }
        let ghost c = self.config.config;
        let ghost fields = self.fields@;
        let ghost fs = spec_sorted_fields(fields);
        let object_name = render_named_type(
            &GraphQLNamedType::Object(&self.graphql_object),
            &RenderContext::Typename { is_input_value: false },
        );
        let order = sorted_order(&self.fields);
        proof {
            lemma_sorted_order_bounds(spec_field_keys(fields), fields.len());
        }
        let mut field_lines: Vec<String> = Vec::new();
        let mut parameter_lines: Vec<String> = Vec::new();
        let mut set_lines = String::new();
        let mut conflicting = String::new();
        let mut k: usize = 0;
        while k < order.len()
            invariant
                k <= order.len(),
                fields == self.fields@,
                c == self.config.config,
                fs == spec_sorted_fields(fields),
                order@.len() == fields.len(),
                forall|j: int| 0 <= j < order@.len() ==> #[trigger] order@[j] < fields.len(),
                forall|j: int| 0 <= j < order@.len() ==> #[trigger] order@[j] as int == spec_sorted_order(spec_field_keys(fields), fields.len())[j],
                forall|i: int| 0 <= i < fields.len() ==> spec_mockable(#[trigger] fields[i].1),
                views(field_lines@) == spec_mock_field_lines(fs.take(k as int), c),
                views(parameter_lines@) == spec_parameter_lines(fs.take(k as int), c),
                set_lines@ == spec_set_lines(fs.take(k as int)),
                conflicting@ == spec_conflicting_properties(fs.take(k as int), c),
            decreases order.len() - k,
        {
            let f = &self.fields[order[k]];
            proof {
                assert(fs[k as int] == fields[order@[k as int] as int]);
                assert(*f == fs[k as int]);
                assert(fs.take(k + 1).drop_last() =~= fs.take(k as int));
                assert(fs.take(k + 1).last() == fs[k as int]);
                assert(spec_mockable(fields[order@[k as int] as int].1));
            }
            push_part(&mut field_lines, mock_field_line(f, &self.config.config));
            push_part(&mut parameter_lines, parameter_line(f, &self.config.config));
            let set = set_line(f);
            set_lines.append(set.as_str());
            let property = conflicting_property(f, &self.config.config);
            conflicting.append(property.as_str());
            k = k + 1;
        }
        proof {
            assert(fs.take(order.len() as int) =~= fs);
            reveal_strlit("\n");
            assert("\n"@ =~= seq!['\n']);
        }
        let member_access = self.access_control_renderer(Scope::Member).render();
        let parent_access = self.access_control_renderer(Scope::Parent).render();
        let schema_ns = first_uppercased(self.config.schema_namespace());
        let mut result = String::from_str(parent_access.as_str());
        result.append("final class ");
        result.append(object_name.as_str());
        result.append(": MockObject {\n  ");
        result.append(member_access.as_str());
        result.append("static let objectType: ApolloAPI.Object = ");
        result.append(schema_ns.as_str());
        result.append(".Objects.");
        result.append(object_name.as_str());
        result.append("\n  ");
        result.append(member_access.as_str());
        result.append("static let _mockFields = MockFields()\n  ");
        result.append(member_access.as_str());
        result.append("typealias MockValueCollectionType = Array<Mock<");
        result.append(object_name.as_str());
        result.append(">>\n\n");
        result.append("  ");
        result.append(member_access.as_str());
        if order.len() == 0 {
            result.append("struct MockFields: Sendable {\n  }\n");
        } else {
            let body = join_strings(&field_lines, "\n");
            result.append("struct MockFields: Sendable {\n");
            result.append(body.as_str());
            result.append("\n  }\n");
        }
        result.append("}\n\n");
        if order.len() > 0 {
            let params = join_strings(&parameter_lines, ",\n");
            result.append(parent_access.as_str());
            result.append("extension Mock where O == ");
            result.append(object_name.as_str());
            result.append(" {\n");
            result.append(conflicting.as_str());
            result.append("  convenience init(\n");
            result.append(params.as_str());
            result.append("\n  ) {\n    self.init()\n");
            result.append(set_lines.as_str());
            result.append("  }\n}\n");
        }
        result
    }
}

} // verus!
