use lib::graphql::{DeferCondition, GraphQLCompositeType, GraphQLName, GraphQLObjectType};
use lib::ir::{AnyOf, InclusionCondition, InclusionConditions, ScopeCondition};
use lib::templates::rendering_helpers::selection_set_name_generator::{
    defer_condition_rendered_type_name, selection_set_name_component, SelectionSetNameGenerator,
};
use lib::templates::selection_set_template::{
    condition_variable_expression, condition_variable_expression_single, conditions_variable_expression,
    contains_deferred_inline_fragment,
};

fn object(name: &str) -> GraphQLCompositeType {
    GraphQLCompositeType::Object(GraphQLObjectType {
        name: GraphQLName::new(name.to_string()),
        documentation: None,
        interfaces: Vec::new(),
        key_fields: None,
    })
}

fn defer(label: &str) -> DeferCondition {
    DeferCondition { label: label.to_string(), variable: None }
}

#[test]
fn test_defer_condition_rendered_type_name_simple() {
    assert_eq!(defer_condition_rendered_type_name(&defer("my_deferred")), "MyDeferred");
}

#[test]
fn test_defer_condition_rendered_type_name_reserved() {
    assert_eq!(defer_condition_rendered_type_name(&defer("self")), "Self_SelectionSet");
}

#[test]
fn test_selection_set_name_component_type_only() {
    let cond = ScopeCondition::with_type(object("Dog"));
    assert_eq!(selection_set_name_component(&cond), "AsDog");
}

#[test]
fn test_selection_set_name_component_conditions_only() {
    let cond = ScopeCondition::with_conditions(InclusionConditions::new(InclusionCondition::include_if(
        "showDetails".to_string(),
    )));
    assert_eq!(selection_set_name_component(&cond), "IfShowDetails");
}

#[test]
fn test_selection_set_name_component_inverted_condition() {
    let cond =
        ScopeCondition::with_conditions(InclusionConditions::new(InclusionCondition::skip_if("hideField".to_string())));
    assert_eq!(selection_set_name_component(&cond), "IfNotHideField");
}

#[test]
fn test_selection_set_name_component_deferred() {
    let cond = ScopeCondition::new(None, None, Some(defer("details_section")));
    assert_eq!(selection_set_name_component(&cond), "DetailsSection");
}

#[test]
fn test_selection_set_name_component_type_and_conditions() {
    let cond = ScopeCondition::new(
        Some(object("Dog")),
        Some(InclusionConditions::new(InclusionCondition::include_if("showDog".to_string()))),
        None,
    );
    assert_eq!(selection_set_name_component(&cond), "AsDogIfShowDog");
}

#[test]
fn selection_set_name_component_joins_conditions_with_and() {
    let mut conds = InclusionConditions::new(InclusionCondition::include_if("a".to_string()));
    conds.append(InclusionCondition::skip_if("b".to_string()));
    let cond = ScopeCondition::new(Some(object("cat")), Some(conds), None);
    assert_eq!(selection_set_name_component(&cond), "AsCatIfAAndNotB");
}

#[test]
fn selection_set_name_component_deferred_ignores_type() {
    let cond = ScopeCondition::new(Some(object("Dog")), None, Some(defer("later")));
    assert_eq!(selection_set_name_component(&cond), "Later");
}

#[test]
fn condition_path_joins_components_with_dots() {
    let conditions = vec![
        ScopeCondition::with_type(object("Dog")),
        ScopeCondition::with_conditions(InclusionConditions::new(InclusionCondition::include_if("x".to_string()))),
    ];
    assert_eq!(SelectionSetNameGenerator::condition_path(&conditions), "AsDog.IfX");
    assert_eq!(SelectionSetNameGenerator::condition_path(&conditions[1..]), "IfX");
}

#[test]
fn test_condition_variable_expression_single_include() {
    let cond = InclusionCondition::include_if("showField".to_string());
    assert_eq!(condition_variable_expression_single(&cond), "\"showField\"");
}

#[test]
fn test_condition_variable_expression_single_skip() {
    let cond = InclusionCondition::skip_if("hideField".to_string());
    assert_eq!(condition_variable_expression_single(&cond), "!\"hideField\"");
}

#[test]
fn test_conditions_variable_expression_single() {
    let conds = InclusionConditions::new(InclusionCondition::include_if("flag".to_string()));
    assert_eq!(conditions_variable_expression(&conds, false), "\"flag\"");
}

#[test]
fn test_conditions_variable_expression_multiple_wrapped() {
    let mut conds = InclusionConditions::new(InclusionCondition::include_if("a".to_string()));
    conds.append(InclusionCondition::skip_if("b".to_string()));
    assert_eq!(conditions_variable_expression(&conds, true), "(\"a\" && !\"b\")");
}

#[test]
fn conditions_variable_expression_multiple_unwrapped() {
    let mut conds = InclusionConditions::new(InclusionCondition::include_if("a".to_string()));
    conds.append(InclusionCondition::skip_if("b".to_string()));
    assert_eq!(conditions_variable_expression(&conds, false), "\"a\" && !\"b\"");
}

#[test]
fn test_condition_variable_expression_any_of() {
    let conds_a = InclusionConditions::new(InclusionCondition::include_if("a".to_string()));
    let conds_b = InclusionConditions::new(InclusionCondition::include_if("b".to_string()));
    let any_of = AnyOf::from_vec(vec![conds_a, conds_b]);
    assert_eq!(condition_variable_expression(&any_of), "\"a\" || \"b\"");
}

#[test]
fn condition_variable_expression_any_of_parenthesizes_conjunctions() {
    let mut conds_a = InclusionConditions::new(InclusionCondition::include_if("a".to_string()));
    conds_a.append(InclusionCondition::include_if("c".to_string()));
    let conds_b = InclusionConditions::new(InclusionCondition::skip_if("b".to_string()));
    let any_of = AnyOf::from_vec(vec![conds_a, conds_b]);
    assert_eq!(condition_variable_expression(&any_of), "(\"a\" && \"c\") || !\"b\"");
    let mut single = InclusionConditions::new(InclusionCondition::include_if("a".to_string()));
    single.append(InclusionCondition::include_if("c".to_string()));
    assert_eq!(condition_variable_expression(&AnyOf::from_vec(vec![single])), "\"a\" && \"c\"");
}

#[test]
fn test_contains_deferred_inline_fragment_empty() {
    let keys: Vec<ScopeCondition> = Vec::new();
    assert!(!contains_deferred_inline_fragment(&keys));
}

#[test]
fn contains_deferred_inline_fragment_finds_deferred_key() {
    let keys = vec![ScopeCondition::with_type(object("Dog")), ScopeCondition::new(None, None, Some(defer("d")))];
    assert!(contains_deferred_inline_fragment(&keys));
    assert!(!contains_deferred_inline_fragment(&keys[..1]));
}
