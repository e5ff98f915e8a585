use shape_diff::diff::{DiffArrayVisitor, DiffPrimitiveVisitor, DiffVisitors};
use shape_diff::shapes::{
    accepts_kind, ChoiceOutput, JsonTrail, JsonTrailPathComponent, JsonValue, ShapeDiffResult,
    ShapeKind, ShapeTrail, ShapeTrailPathComponent,
};
use shape_diff::visitors::InteractionVisitor;

fn origin() -> ShapeTrail {
    ShapeTrail::new("root_shape".to_string())
}

fn body_trail() -> JsonTrail {
    JsonTrail::empty().with_component(JsonTrailPathComponent::JsonObjectKey { key: "field".to_string() })
}

fn choice(kind: ShapeKind, shape_id: &str) -> ChoiceOutput {
    ChoiceOutput {
        parent_trail: origin(),
        additional_components: vec![ShapeTrailPathComponent::OneOfItemTrail {
            one_of_id: "one_of".to_string(),
            parent_shape_id: "root_shape".to_string(),
            item_shape_id: shape_id.to_string(),
        }],
        shape_id: shape_id.to_string(),
        core_shape_kind: kind,
    }
}

fn unmatched_trail(result: &ShapeDiffResult) -> (Vec<JsonTrailPathComponent>, ShapeTrail) {
    match result {
        ShapeDiffResult::UnmatchedShape { json_trail, shape_trail } => (json_trail.path.clone(), shape_trail.clone()),
        ShapeDiffResult::UnspecifiedShape { .. } => panic!("expected an unmatched record"),
    }
}

#[test]
fn primitive_true_matches_boolean() {
    let mut visitor = DiffPrimitiveVisitor::new();
    visitor.visit(JsonValue::Bool(true), body_trail(), origin(), vec![choice(ShapeKind::BooleanKind, "b")]);
    assert_eq!(visitor.take_results().unwrap().len(), 0);
}

#[test]
fn primitive_string_against_number_and_boolean() {
    let mut visitor = DiffPrimitiveVisitor::new();
    visitor.visit(
        JsonValue::String("x".to_string()),
        body_trail(),
        origin(),
        vec![choice(ShapeKind::NumberKind, "n"), choice(ShapeKind::BooleanKind, "b")],
    );
    let results = visitor.take_results().unwrap();
    assert_eq!(results.len(), 2);
    let (json0, shape0) = unmatched_trail(&results[0]);
    let (json1, shape1) = unmatched_trail(&results[1]);
    assert_eq!(json0, body_trail().path);
    assert_eq!(json1, body_trail().path);
    assert_eq!(shape0.root_shape_id, "root_shape");
    assert_eq!(shape0.path, choice(ShapeKind::NumberKind, "n").additional_components);
    assert_eq!(shape1.path, choice(ShapeKind::BooleanKind, "b").additional_components);
}

#[test]
fn primitive_null_without_choices_is_unspecified() {
    let mut visitor = DiffPrimitiveVisitor::new();
    visitor.visit(JsonValue::Null, body_trail(), origin(), vec![]);
    let results = visitor.take_results().unwrap();
    assert_eq!(results.len(), 1);
    match &results[0] {
        ShapeDiffResult::UnspecifiedShape { json_trail, shape_trail } => {
            assert_eq!(json_trail.path, body_trail().path);
            assert_eq!(shape_trail.root_shape_id, "root_shape");
            assert!(shape_trail.path.is_empty());
        }
        ShapeDiffResult::UnmatchedShape { .. } => panic!("expected an unspecified record"),
    }
}

#[test]
fn primitive_null_matches_nullable() {
    let mut visitor = DiffPrimitiveVisitor::new();
    visitor.visit(
        JsonValue::Null,
        body_trail(),
        origin(),
        vec![choice(ShapeKind::StringKind, "s"), choice(ShapeKind::NullableKind, "z")],
    );
    assert!(visitor.take_results().unwrap().is_empty());
}

#[test]
fn primitive_number_against_string_is_unmatched() {
    let mut visitor = DiffPrimitiveVisitor::new();
    visitor.visit(JsonValue::Number("12".to_string()), body_trail(), origin(), vec![choice(ShapeKind::StringKind, "s")]);
    let results = visitor.take_results().unwrap();
    assert_eq!(results.len(), 1);
    let (_, shape) = unmatched_trail(&results[0]);
    assert_eq!(shape.path.len(), 1);
}

#[test]
fn array_matches_list() {
    let mut visitor = DiffArrayVisitor::new();
    let value = JsonValue::Array(vec![JsonValue::Number("1".to_string()), JsonValue::Number("2".to_string())]);
    let seed = visitor.visit(
        value,
        body_trail(),
        origin(),
        vec![choice(ShapeKind::ListKind, "l"), choice(ShapeKind::StringKind, "s")],
    );
    assert!(seed.is_empty());
    assert!(visitor.take_results().unwrap().is_empty());
}

#[test]
fn array_against_string_is_unmatched() {
    let mut visitor = DiffArrayVisitor::new();
    let value = JsonValue::Array(vec![JsonValue::Number("1".to_string()), JsonValue::Number("2".to_string())]);
    let seed = visitor.visit(value, body_trail(), origin(), vec![choice(ShapeKind::StringKind, "s")]);
    assert!(seed.is_empty());
    let results = visitor.take_results().unwrap();
    assert_eq!(results.len(), 1);
    let (json, shape) = unmatched_trail(&results[0]);
    assert_eq!(json, body_trail().path);
    assert_eq!(shape.path, choice(ShapeKind::StringKind, "s").additional_components);
}

#[test]
fn array_without_choices_is_unspecified() {
    let mut visitor = DiffArrayVisitor::new();
    let seed = visitor.visit(JsonValue::Array(vec![]), body_trail(), origin(), vec![]);
    assert!(seed.is_empty());
    let results = visitor.take_results().unwrap();
    assert_eq!(results.len(), 1);
    assert!(matches!(results[0], ShapeDiffResult::UnspecifiedShape { .. }));
}

#[test]
fn repeated_visits_give_equal_records() {
    let mut visitor = DiffPrimitiveVisitor::new();
    let choices = || vec![choice(ShapeKind::NumberKind, "n"), choice(ShapeKind::ListKind, "l")];
    visitor.visit(JsonValue::Bool(false), body_trail(), origin(), choices());
    let first = visitor.take_results().unwrap();
    visitor.visit(JsonValue::Bool(false), body_trail(), origin(), choices());
    let second = visitor.take_results().unwrap();
    assert_eq!(first.len(), 2);
    assert_eq!(second.len(), 2);
    for i in 0..2 {
        assert_eq!(unmatched_trail(&first[i]), unmatched_trail(&second[i]));
    }
}

#[test]
fn records_accumulate_across_visits_in_order() {
    let mut visitor = DiffPrimitiveVisitor::new();
    visitor.visit(JsonValue::Null, body_trail(), origin(), vec![]);
    visitor.visit(JsonValue::Bool(true), body_trail(), origin(), vec![choice(ShapeKind::StringKind, "s")]);
    let results = visitor.take_results().unwrap();
    assert_eq!(results.len(), 2);
    assert!(matches!(results[0], ShapeDiffResult::UnspecifiedShape { .. }));
    assert!(matches!(results[1], ShapeDiffResult::UnmatchedShape { .. }));
}

#[test]
fn second_drain_is_empty_not_absent() {
    let mut visitor = DiffArrayVisitor::new();
    visitor.visit(JsonValue::Array(vec![]), body_trail(), origin(), vec![]);
    assert_eq!(visitor.take_results().unwrap().len(), 1);
    let again = visitor.take_results();
    assert!(again.is_some());
    assert!(again.unwrap().is_empty());
}

#[test]
fn pushed_results_come_back_in_order() {
    let mut visitor = DiffPrimitiveVisitor::new();
    let a = ShapeDiffResult::UnspecifiedShape { json_trail: JsonTrail::empty(), shape_trail: ShapeTrail::new("a".to_string()) };
    let b = ShapeDiffResult::UnmatchedShape { json_trail: JsonTrail::empty(), shape_trail: ShapeTrail::new("b".to_string()) };
    visitor.push(a);
    visitor.push(b);
    let results = visitor.take_results().unwrap();
    assert_eq!(results.len(), 2);
    match (&results[0], &results[1]) {
        (
            ShapeDiffResult::UnspecifiedShape { shape_trail: first, .. },
            ShapeDiffResult::UnmatchedShape { shape_trail: second, .. },
        ) => {
            assert_eq!(first.root_shape_id, "a");
            assert_eq!(second.root_shape_id, "b");
        }
        _ => panic!("results out of order"),
    }
}

#[test]
fn diff_visitors_give_access_to_both() {
    let mut visitors = DiffVisitors::new();
    visitors.primitive().visit(JsonValue::Null, body_trail(), origin(), vec![]);
    visitors.array().visit(JsonValue::Array(vec![]), body_trail(), origin(), vec![choice(ShapeKind::ListKind, "l")]);
    assert_eq!(visitors.primitive().take_results().unwrap().len(), 1);
    assert_eq!(visitors.array().take_results().unwrap().len(), 0);
}

#[test]
fn kinds_map_to_shape_kinds() {
    assert!(accepts_kind(&JsonValue::Bool(true), ShapeKind::BooleanKind));
    assert!(accepts_kind(&JsonValue::Number("1.5".to_string()), ShapeKind::NumberKind));
    assert!(accepts_kind(&JsonValue::String("s".to_string()), ShapeKind::StringKind));
    assert!(accepts_kind(&JsonValue::Null, ShapeKind::NullableKind));
    assert!(accepts_kind(&JsonValue::Array(vec![]), ShapeKind::ListKind));
    assert!(accepts_kind(&JsonValue::Object(vec![]), ShapeKind::ObjectKind));
    assert!(!accepts_kind(&JsonValue::Null, ShapeKind::OptionalKind));
    assert!(!accepts_kind(&JsonValue::String("s".to_string()), ShapeKind::AnyKind));
}

#[test]
fn choice_trail_extends_parent() {
    let parent = origin().with_component(ShapeTrailPathComponent::ObjectFieldTrail {
        field_id: "f".to_string(),
        field_shape_id: "fs".to_string(),
    });
    let c = ChoiceOutput {
        parent_trail: parent,
        additional_components: vec![ShapeTrailPathComponent::NullableTrail { shape_id: "n".to_string() }],
        shape_id: "n".to_string(),
        core_shape_kind: ShapeKind::NullableKind,
    };
    let trail = c.shape_trail();
    assert_eq!(trail.root_shape_id, "root_shape");
    assert_eq!(trail.path.len(), 2);
    assert_eq!(trail.path[1], ShapeTrailPathComponent::NullableTrail { shape_id: "n".to_string() });
}

#[test]
fn json_trail_copies_are_equal() {
    let trail = body_trail().with_component(JsonTrailPathComponent::JsonArrayItem { index: 3 });
    assert_eq!(trail.duplicate().path, trail.path);
    assert_eq!(trail.path.len(), 2);
}
