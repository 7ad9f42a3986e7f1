use sysyust::generate::Generated;
use sysyust::runtime::{ScriptedTransformer, UnionValue, VisitRecord};
use sysyust::schema::{TaggedUnionSchema, VariantSchema};

fn variant(name: &str, payload: &[&str]) -> VariantSchema {
    VariantSchema {
        name: String::from(name),
        payload: payload.iter().map(|t| String::from(*t)).collect(),
    }
}

fn generated(variants: Vec<VariantSchema>) -> Generated {
    TaggedUnionSchema { name: String::from("Expr"), variants }.generate()
}

fn expr() -> Generated {
    generated(vec![variant("Add", &["Lhs", "Rhs"]), variant("AtomExpr", &["i32"])])
}

fn value(name: &str, payload: &[i64]) -> UnionValue<i64> {
    UnionValue { variant: String::from(name), payload: payload.to_vec() }
}

#[test]
fn default_transformer_returns_every_variant_unchanged() {
    let generated = expr();
    let mut tr = ScriptedTransformer::new();
    assert_eq!(generated.apply(value("Add", &[1, 2]), &mut tr), Some(value("Add", &[1, 2])));
    assert_eq!(generated.apply(value("AtomExpr", &[7]), &mut tr), Some(value("AtomExpr", &[7])));
    assert!(tr.overrides.is_empty());
}

#[test]
fn override_returns_its_result_whatever_the_payload() {
    let generated = expr();
    let mut tr = ScriptedTransformer::new();
    tr.override_transform(String::from("transform_add"), value("AtomExpr", &[99]));
    assert_eq!(generated.apply(value("Add", &[1, 2]), &mut tr), Some(value("AtomExpr", &[99])));
    assert_eq!(generated.apply(value("Add", &[-5, 40]), &mut tr), Some(value("AtomExpr", &[99])));
    assert!(tr.visited.is_empty());
}

#[test]
fn override_of_one_variant_leaves_the_others_at_default() {
    let generated = expr();
    let mut tr = ScriptedTransformer::new();
    tr.override_transform(String::from("transform_add"), value("AtomExpr", &[99]));
    assert_eq!(generated.apply(value("AtomExpr", &[3]), &mut tr), Some(value("AtomExpr", &[3])));
}

#[test]
fn first_override_of_a_method_stays_in_force() {
    let generated = expr();
    let mut tr = ScriptedTransformer::new();
    tr.override_transform(String::from("transform_atom_expr"), value("AtomExpr", &[1]));
    tr.override_transform(String::from("transform_atom_expr"), value("AtomExpr", &[2]));
    assert_eq!(generated.apply(value("AtomExpr", &[0]), &mut tr), Some(value("AtomExpr", &[1])));
}

#[test]
fn default_transform_calls_visit_exactly_once() {
    let generated = expr();
    let mut tr = ScriptedTransformer::new();
    let returned = generated.apply(value("Add", &[1, 2]), &mut tr);
    assert_eq!(
        tr.visited,
        vec![VisitRecord { method: String::from("visit_add"), payload: vec![1, 2] }]
    );
    assert_eq!(returned, Some(value("Add", &[1, 2])));
}

#[test]
fn visits_are_recorded_in_call_order() {
    let generated = expr();
    let mut tr = ScriptedTransformer::new();
    generated.apply(value("AtomExpr", &[7]), &mut tr);
    generated.apply(value("Add", &[1, 2]), &mut tr);
    assert_eq!(
        tr.visited,
        vec![
            VisitRecord { method: String::from("visit_atom_expr"), payload: vec![7] },
            VisitRecord { method: String::from("visit_add"), payload: vec![1, 2] },
        ]
    );
}

#[test]
fn dispatcher_does_not_recurse_into_the_payload() {
    let generated = expr();
    let mut tr = ScriptedTransformer::new();
    generated.apply(value("Add", &[1, 2]), &mut tr);
    assert_eq!(tr.visited.len(), 1);
}

#[test]
fn value_of_no_variant_is_not_dispatched() {
    let generated = expr();
    let mut tr = ScriptedTransformer::new();
    assert_eq!(generated.apply(value("Mul", &[1, 2]), &mut tr), None);
    assert_eq!(generated.apply(value("add", &[1, 2]), &mut tr), None);
    assert!(tr.visited.is_empty());
}

#[test]
fn payload_of_another_arity_is_not_dispatched() {
    let generated = expr();
    let mut tr = ScriptedTransformer::new();
    assert_eq!(generated.apply(value("Add", &[1]), &mut tr), None);
    assert_eq!(generated.apply(value("AtomExpr", &[]), &mut tr), None);
    tr.override_transform(String::from("transform_add"), value("AtomExpr", &[99]));
    assert_eq!(generated.apply(value("Add", &[1, 2, 3]), &mut tr), None);
    assert!(tr.visited.is_empty());
}

#[test]
fn variant_without_payload_is_dispatched() {
    let generated = generated(vec![variant("Eof", &[])]);
    let mut tr = ScriptedTransformer::new();
    assert_eq!(generated.apply(value("Eof", &[]), &mut tr), Some(value("Eof", &[])));
    assert_eq!(tr.visited, vec![VisitRecord { method: String::from("visit_eof"), payload: vec![] }]);
}

#[test]
fn variants_of_one_canonical_name_share_their_methods() {
    let generated = generated(vec![variant("AB", &["i32"]), variant("A_b", &["i32"])]);
    assert_eq!(generated.dispatcher.arms[0].method, generated.dispatcher.arms[1].method);
    let mut tr = ScriptedTransformer::new();
    assert_eq!(generated.apply(value("AB", &[1]), &mut tr), Some(value("AB", &[1])));
    assert_eq!(generated.apply(value("A_b", &[1]), &mut tr), Some(value("AB", &[1])));
}
