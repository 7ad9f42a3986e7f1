use sysyust::generate::transformable_derive;
use sysyust::runtime::Transformable;
use sysyust::schema::{Declaration, DeclarationKind, FieldsDecl, VariantDecl};

pub enum Expr {
    Add(Box<Expr>, Box<Expr>),
    AtomExpr(i32),
}

/// The interface of `Expr`, method by method as it is generated.
trait ExprTransformer: Sized {
    fn visit_add(&mut self, _lhs: &Box<Expr>, _rhs: &Box<Expr>) -> () {}

    fn visit_atom_expr(&mut self, _value: &i32) -> () {}

    fn transform_add(&mut self, lhs: Box<Expr>, rhs: Box<Expr>) -> Expr {
        self.visit_add(&lhs, &rhs);
        Expr::Add(lhs, rhs)
    }

    fn transform_atom_expr(&mut self, value: i32) -> Expr {
        self.visit_atom_expr(&value);
        Expr::AtomExpr(value)
    }
}

impl Expr {
    fn transform(self, tr: &mut impl ExprTransformer) -> Self {
        match self {
            Self::Add(lhs, rhs) => tr.transform_add(lhs, rhs),
            Self::AtomExpr(value) => tr.transform_atom_expr(value),
        }
    }
}

struct ExprFoldTransformer {}

impl ExprTransformer for ExprFoldTransformer {
    fn transform_add(&mut self, lhs: Box<Expr>, rhs: Box<Expr>) -> Expr {
        let fold_lhs = lhs.transform(self);
        let fold_rhs = rhs.transform(self);

        match (fold_lhs, fold_rhs) {
            (Expr::AtomExpr(lhs_val), Expr::AtomExpr(rhs_val)) => Expr::AtomExpr(lhs_val + rhs_val),
            _ => panic!("Unexpected transform"),
        }
    }
}

struct Folded(Expr);

impl Transformable for Folded {
    type Transformer = ExprFoldTransformer;

    fn transform(self, tf: &mut ExprFoldTransformer) -> Self {
        Folded(self.0.transform(tf))
    }
}

fn expr_declaration() -> Declaration {
    let boxed = || String::from("Box < Expr >");
    Declaration {
        name: String::from("Expr"),
        kind: DeclarationKind::Enum(vec![
            VariantDecl {
                name: String::from("Add"),
                fields: FieldsDecl::Tuple(vec![boxed(), boxed()]),
            },
            VariantDecl {
                name: String::from("AtomExpr"),
                fields: FieldsDecl::Tuple(vec![String::from("i32")]),
            },
        ]),
    }
}

/// The hand-written interface and dispatcher have the methods, and the
/// dispatcher the arms, that are generated for the declaration of `Expr`.
fn assert_expansion_matches_generation() {
    let generated = transformable_derive(&expr_declaration()).unwrap();
    assert_eq!(generated.interface.name, "ExprTransformer");
    let visits: Vec<(&str, usize)> =
        generated.interface.visits.iter().map(|h| (h.name.as_str(), h.params.len())).collect();
    assert_eq!(visits, vec![("visit_add", 2), ("visit_atom_expr", 1)]);
    let transforms: Vec<(&str, usize, &str)> = generated
        .interface
        .transforms
        .iter()
        .map(|h| (h.name.as_str(), h.params.len(), h.variant.as_str()))
        .collect();
    assert_eq!(
        transforms,
        vec![("transform_add", 2, "Add"), ("transform_atom_expr", 1, "AtomExpr")]
    );
    let arms: Vec<(&str, usize, &str)> = generated
        .dispatcher
        .arms
        .iter()
        .map(|a| (a.variant.as_str(), a.bindings.len(), a.method.as_str()))
        .collect();
    assert_eq!(arms, vec![("Add", 2, "transform_add"), ("AtomExpr", 1, "transform_atom_expr")]);
}

#[test]
fn test_apply() {
    assert_expansion_matches_generation();

    let example_expr = Expr::Add(Box::new(Expr::AtomExpr(1)), Box::new(Expr::AtomExpr(2)));
    let mut folder = ExprFoldTransformer {};
    let ans_expr = example_expr.transform(&mut folder);
    let ans_value = match ans_expr {
        Expr::AtomExpr(lhs) => lhs,
        _ => panic!("Unexpected transform"),
    };

    assert_eq!(ans_value, 3);
}

#[test]
fn nested_sum_is_folded() {
    assert_expansion_matches_generation();

    let expr = Expr::Add(
        Box::new(Expr::Add(Box::new(Expr::AtomExpr(32)), Box::new(Expr::AtomExpr(32)))),
        Box::new(Expr::AtomExpr(1)),
    );
    let mut folder = ExprFoldTransformer {};
    match Folded(expr).transform(&mut folder) {
        Folded(Expr::AtomExpr(value)) => assert_eq!(value, 65),
        _ => panic!("Unexpected transform"),
    }
}

#[test]
fn atom_is_left_as_it_is() {
    let mut folder = ExprFoldTransformer {};
    match Expr::AtomExpr(5).transform(&mut folder) {
        Expr::AtomExpr(value) => assert_eq!(value, 5),
        _ => panic!("Unexpected transform"),
    }
}
