use proc_macro2::TokenStream;
use sysyust::generate::transformable_derive;
use sysyust::schema::{Declaration, DeclarationKind, FieldsDecl, VariantDecl};

pub enum Expr {
    Add(AddExpr),
    Atom(AtomVal),
}

pub struct AtomVal {
    val: i64,
}

pub struct AddExpr {
    lhs: Box<Expr>,
    rhs: Box<Expr>,
}

impl Expr {
    fn transform(self, tr: &mut impl ExprTransformer) -> Self {
        match self {
            Self::Add(add_expr) => tr.transform_add(add_expr),
            Self::Atom(atom_val) => tr.transform_atom(atom_val),
        }
    }
}

trait ExprTransformer {
    #[allow(unused_variables)]
    fn visit_add(&mut self, add_expr: &AddExpr) -> () {}

    #[allow(unused_variables)]
    fn visit_atom(&mut self, atom_val: &AtomVal) -> () {}

    fn transform_add(&mut self, add_expr: AddExpr) -> Expr {
        self.visit_add(&add_expr);
        Expr::Add(add_expr)
    }

    fn transform_atom(&mut self, atom_val: AtomVal) -> Expr {
        self.visit_atom(&atom_val);
        Expr::Atom(atom_val)
    }
}

/// The two items above, as they stand in this file.
const EXPANSION: &str = "
    impl Expr {
        fn transform(self, tr: &mut impl ExprTransformer) -> Self {
            match self {
                Self::Add(add_expr) => tr.transform_add(add_expr),
                Self::Atom(atom_val) => tr.transform_atom(atom_val)
            }
        }
    }

    trait ExprTransformer {
        fn visit_add(&mut self, add_expr: &AddExpr) -> () {}

        fn visit_atom(&mut self, atom_val: &AtomVal) -> () {}

        fn transform_add(&mut self, add_expr: AddExpr) -> Expr {
            self.visit_add(&add_expr);
            Expr::Add(add_expr)
        }

        fn transform_atom(&mut self, atom_val: AtomVal) -> Expr {
            self.visit_atom(&atom_val);
            Expr::Atom(atom_val)
        }
    }
";

struct FoldTransformer {}

impl ExprTransformer for FoldTransformer {
    fn transform_add(&mut self, param: AddExpr) -> Expr {
        let AddExpr { lhs, rhs } = param;

        let mut ans = 0;
        if let Expr::Atom(lhs) = lhs.transform(self) {
            ans += lhs.val;
        } else {
            panic!("Unexpected");
        }

        if let Expr::Atom(rhs) = rhs.transform(self) {
            ans += rhs.val;
        } else {
            panic!("Unexpected");
        }

        return Expr::Atom(AtomVal { val: ans });
    }
}

struct Unchanged {}

impl ExprTransformer for Unchanged {}

fn expr_declaration() -> Declaration {
    Declaration {
        name: String::from("Expr"),
        kind: DeclarationKind::Enum(vec![
            VariantDecl {
                name: String::from("Add"),
                fields: FieldsDecl::Tuple(vec![String::from("AddExpr")]),
            },
            VariantDecl {
                name: String::from("Atom"),
                fields: FieldsDecl::Tuple(vec![String::from("AtomVal")]),
            },
        ]),
    }
}

/// The dispatcher and the interface of this file are, token for token, what is
/// generated for the declaration of `Expr`.
fn assert_expansion_is_generated() {
    let generated = transformable_derive(&expr_declaration()).unwrap();
    let expected = EXPANSION.parse::<TokenStream>().unwrap().to_string();
    let derived = generated.to_source().parse::<TokenStream>().unwrap().to_string();
    assert_eq!(derived, expected);
}

#[test]
fn test_transform() {
    assert_expansion_is_generated();

    let expr = Expr::Add(AddExpr {
        lhs: Box::new(Expr::Add(AddExpr {
            lhs: Box::new(Expr::Atom(AtomVal { val: 32 })),
            rhs: Box::new(Expr::Atom(AtomVal { val: 32 })),
        })),
        rhs: Box::new(Expr::Atom(AtomVal { val: 1 })),
    });

    let mut tt = FoldTransformer {};
    if let Expr::Atom(ans) = expr.transform(&mut tt) {
        assert_eq!(ans.val, 65);
    } else {
        panic!("unpected value");
    }
}

#[test]
fn defaults_leave_the_tree_unchanged() {
    assert_expansion_is_generated();

    let expr = Expr::Add(AddExpr {
        lhs: Box::new(Expr::Atom(AtomVal { val: 32 })),
        rhs: Box::new(Expr::Atom(AtomVal { val: 1 })),
    });
    let mut tr = Unchanged {};
    match expr.transform(&mut tr) {
        Expr::Add(AddExpr { lhs, rhs }) => match (*lhs, *rhs) {
            (Expr::Atom(lhs), Expr::Atom(rhs)) => {
                assert_eq!(lhs.val, 32);
                assert_eq!(rhs.val, 1);
            }
            _ => panic!("Unexpected"),
        },
        _ => panic!("Unexpected"),
    }
}
