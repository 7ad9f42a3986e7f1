use sysyust::schema::{
    get_enum_variant_names, Declaration, DeclarationKind, FieldsDecl, GenError, TaggedUnionSchema,
    VariantDecl, VariantSchema,
};

fn tuple(name: &str, types: &[&str]) -> VariantDecl {
    VariantDecl {
        name: String::from(name),
        fields: FieldsDecl::Tuple(types.iter().map(|t| String::from(*t)).collect()),
    }
}

fn declared(name: &str, variants: Vec<VariantDecl>) -> Declaration {
    Declaration { name: String::from(name), kind: DeclarationKind::Enum(variants) }
}

#[test]
fn tuple_like_variants_are_extracted_in_order() {
    let decl = declared(
        "Expr",
        vec![tuple("Add", &["Box<Expr>", "Box<Expr>"]), tuple("AtomExpr", &["i32"])],
    );
    let variants = get_enum_variant_names(&decl).unwrap();
    assert_eq!(
        variants,
        vec![
            VariantSchema {
                name: String::from("Add"),
                payload: vec![String::from("Box<Expr>"), String::from("Box<Expr>")],
            },
            VariantSchema { name: String::from("AtomExpr"), payload: vec![String::from("i32")] },
        ]
    );
}

#[test]
fn schema_carries_the_name_of_the_union() {
    let decl = declared("Expr", vec![tuple("Atom", &["AtomVal"])]);
    let schema = TaggedUnionSchema::extract(&decl).unwrap();
    assert_eq!(schema.name, "Expr");
    assert_eq!(schema.variants.len(), 1);
    assert_eq!(schema.variants[0].name, "Atom");
    assert_eq!(schema.variants[0].payload, vec![String::from("AtomVal")]);
}

#[test]
fn empty_payload_list_is_tuple_like() {
    let decl = declared("Token", vec![tuple("Eof", &[])]);
    let variants = get_enum_variant_names(&decl).unwrap();
    assert_eq!(variants.len(), 1);
    assert!(variants[0].payload.is_empty());
}

#[test]
fn union_without_variants_has_an_empty_schema() {
    let decl = declared("Never", vec![]);
    assert_eq!(get_enum_variant_names(&decl), Ok(vec![]));
}

#[test]
fn struct_is_refused() {
    let decl = Declaration { name: String::from("AtomVal"), kind: DeclarationKind::Struct };
    assert_eq!(
        get_enum_variant_names(&decl),
        Err(GenError::ShapeError(String::from("AtomVal")))
    );
    assert_eq!(
        TaggedUnionSchema::extract(&decl),
        Err(GenError::ShapeError(String::from("AtomVal")))
    );
}

#[test]
fn untagged_union_is_refused() {
    let decl = Declaration { name: String::from("Bits"), kind: DeclarationKind::Union };
    assert_eq!(get_enum_variant_names(&decl), Err(GenError::ShapeError(String::from("Bits"))));
}

#[test]
fn variant_with_named_fields_is_refused_by_name() {
    let decl = declared(
        "Expr",
        vec![
            tuple("Atom", &["i32"]),
            VariantDecl { name: String::from("Add"), fields: FieldsDecl::Named },
        ],
    );
    assert_eq!(
        get_enum_variant_names(&decl),
        Err(GenError::VariantShapeError(String::from("Add")))
    );
}

#[test]
fn unit_variant_is_refused_by_name() {
    let decl = declared(
        "Expr",
        vec![VariantDecl { name: String::from("Nil"), fields: FieldsDecl::Unit }],
    );
    assert_eq!(
        get_enum_variant_names(&decl),
        Err(GenError::VariantShapeError(String::from("Nil")))
    );
}

#[test]
fn the_first_offending_variant_is_named() {
    let decl = declared(
        "Expr",
        vec![
            tuple("Atom", &["i32"]),
            VariantDecl { name: String::from("Nil"), fields: FieldsDecl::Unit },
            VariantDecl { name: String::from("Add"), fields: FieldsDecl::Named },
        ],
    );
    assert_eq!(
        get_enum_variant_names(&decl),
        Err(GenError::VariantShapeError(String::from("Nil")))
    );
}

#[test]
fn diagnostics_name_the_offender() {
    assert_eq!(GenError::ShapeError(String::from("AtomVal")).message(), "Only enum accepted");
    assert_eq!(
        GenError::VariantShapeError(String::from("Add")).message(),
        "There is enum field Add that isn't a tuple-like variant"
    );
}

fn schema(variants: &[&str]) -> TaggedUnionSchema {
    TaggedUnionSchema {
        name: String::from("Expr"),
        variants: variants
            .iter()
            .map(|name| VariantSchema { name: String::from(*name), payload: vec![] })
            .collect(),
    }
}

#[test]
fn schema_needs_a_variant_and_distinct_names() {
    assert!(schema(&["Add", "Atom"]).is_well_formed());
    assert!(schema(&["Add"]).is_well_formed());
    assert!(!schema(&[]).is_well_formed());
    assert!(!schema(&["Add", "Atom", "Add"]).is_well_formed());
    assert!(schema(&["AB", "A_b"]).is_well_formed());
}

#[test]
fn canonical_names_may_collide() {
    assert!(schema(&["Add", "AtomExpr"]).has_distinct_canonical_names());
    assert!(schema(&[]).has_distinct_canonical_names());
    assert!(!schema(&["AB", "A_b"]).has_distinct_canonical_names());
    assert!(!schema(&["AtomExpr", "Add", "Atom_Expr"]).has_distinct_canonical_names());
}
