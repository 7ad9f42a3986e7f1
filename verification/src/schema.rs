//! The declaration of a type as the generator receives it, and the schema that is
//! extracted from a tagged union.

use vstd::prelude::*;
use crate::naming::{snake_case, to_snake_case};

verus! {

/// The fields of one variant of a declared union.
#[derive(Clone, Debug, PartialEq, Eq)]
pub enum FieldsDecl {
    /// Record-style fields, each with a name.
    Named,
    /// An ordered list of unnamed payload types, each given by its text.
    Tuple(Vec<String>),
    /// No field list at all.
    Unit,
}

/// One variant of a declared union.
#[derive(Clone, Debug, PartialEq, Eq)]
pub struct VariantDecl {
    pub name: String,
    pub fields: FieldsDecl,
}

/// What kind of type a declaration declares.
#[derive(Clone, Debug, PartialEq, Eq)]
pub enum DeclarationKind {
    /// A record type.
    Struct,
    /// A tagged union with its variants in declaration order.
    Enum(Vec<VariantDecl>),
    /// An untagged union.
    Union,
}

/// A type declaration.
#[derive(Clone, Debug, PartialEq, Eq)]
pub struct Declaration {
    pub name: String,
    pub kind: DeclarationKind,
}

/// One variant of a tagged union: its name and its ordered payload types.
#[derive(Clone, Debug, PartialEq, Eq)]
pub struct VariantSchema {
    pub name: String,
    pub payload: Vec<String>,
}

/// The validated description of a tagged union.
#[derive(Clone, Debug, PartialEq, Eq)]
pub struct TaggedUnionSchema {
    pub name: String,
    pub variants: Vec<VariantSchema>,
}

/// Why no schema could be extracted from a declaration.
#[derive(Clone, Debug, PartialEq, Eq)]
pub enum GenError {
    /// The declared type, named here, is not a tagged union.
    ShapeError(String),
    /// The variant named here does not carry a plain ordered payload list.
    VariantShapeError(String),
}

/// The view of `FieldsDecl`.
pub enum FieldsModel {
    Named,
    Tuple(Seq<Seq<char>>),
    Unit,
}

/// The view of `VariantDecl`.
pub struct VariantDeclModel {
    pub name: Seq<char>,
    pub fields: FieldsModel,
}

/// The view of `DeclarationKind`.
pub enum DeclarationKindModel {
    Struct,
    Enum(Seq<VariantDeclModel>),
    Union,
}

/// The view of `Declaration`.
pub struct DeclarationModel {
    pub name: Seq<char>,
    pub kind: DeclarationKindModel,
}

/// The view of `VariantSchema`.
pub struct VariantModel {
    pub name: Seq<char>,
    pub payload: Seq<Seq<char>>,
}

/// The view of `TaggedUnionSchema`.
pub struct SchemaModel {
    pub name: Seq<char>,
    pub variants: Seq<VariantModel>,
}

/// The view of `GenError`.
pub enum GenErrorModel {
    ShapeError(Seq<char>),
    VariantShapeError(Seq<char>),
}

impl DeepView for FieldsDecl {
    type V = FieldsModel;

    open spec fn deep_view(&self) -> FieldsModel {
        match *self {
            FieldsDecl::Named => FieldsModel::Named,
            FieldsDecl::Tuple(types) => FieldsModel::Tuple(types.deep_view()),
            FieldsDecl::Unit => FieldsModel::Unit,
        }
    }
}

impl View for FieldsDecl {
    type V = FieldsModel;

    open spec fn view(&self) -> FieldsModel {
        self.deep_view()
    }
}

impl DeepView for VariantDecl {
    type V = VariantDeclModel;

    open spec fn deep_view(&self) -> VariantDeclModel {
        VariantDeclModel { name: self.name@, fields: self.fields@ }
    }
}

impl View for VariantDecl {
    type V = VariantDeclModel;

    open spec fn view(&self) -> VariantDeclModel {
        self.deep_view()
    }
}

impl DeepView for DeclarationKind {
    type V = DeclarationKindModel;

    open spec fn deep_view(&self) -> DeclarationKindModel {
        match *self {
            DeclarationKind::Struct => DeclarationKindModel::Struct,
            DeclarationKind::Enum(variants) => DeclarationKindModel::Enum(variants.deep_view()),
            DeclarationKind::Union => DeclarationKindModel::Union,
        }
    }
}

impl View for DeclarationKind {
    type V = DeclarationKindModel;

    open spec fn view(&self) -> DeclarationKindModel {
        self.deep_view()
    }
}

impl DeepView for Declaration {
    type V = DeclarationModel;

    open spec fn deep_view(&self) -> DeclarationModel {
        DeclarationModel { name: self.name@, kind: self.kind@ }
    }
}

impl View for Declaration {
    type V = DeclarationModel;

    open spec fn view(&self) -> DeclarationModel {
        self.deep_view()
    }
}

impl DeepView for VariantSchema {
    type V = VariantModel;

    open spec fn deep_view(&self) -> VariantModel {
        VariantModel { name: self.name@, payload: self.payload.deep_view() }
    }
}

impl View for VariantSchema {
    type V = VariantModel;

    open spec fn view(&self) -> VariantModel {
        self.deep_view()
    }
}

impl DeepView for TaggedUnionSchema {
    type V = SchemaModel;

    open spec fn deep_view(&self) -> SchemaModel {
        SchemaModel { name: self.name@, variants: self.variants.deep_view() }
    }
}

impl View for TaggedUnionSchema {
    type V = SchemaModel;

    open spec fn view(&self) -> SchemaModel {
        self.deep_view()
    }
}

impl DeepView for GenError {
    type V = GenErrorModel;

    open spec fn deep_view(&self) -> GenErrorModel {
        match *self {
            GenError::ShapeError(name) => GenErrorModel::ShapeError(name@),
            GenError::VariantShapeError(name) => GenErrorModel::VariantShapeError(name@),
        }
    }
}

impl View for GenError {
    type V = GenErrorModel;

    open spec fn view(&self) -> GenErrorModel {
        self.deep_view()
    }
}

impl VariantDeclModel {
    /// Whether the variant carries a plain ordered payload list.
    pub open spec fn is_tuple_like(self) -> bool {
        self.fields is Tuple
    }

    /// The schema of a tuple-like variant.
    pub open spec fn schema(self) -> VariantModel {
        VariantModel { name: self.name, payload: self.fields->Tuple_0 }
    }
}

/// Whether every variant carries a plain ordered payload list.
pub open spec fn all_tuple_like(variants: Seq<VariantDeclModel>) -> bool {
    forall|i: int| 0 <= i < variants.len() ==> (#[trigger] variants[i]).is_tuple_like()
}

/// Whether `i` is the first variant that does not carry a plain ordered payload list.
pub open spec fn is_first_offender(variants: Seq<VariantDeclModel>, i: int) -> bool {
    &&& 0 <= i < variants.len()
    &&& !variants[i].is_tuple_like()
    &&& forall|j: int| 0 <= j < i ==> (#[trigger] variants[j]).is_tuple_like()
}

/// A declaration has at most one first offender, so the error of a refused
/// union names one variant and no other.
pub proof fn lemma_first_offender_unique(variants: Seq<VariantDeclModel>, i: int, j: int)
    requires
        is_first_offender(variants, i),
        is_first_offender(variants, j),
    ensures
        i == j,
{
    if i < j {
        assert(variants[i].is_tuple_like());
    }
    if j < i {
        assert(variants[j].is_tuple_like());
    }
}

impl DeclarationModel {
    /// Whether a schema can be extracted: the type is a tagged union and each of
    /// its variants is tuple-like.
    pub open spec fn is_valid(self) -> bool {
        self.kind matches DeclarationKindModel::Enum(variants) && all_tuple_like(variants)
    }

    /// The names of the variants of a declared union, in declaration order.
    pub open spec fn declared_names(self) -> Seq<Seq<char>> {
        self.kind->Enum_0.map_values(|v: VariantDeclModel| v.name)
    }

    /// The variants of the schema of a valid declaration, in declaration order.
    pub open spec fn variants(self) -> Seq<VariantModel> {
        self.kind->Enum_0.map_values(|v: VariantDeclModel| v.schema())
    }

    /// The schema of a valid declaration.
    pub open spec fn schema(self) -> SchemaModel {
        SchemaModel { name: self.name, variants: self.variants() }
    }
}

impl SchemaModel {
    /// The names of the variants, in order.
    pub open spec fn variant_names(self) -> Seq<Seq<char>> {
        self.variants.map_values(|v: VariantModel| v.name)
    }

    /// The invariant of a schema: at least one variant, and no variant name twice.
    pub open spec fn wf(self) -> bool {
        &&& self.variants.len() > 0
        &&& self.variant_names().no_duplicates()
    }

    /// The canonical names of the variants, in order.
    pub open spec fn canonical_names(self) -> Seq<Seq<char>> {
        self.variants.map_values(|v: VariantModel| snake_case(v.name))
    }

    /// Whether no two variants share a canonical name, so that each variant has
    /// methods of its own.
    pub open spec fn canonical_names_distinct(self) -> bool {
        self.canonical_names().no_duplicates()
    }
}

/// The schema of a valid declaration keeps its invariant exactly where the
/// declaration has a variant and gives no name to two variants.
pub proof fn lemma_schema_invariant(declaration: DeclarationModel)
    requires
        declaration.is_valid(),
    ensures
        declaration.schema().wf() <==> declaration.declared_names().len() > 0
            && declaration.declared_names().no_duplicates(),
{
    assert(declaration.schema().variant_names() =~= declaration.declared_names());
}

impl GenError {
    /// The diagnostic of the error.
    pub open spec fn spec_message(self) -> Seq<char> {
        match self {
            GenError::ShapeError(_) => "Only enum accepted"@,
            GenError::VariantShapeError(name) => "There is enum field "@ + name@
                + " that isn't a tuple-like variant"@,
        }
    }

    /// The diagnostic with which generation aborts.
    pub fn message(&self) -> (text: String)
        ensures
            text@ == self.spec_message(),
    {
        match self {
            GenError::ShapeError(_) => String::from_str("Only enum accepted"),
            GenError::VariantShapeError(name) => {
                let mut text = String::from_str("There is enum field ");
                text.append(name.as_str());
                text.append(" that isn't a tuple-like variant");
                text
            },
        }
    }
}

/// Copies a list of texts.
pub(crate) fn clone_texts(texts: &Vec<String>) -> (copy: Vec<String>)
    ensures
        copy.deep_view() == texts.deep_view(),
{
    let mut copy: Vec<String> = Vec::new();
    let mut i: usize = 0;
    while i < texts.len()
        invariant
            i <= texts.len(),
            copy.len() == i,
            forall|j: int| 0 <= j < i ==> copy@[j]@ == texts@[j]@,
        decreases texts.len() - i,
    {
        copy.push(texts[i].clone());
        i += 1;
    }
    assert(copy.deep_view() =~= texts.deep_view());
    copy
}

/// Checks a declaration and extracts the variants of its schema.
///
/// Succeeds exactly on a tagged union whose variants are all tuple-like. A type
/// that is no tagged union is refused with `ShapeError`; otherwise the first
/// variant that is not tuple-like is refused with `VariantShapeError`.
pub fn get_enum_variant_names(t: &Declaration) -> (extracted: Result<
    Vec<VariantSchema>,
    GenError,
>)
    ensures
        match extracted {
            Ok(variants) => t@.is_valid() && variants.deep_view() == t@.variants(),
            Err(GenError::ShapeError(name)) => !(t@.kind is Enum) && name@ == t@.name,
            Err(GenError::VariantShapeError(name)) => t@.kind is Enum && exists|i: int|
                #[trigger] is_first_offender(t@.kind->Enum_0, i) && name@
                    == t@.kind->Enum_0[i].name,
        },
{
    let mut ans: Vec<VariantSchema> = Vec::new();
    match &t.kind {
        DeclarationKind::Enum(variants) => {
            let ghost decls = t@.kind->Enum_0;
            let mut i: usize = 0;
            while i < variants.len()
                invariant
                    i <= variants.len(),
                    decls == variants.deep_view(),
                    t@.kind == DeclarationKindModel::Enum(decls),
                    ans.len() == i,
                    forall|j: int| 0 <= j < i ==> (#[trigger] decls[j]).is_tuple_like(),
                    forall|j: int| 0 <= j < i ==> (#[trigger] ans@[j])@ == decls[j].schema(),
                decreases variants.len() - i,
            {
                let variant = &variants[i];
                assert(decls[i as int] == variant@);
                match &variant.fields {
                    FieldsDecl::Tuple(members) => {
                        let variant_name = variant.name.clone();
                        let variant_member = clone_texts(members);
                        ans.push(VariantSchema { name: variant_name, payload: variant_member });
                    },
                    _ => {
                        let variant_name = variant.name.clone();
                        assert(is_first_offender(t@.kind->Enum_0, i as int) && variant_name@
                            == t@.kind->Enum_0[i as int].name);
                        return Err(GenError::VariantShapeError(variant_name));
                    },
                }
                i += 1;
            }
            assert(all_tuple_like(decls));
            assert(ans.deep_view() =~= t@.variants());
        },
        _ => {
            return Err(GenError::ShapeError(t.name.clone()));
        },
    }
    Ok(ans)
}

/// Whether no text occurs twice in the list.
fn all_distinct(texts: &Vec<String>) -> (distinct: bool)
    ensures
        distinct == texts.deep_view().no_duplicates(),
{
    let ghost views = texts.deep_view();
    let mut i: usize = 0;
    while i < texts.len()
        invariant
            i <= texts.len(),
            views == texts.deep_view(),
            forall|a: int, b: int| 0 <= a < b < i ==> views[a] != views[b],
        decreases texts.len() - i,
    {
        let mut j: usize = 0;
        while j < i
            invariant
                j <= i < texts.len(),
                views == texts.deep_view(),
                forall|a: int| 0 <= a < j ==> views[a] != views[i as int],
            decreases i - j,
        {
            assert(views[j as int] == texts@[j as int]@);
            assert(views[i as int] == texts@[i as int]@);
            if texts[j] == texts[i] {
                return false;
            }
            j += 1;
        }
        i += 1;
    }
    true
}

impl TaggedUnionSchema {
    /// Validates a declaration and extracts its schema.
    ///
    /// Succeeds exactly on a tagged union whose variants are all tuple-like; the
    /// errors are those of `get_enum_variant_names`.
    pub fn extract(t: &Declaration) -> (extracted: Result<TaggedUnionSchema, GenError>)
        ensures
            match extracted {
                Ok(schema) => t@.is_valid() && schema@ == t@.schema(),
                Err(GenError::ShapeError(name)) => !(t@.kind is Enum) && name@ == t@.name,
                Err(GenError::VariantShapeError(name)) => t@.kind is Enum && exists|i: int|
                    #[trigger] is_first_offender(t@.kind->Enum_0, i) && name@
                        == t@.kind->Enum_0[i].name,
            },
    {
        match get_enum_variant_names(t) {
            Ok(variants) => Ok(TaggedUnionSchema { name: t.name.clone(), variants }),
            Err(e) => Err(e),
        }
    }

    /// Whether the schema keeps its invariant: it has a variant, and no variant
    /// name occurs twice.
    pub fn is_well_formed(&self) -> (ok: bool)
        ensures
            ok == self@.wf(),
    {
        let mut names: Vec<String> = Vec::new();
        let mut i: usize = 0;
        while i < self.variants.len()
            invariant
                i <= self.variants.len(),
                names.len() == i,
                forall|j: int| 0 <= j < i ==> (#[trigger] names@[j])@ == self.variants@[j].name@,
            decreases self.variants.len() - i,
        {
            names.push(self.variants[i].name.clone());
            i += 1;
        }
        assert(names.deep_view() =~= self@.variant_names());
        self.variants.len() > 0 && all_distinct(&names)
    }

    /// Whether no two variants share a canonical name. Generation does not ask
    /// for it; the generated methods of two such variants have the same names.
    pub fn has_distinct_canonical_names(&self) -> (ok: bool)
        ensures
            ok == self@.canonical_names_distinct(),
    {
        let mut names: Vec<String> = Vec::new();
        let mut i: usize = 0;
        while i < self.variants.len()
            invariant
                i <= self.variants.len(),
                names.len() == i,
                forall|j: int|
                    0 <= j < i ==> (#[trigger] names@[j])@ == snake_case(self.variants@[j].name@),
            decreases self.variants.len() - i,
        {
            names.push(to_snake_case(self.variants[i].name.as_str()));
            i += 1;
        }
        assert(names.deep_view() =~= self@.canonical_names());
        all_distinct(&names)
    }
}

} // verus!
