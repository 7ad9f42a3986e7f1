//! The generators: from the variants of a schema to the dispatcher and to the
//! transformer interface, both as data.

use vstd::prelude::*;
use crate::naming::{
    gen_transform_fn_name, gen_transformer_id, gen_visit_fn_name, snake_case, to_snake_case,
    transform_fn_name, transformer_name, visit_fn_name,
};
use crate::schema::{
    clone_texts, get_enum_variant_names, Declaration, GenError, SchemaModel, TaggedUnionSchema,
    VariantModel, VariantSchema,
};

verus! {

/// One parameter of a generated method, after `&mut self`.
#[derive(Clone, Debug, PartialEq, Eq)]
pub struct Param {
    /// The parameter's name, derived from the payload type's name.
    pub name: String,
    /// The payload type, as text.
    pub ty: String,
    /// Whether the method borrows the payload (`name: &ty`) or owns it (`name: ty`).
    pub borrowed: bool,
}

/// A generated `visit_<name>` method: it borrows the payload of one variant,
/// returns nothing, and does nothing by default.
#[derive(Clone, Debug, PartialEq, Eq)]
pub struct VisitHook {
    pub name: String,
    pub params: Vec<Param>,
}

/// A generated `transform_<name>` method: it owns the payload of one variant and
/// returns a value of the union. By default it calls `visit` with the borrowed
/// payload and rebuilds `variant` of `union_name` from the same payload.
#[derive(Clone, Debug, PartialEq, Eq)]
pub struct TransformHook {
    pub name: String,
    pub params: Vec<Param>,
    /// The visit method that the default body calls.
    pub visit: String,
    /// The union type that the method returns.
    pub union_name: String,
    /// The variant that the default body rebuilds.
    pub variant: String,
}

/// One arm of the dispatcher: a value of `variant` has its payload bound to
/// `bindings` and handed, in order, to `method` of the transformer.
#[derive(Clone, Debug, PartialEq, Eq)]
pub struct DispatchArm {
    pub variant: String,
    pub bindings: Vec<String>,
    pub method: String,
}

/// The generated dispatcher: the one method `transform(self, tr) -> Self` of the
/// union, which matches on the value with one arm per variant.
#[derive(Clone, Debug, PartialEq, Eq)]
pub struct GeneratedDispatcher {
    pub union_name: String,
    /// The interface that `tr` must implement.
    pub transformer: String,
    pub arms: Vec<DispatchArm>,
}

/// The generated transformer interface: the visit methods of all variants, then
/// their transform methods.
#[derive(Clone, Debug, PartialEq, Eq)]
pub struct GeneratedInterface {
    pub name: String,
    pub visits: Vec<VisitHook>,
    pub transforms: Vec<TransformHook>,
}

/// Both artifacts generated for one union.
#[derive(Clone, Debug, PartialEq, Eq)]
pub struct Generated {
    pub dispatcher: GeneratedDispatcher,
    pub interface: GeneratedInterface,
}

/// The view of `Param`.
pub struct ParamModel {
    pub name: Seq<char>,
    pub ty: Seq<char>,
    pub borrowed: bool,
}

/// The view of `VisitHook`.
pub struct VisitHookModel {
    pub name: Seq<char>,
    pub params: Seq<ParamModel>,
}

/// The view of `TransformHook`.
pub struct TransformHookModel {
    pub name: Seq<char>,
    pub params: Seq<ParamModel>,
    pub visit: Seq<char>,
    pub union_name: Seq<char>,
    pub variant: Seq<char>,
}

/// The view of `DispatchArm`.
pub struct DispatchArmModel {
    pub variant: Seq<char>,
    pub bindings: Seq<Seq<char>>,
    pub method: Seq<char>,
}

/// The view of `GeneratedDispatcher`.
pub struct DispatcherModel {
    pub union_name: Seq<char>,
    pub transformer: Seq<char>,
    pub arms: Seq<DispatchArmModel>,
}

/// The view of `GeneratedInterface`.
pub struct InterfaceModel {
    pub name: Seq<char>,
    pub visits: Seq<VisitHookModel>,
    pub transforms: Seq<TransformHookModel>,
}

/// The view of `Generated`.
pub struct GeneratedModel {
    pub dispatcher: DispatcherModel,
    pub interface: InterfaceModel,
}

impl DeepView for Param {
    type V = ParamModel;

    open spec fn deep_view(&self) -> ParamModel {
        ParamModel { name: self.name@, ty: self.ty@, borrowed: self.borrowed }
    }
}

impl View for Param {
    type V = ParamModel;

    open spec fn view(&self) -> ParamModel {
        self.deep_view()
    }
}

impl DeepView for VisitHook {
    type V = VisitHookModel;

    open spec fn deep_view(&self) -> VisitHookModel {
        VisitHookModel { name: self.name@, params: self.params.deep_view() }
    }
}

impl View for VisitHook {
    type V = VisitHookModel;

    open spec fn view(&self) -> VisitHookModel {
        self.deep_view()
    }
}

impl DeepView for TransformHook {
    type V = TransformHookModel;

    open spec fn deep_view(&self) -> TransformHookModel {
        TransformHookModel {
            name: self.name@,
            params: self.params.deep_view(),
            visit: self.visit@,
            union_name: self.union_name@,
            variant: self.variant@,
        }
    }
}

impl View for TransformHook {
    type V = TransformHookModel;

    open spec fn view(&self) -> TransformHookModel {
        self.deep_view()
    }
}

impl DeepView for DispatchArm {
    type V = DispatchArmModel;

    open spec fn deep_view(&self) -> DispatchArmModel {
        DispatchArmModel {
            variant: self.variant@,
            bindings: self.bindings.deep_view(),
            method: self.method@,
        }
    }
}

impl View for DispatchArm {
    type V = DispatchArmModel;

    open spec fn view(&self) -> DispatchArmModel {
        self.deep_view()
    }
}

impl DeepView for GeneratedDispatcher {
    type V = DispatcherModel;

    open spec fn deep_view(&self) -> DispatcherModel {
        DispatcherModel {
            union_name: self.union_name@,
            transformer: self.transformer@,
            arms: self.arms.deep_view(),
        }
    }
}

impl View for GeneratedDispatcher {
    type V = DispatcherModel;

    open spec fn view(&self) -> DispatcherModel {
        self.deep_view()
    }
}

impl DeepView for GeneratedInterface {
    type V = InterfaceModel;

    open spec fn deep_view(&self) -> InterfaceModel {
        InterfaceModel {
            name: self.name@,
            visits: self.visits.deep_view(),
            transforms: self.transforms.deep_view(),
        }
    }
}

impl View for GeneratedInterface {
    type V = InterfaceModel;

    open spec fn view(&self) -> InterfaceModel {
        self.deep_view()
    }
}

impl DeepView for Generated {
    type V = GeneratedModel;

    open spec fn deep_view(&self) -> GeneratedModel {
        GeneratedModel { dispatcher: self.dispatcher@, interface: self.interface@ }
    }
}

impl View for Generated {
    type V = GeneratedModel;

    open spec fn view(&self) -> GeneratedModel {
        self.deep_view()
    }
}

/// The parameter names of a payload list: the canonical name of each type.
pub open spec fn param_names(payload: Seq<Seq<char>>) -> Seq<Seq<char>> {
    payload.map_values(|ty: Seq<char>| snake_case(ty))
}

/// The parameter of a payload type.
pub open spec fn param_of(ty: Seq<char>, borrowed: bool) -> ParamModel {
    ParamModel { name: snake_case(ty), ty, borrowed }
}

/// The parameters that own the payload.
pub open spec fn owned_params(payload: Seq<Seq<char>>) -> Seq<ParamModel> {
    payload.map_values(|ty: Seq<char>| param_of(ty, false))
}

/// The parameters that borrow the payload.
pub open spec fn borrowed_params(payload: Seq<Seq<char>>) -> Seq<ParamModel> {
    payload.map_values(|ty: Seq<char>| param_of(ty, true))
}

/// The visit method of a variant.
pub open spec fn visit_hook(variant: VariantModel) -> VisitHookModel {
    VisitHookModel { name: visit_fn_name(variant.name), params: borrowed_params(variant.payload) }
}

/// The transform method of a variant of the union `union_name`.
pub open spec fn transform_hook(
    union_name: Seq<char>,
    variant: VariantModel,
) -> TransformHookModel {
    TransformHookModel {
        name: transform_fn_name(variant.name),
        params: owned_params(variant.payload),
        visit: visit_fn_name(variant.name),
        union_name,
        variant: variant.name,
    }
}

/// The dispatcher's arm for a variant.
pub open spec fn dispatch_arm(variant: VariantModel) -> DispatchArmModel {
    DispatchArmModel {
        variant: variant.name,
        bindings: param_names(variant.payload),
        method: transform_fn_name(variant.name),
    }
}

/// The arms of the dispatcher, one per variant and in the variants' order.
pub open spec fn dispatch_arms(variants: Seq<VariantModel>) -> Seq<DispatchArmModel> {
    variants.map_values(|v: VariantModel| dispatch_arm(v))
}

/// The dispatcher of the union `union_name` with the given variants.
pub open spec fn dispatcher_of(
    union_name: Seq<char>,
    variants: Seq<VariantModel>,
) -> DispatcherModel {
    DispatcherModel {
        union_name,
        transformer: transformer_name(union_name),
        arms: dispatch_arms(variants),
    }
}

/// The transformer interface of the union `union_name` with the given variants.
pub open spec fn interface_of(
    union_name: Seq<char>,
    variants: Seq<VariantModel>,
) -> InterfaceModel {
    InterfaceModel {
        name: transformer_name(union_name),
        visits: variants.map_values(|v: VariantModel| visit_hook(v)),
        transforms: variants.map_values(|v: VariantModel| transform_hook(union_name, v)),
    }
}

/// What is generated for a schema.
pub open spec fn generated_of(schema: SchemaModel) -> GeneratedModel {
    GeneratedModel {
        dispatcher: dispatcher_of(schema.name, schema.variants),
        interface: interface_of(schema.name, schema.variants),
    }
}

impl InterfaceModel {
    /// The number of methods of the interface.
    pub open spec fn method_count(self) -> nat {
        self.visits.len() + self.transforms.len()
    }
}

/// Generation yields one dispatcher with an arm for each variant, and an
/// interface of two methods for each variant: the visit methods `visit_<name>` of
/// all variants, then their transform methods `transform_<name>`, `<name>` being
/// the canonical name of the variant.
pub proof fn lemma_generated_methods(schema: SchemaModel)
    ensures
        generated_of(schema).dispatcher.arms.len() == schema.variants.len(),
        generated_of(schema).interface.visits.len() == schema.variants.len(),
        generated_of(schema).interface.transforms.len() == schema.variants.len(),
        generated_of(schema).interface.method_count() == 2 * schema.variants.len(),
        forall|i: int|
            0 <= i < schema.variants.len() ==> {
                let g = generated_of(schema);
                let name = #[trigger] schema.variants[i].name;
                &&& g.dispatcher.arms[i].variant == name
                &&& g.dispatcher.arms[i].method == "transform_"@ + snake_case(name)
                &&& g.interface.visits[i].name == "visit_"@ + snake_case(name)
                &&& g.interface.transforms[i].name == "transform_"@ + snake_case(name)
                &&& g.interface.transforms[i].visit == g.interface.visits[i].name
                &&& g.interface.transforms[i].variant == name
            },
{
}

/// Derives the parameter names of a payload list, and hands the types back
/// beside them.
pub fn get_param_name_and_type(variant_param: &Vec<String>) -> (named: (
    Vec<String>,
    Vec<String>,
))
    ensures
        named.0.deep_view() == param_names(variant_param.deep_view()),
        named.1.deep_view() == variant_param.deep_view(),
{
    let mut param_names: Vec<String> = Vec::new();
    let mut i: usize = 0;
    while i < variant_param.len()
        invariant
            i <= variant_param.len(),
            param_names.len() == i,
            forall|j: int|
                0 <= j < i ==> (#[trigger] param_names@[j])@ == snake_case(variant_param@[j]@),
        decreases variant_param.len() - i,
    {
        param_names.push(to_snake_case(variant_param[i].as_str()));
        i += 1;
    }
    let param_type = clone_texts(variant_param);
    assert(param_names.deep_view() =~= self::param_names(variant_param.deep_view()));
    (param_names, param_type)
}

fn pair_params(names: &Vec<String>, types: Vec<String>, borrowed: bool) -> (params: Vec<Param>)
    requires
        names.len() == types.len(),
    ensures
        params.len() == names.len(),
        forall|j: int|
            0 <= j < params.len() ==> (#[trigger] params@[j])@ == (ParamModel {
                name: names@[j]@,
                ty: types@[j]@,
                borrowed,
            }),
{
    let mut params: Vec<Param> = Vec::new();
    let mut i: usize = 0;
    while i < names.len()
        invariant
            i <= names.len(),
            names.len() == types.len(),
            params.len() == i,
            forall|j: int|
                0 <= j < i ==> (#[trigger] params@[j])@ == (ParamModel {
                    name: names@[j]@,
                    ty: types@[j]@,
                    borrowed,
                }),
        decreases names.len() - i,
    {
        params.push(Param { name: names[i].clone(), ty: types[i].clone(), borrowed });
        i += 1;
    }
    params
}

/// The names under which a variant's payload is handed on, and the parameters
/// of a method that owns the payload.
pub fn gen_param_list(variant_param: &Vec<String>) -> (listed: (Vec<String>, Vec<Param>))
    ensures
        listed.0.deep_view() == param_names(variant_param.deep_view()),
        listed.1.deep_view() == owned_params(variant_param.deep_view()),
{
    let (name, ty) = get_param_name_and_type(variant_param);
    assert(name.len() == name.deep_view().len());
    assert(ty.len() == ty.deep_view().len());
    let param_list = pair_params(&name, ty, false);
    assert forall|j: int| 0 <= j < param_list.len() implies (#[trigger] param_list@[j])@
        == param_of(variant_param@[j]@, false) by {
        assert(name.deep_view()[j] == name@[j]@);
        assert(ty.deep_view()[j] == ty@[j]@);
    }
    assert(param_list.deep_view() =~= owned_params(variant_param.deep_view()));
    (name, param_list)
}

/// The names under which a variant's payload is handed on, and the parameters
/// of a method that borrows the payload.
pub fn gen_borrow_param_list(variant_param: &Vec<String>) -> (listed: (Vec<String>, Vec<Param>))
    ensures
        listed.0.deep_view() == param_names(variant_param.deep_view()),
        listed.1.deep_view() == borrowed_params(variant_param.deep_view()),
{
    let (name, ty) = get_param_name_and_type(variant_param);
    assert(name.len() == name.deep_view().len());
    assert(ty.len() == ty.deep_view().len());
    let param_list = pair_params(&name, ty, true);
    assert forall|j: int| 0 <= j < param_list.len() implies (#[trigger] param_list@[j])@
        == param_of(variant_param@[j]@, true) by {
        assert(name.deep_view()[j] == name@[j]@);
        assert(ty.deep_view()[j] == ty@[j]@);
    }
    assert(param_list.deep_view() =~= borrowed_params(variant_param.deep_view()));
    (name, param_list)
}

/// Generates the visit method of a variant.
pub fn gen_visit_fn(variant: &VariantSchema) -> (hook: VisitHook)
    ensures
        hook@ == visit_hook(variant@),
{
    let fn_name = gen_visit_fn_name(variant.name.as_str());
    let (_, param_list) = gen_borrow_param_list(&variant.payload);
    VisitHook { name: fn_name, params: param_list }
}

/// Generates the transform method of a variant of the union `enum_id`.
pub fn gen_transform_fn(enum_id: &str, variant: &VariantSchema) -> (hook: TransformHook)
    ensures
        hook@ == transform_hook(enum_id@, variant@),
{
    let fn_name = gen_transform_fn_name(variant.name.as_str());
    let visit_fn_name = gen_visit_fn_name(variant.name.as_str());
    let variant_name = variant.name.clone();
    let (_, param_list) = gen_param_list(&variant.payload);
    TransformHook {
        name: fn_name,
        params: param_list,
        visit: visit_fn_name,
        union_name: String::from_str(enum_id),
        variant: variant_name,
    }
}

/// Generates the transformer interface: for each variant a visit method and a
/// transform method.
pub fn gen_transformer_trait(ident: &str, variants: &Vec<VariantSchema>) -> (interface:
    GeneratedInterface)
    ensures
        interface@ == interface_of(ident@, variants.deep_view()),
{
    let transformer_name = gen_transformer_id(ident);
    let mut visit_functions: Vec<VisitHook> = Vec::new();
    let mut transform_functions: Vec<TransformHook> = Vec::new();
    let mut i: usize = 0;
    while i < variants.len()
        invariant
            i <= variants.len(),
            visit_functions.len() == i,
            transform_functions.len() == i,
            forall|j: int|
                0 <= j < i ==> (#[trigger] visit_functions@[j])@ == visit_hook(variants@[j]@),
            forall|j: int|
                0 <= j < i ==> (#[trigger] transform_functions@[j])@ == transform_hook(
                    ident@,
                    variants@[j]@,
                ),
        decreases variants.len() - i,
    {
        visit_functions.push(gen_visit_fn(&variants[i]));
        transform_functions.push(gen_transform_fn(ident, &variants[i]));
        i += 1;
    }
    let interface = GeneratedInterface {
        name: transformer_name,
        visits: visit_functions,
        transforms: transform_functions,
    };
    assert(interface@.visits =~= interface_of(ident@, variants.deep_view()).visits);
    assert(interface@.transforms =~= interface_of(ident@, variants.deep_view()).transforms);
    interface
}

/// Generates the transformer interface of the union `ident`.
pub fn impl_transformer(ident: &str, variants: &Vec<VariantSchema>) -> (interface:
    GeneratedInterface)
    ensures
        interface@ == interface_of(ident@, variants.deep_view()),
{
    gen_transformer_trait(ident, variants)
}

/// Generates the body of the dispatcher: one arm per variant, which forwards
/// the variant's payload to the variant's transform method.
pub fn gen_accept_fn(variants: &Vec<VariantSchema>) -> (arms: Vec<DispatchArm>)
    ensures
        arms.deep_view() == dispatch_arms(variants.deep_view()),
{
    let mut match_item: Vec<DispatchArm> = Vec::new();
    let mut i: usize = 0;
    while i < variants.len()
        invariant
            i <= variants.len(),
            match_item.len() == i,
            forall|j: int|
                0 <= j < i ==> (#[trigger] match_item@[j])@ == dispatch_arm(variants@[j]@),
        decreases variants.len() - i,
    {
        let variant = &variants[i];
        let fn_name = gen_transform_fn_name(variant.name.as_str());
        let (param_name, _) = gen_param_list(&variant.payload);
        match_item.push(
            DispatchArm { variant: variant.name.clone(), bindings: param_name, method: fn_name },
        );
        i += 1;
    }
    assert(match_item.deep_view() =~= dispatch_arms(variants.deep_view()));
    match_item
}

/// Generates the dispatcher of the union `ident`.
pub fn impl_accept_fn(ident: &str, variants: &Vec<VariantSchema>) -> (dispatcher:
    GeneratedDispatcher)
    ensures
        dispatcher@ == dispatcher_of(ident@, variants.deep_view()),
{
    let transformer_id = gen_transformer_id(ident);
    let accept_function = gen_accept_fn(variants);
    GeneratedDispatcher {
        union_name: String::from_str(ident),
        transformer: transformer_id,
        arms: accept_function,
    }
}

impl TaggedUnionSchema {
    /// Generates the dispatcher and the transformer interface of the union.
    ///
    /// For a union of `N` variants the dispatcher is one method with `N` arms, and
    /// the interface has `2 * N` methods: `N` visit methods, then `N` transform
    /// methods, each pair named after its variant.
    pub fn generate(&self) -> (generated: Generated)
        ensures
            generated@ == generated_of(self@),
            generated@.dispatcher.arms.len() == self@.variants.len(),
            generated@.interface.visits.len() == self@.variants.len(),
            generated@.interface.transforms.len() == self@.variants.len(),
            generated@.interface.method_count() == 2 * self@.variants.len(),
    {
        let accept = impl_accept_fn(self.name.as_str(), &self.variants);
        let transformer = impl_transformer(self.name.as_str(), &self.variants);
        Generated { dispatcher: accept, interface: transformer }
    }
}

/// Derives the dispatcher and the transformer interface from a declaration.
///
/// Generation succeeds exactly on a tagged union whose variants are all
/// tuple-like, and then yields what `generated_of` describes for its schema.
/// Otherwise nothing is generated: a type that is no tagged union is refused with
/// `ShapeError`, and the first variant that is not tuple-like with
/// `VariantShapeError`.
pub fn transformable_derive(item: &Declaration) -> (derived: Result<Generated, GenError>)
    ensures
        match derived {
            Ok(generated) => item@.is_valid() && generated@ == generated_of(item@.schema()),
            Err(GenError::ShapeError(name)) => !(item@.kind is Enum) && name@ == item@.name,
            Err(GenError::VariantShapeError(name)) => item@.kind is Enum && exists|i: int|
                #[trigger] crate::schema::is_first_offender(item@.kind->Enum_0, i) && name@
                    == item@.kind->Enum_0[i].name,
        },
{
    let id = item.name.clone();
    match get_enum_variant_names(item) {
        Ok(elements) => {
            let accept = impl_accept_fn(id.as_str(), &elements);
            let transformer = impl_transformer(id.as_str(), &elements);
            Ok(Generated { dispatcher: accept, interface: transformer })
        },
        Err(e) => Err(e),
    }
}

} // verus!
