//! The runtime contract of the generated artifacts: what a call of the generated
//! dispatcher does with a value of the union and a transformer.

use vstd::prelude::*;
use crate::generate::{
    dispatch_arm, generated_of, transform_hook, DispatchArm, DispatchArmModel, Generated,
    GeneratedModel, TransformHook, TransformHookModel, VisitHook, VisitHookModel,
};
use crate::naming::{
    lemma_method_names_follow_canonical, snake_case, transform_fn_name, visit_fn_name,
};
use crate::schema::SchemaModel;

verus! {

/// A type with a dispatcher: `transform` hands the value to the method that the
/// transformer has for the value's variant, and returns what that method returns.
pub trait Transformable {
    /// The transformer that the dispatcher accepts.
    type Transformer;

    fn transform(self, tf: &mut Self::Transformer) -> Self;
}

/// A value of a tagged union: the name of its active variant and that variant's
/// payload, in order.
#[derive(Clone, Debug, PartialEq, Eq)]
pub struct UnionValue<P> {
    pub variant: String,
    pub payload: Vec<P>,
}

/// One transform method that a transformer overrides, to return `result`
/// whatever payload it is given.
#[derive(Clone, Debug, PartialEq, Eq)]
pub struct Override<P> {
    pub method: String,
    pub result: UnionValue<P>,
}

/// One call of a visit method, with the payload that it was shown.
#[derive(Clone, Debug, PartialEq, Eq)]
pub struct VisitRecord<P> {
    pub method: String,
    pub payload: Vec<P>,
}

/// A transformer that implements a generated interface in the plainest way: some
/// transform methods are overridden to return a fixed result, all others are
/// left at their default, and every visit method records its call in `visited`.
#[derive(Clone, Debug, PartialEq, Eq)]
pub struct ScriptedTransformer<P> {
    pub overrides: Vec<Override<P>>,
    pub visited: Vec<VisitRecord<P>>,
}

/// The view of `UnionValue`.
pub struct ValueModel<P> {
    pub variant: Seq<char>,
    pub payload: Seq<P>,
}

/// The view of `Override`.
pub struct OverrideModel<P> {
    pub method: Seq<char>,
    pub result: ValueModel<P>,
}

/// The view of `VisitRecord`.
pub struct VisitModel<P> {
    pub method: Seq<char>,
    pub payload: Seq<P>,
}

/// The view of `ScriptedTransformer`.
pub struct TransformerModel<P> {
    pub overrides: Seq<OverrideModel<P>>,
    pub visited: Seq<VisitModel<P>>,
}

impl<P> View for UnionValue<P> {
    type V = ValueModel<P>;

    open spec fn view(&self) -> ValueModel<P> {
        ValueModel { variant: self.variant@, payload: self.payload@ }
    }
}

impl<P> View for Override<P> {
    type V = OverrideModel<P>;

    open spec fn view(&self) -> OverrideModel<P> {
        OverrideModel { method: self.method@, result: self.result@ }
    }
}

impl<P> View for VisitRecord<P> {
    type V = VisitModel<P>;

    open spec fn view(&self) -> VisitModel<P> {
        VisitModel { method: self.method@, payload: self.payload@ }
    }
}

impl<P> View for ScriptedTransformer<P> {
    type V = TransformerModel<P>;

    open spec fn view(&self) -> TransformerModel<P> {
        TransformerModel {
            overrides: self.overrides@.map_values(|o: Override<P>| o@),
            visited: self.visited@.map_values(|r: VisitRecord<P>| r@),
        }
    }
}

/// What one call of the dispatcher yields: the value it returns, and the visit
/// methods called on the way.
pub struct Outcome<P> {
    pub value: ValueModel<P>,
    pub visited: Seq<VisitModel<P>>,
}

impl GeneratedModel {
    /// The variants that the arms of the dispatcher match, in order.
    pub open spec fn arm_variants(self) -> Seq<Seq<char>> {
        self.dispatcher.arms.map_values(|a: DispatchArmModel| a.variant)
    }

    /// The names of the transform methods of the interface, in order.
    pub open spec fn transform_names(self) -> Seq<Seq<char>> {
        self.interface.transforms.map_values(|h: TransformHookModel| h.name)
    }

    /// The names of the visit methods of the interface, in order.
    pub open spec fn visit_names(self) -> Seq<Seq<char>> {
        self.interface.visits.map_values(|h: VisitHookModel| h.name)
    }

    /// What the default body of the transform method `hook` does with `payload`:
    /// it calls the visit method, then rebuilds the variant from the payload. There
    /// is no such call unless the interface has the visit method and the payload
    /// has the method's arity.
    pub open spec fn default_transform<P>(
        self,
        hook: TransformHookModel,
        payload: Seq<P>,
    ) -> Option<Outcome<P>> {
        if self.visit_names().contains(hook.visit) && hook.params.len() == payload.len() {
            Some(
                Outcome {
                    value: ValueModel { variant: hook.variant, payload },
                    visited: seq![VisitModel { method: hook.visit, payload }],
                },
            )
        } else {
            None
        }
    }

    /// What the method `method` of the transformer `t` does with `payload`: the
    /// override of `t` if it has one for that name, else the default body of the
    /// interface's method of that name.
    pub open spec fn call_transform<P>(
        self,
        t: TransformerModel<P>,
        method: Seq<char>,
        payload: Seq<P>,
    ) -> Option<Outcome<P>> {
        match t.override_names().index_of_first(method) {
            Some(o) => Some(Outcome { value: t.overrides[o].result, visited: Seq::empty() }),
            None => match self.transform_names().index_of_first(method) {
                Some(h) => self.default_transform(self.interface.transforms[h], payload),
                None => None,
            },
        }
    }

    /// What the dispatcher does with the value `v` and the transformer `t`: the
    /// first arm that matches the variant of `v` hands the payload to its method
    /// of `t`, and what that returns is the result. There is no result where no arm
    /// matches, the arm binds another number of payload values than `v` has, or
    /// the method cannot be called.
    pub open spec fn run<P>(self, t: TransformerModel<P>, v: ValueModel<P>) -> Option<Outcome<P>> {
        match self.arm_variants().index_of_first(v.variant) {
            Some(a) => {
                let arm = self.dispatcher.arms[a];
                if arm.bindings.len() == v.payload.len() {
                    self.call_transform(t, arm.method, v.payload)
                } else {
                    None
                }
            },
            None => None,
        }
    }
}

impl<P> TransformerModel<P> {
    /// The names of the overridden transform methods, in order.
    pub open spec fn override_names(self) -> Seq<Seq<char>> {
        self.overrides.map_values(|o: OverrideModel<P>| o.method)
    }

    /// Whether the transformer overrides `method` to return `result`.
    pub open spec fn overrides_with(self, method: Seq<char>, result: ValueModel<P>) -> bool {
        self.override_names().index_of_first(method) matches Some(o) && self.overrides[o].result
            == result
    }

    /// Whether the transformer leaves `method` at its default.
    pub open spec fn leaves_default(self, method: Seq<char>) -> bool {
        !self.override_names().contains(method)
    }
}

impl SchemaModel {
    /// Whether `v` is a value of the union: its variant is the `k`-th of the
    /// schema, with as many payload values as that variant has payload types.
    pub open spec fn has_value_at<P>(self, v: ValueModel<P>, k: int) -> bool {
        &&& 0 <= k < self.variants.len()
        &&& self.variants[k].name == v.variant
        &&& self.variants[k].payload.len() == v.payload.len()
    }

    /// Whether `v` is a value of the union.
    pub open spec fn has_value<P>(self, v: ValueModel<P>) -> bool {
        exists|k: int| self.has_value_at(v, k)
    }

    /// The variant for which the methods named after `variant` are generated
    /// first: the first variant of the schema with the canonical name of `variant`.
    pub open spec fn method_owner(self, variant: Seq<char>) -> Option<int> {
        self.canonical_names().index_of_first(snake_case(variant))
    }

    /// Whether the methods named after `variant` belong to that variant: no
    /// variant before it has its canonical name.
    pub open spec fn owns_its_methods(self, variant: Seq<char>) -> bool {
        self.method_owner(variant) matches Some(o) && self.variants[o].name == variant
    }
}

/// Where no two variants share a canonical name, every variant owns its methods.
pub proof fn lemma_distinct_names_own_methods(schema: SchemaModel, k: int)
    requires
        schema.canonical_names_distinct(),
        0 <= k < schema.variants.len(),
    ensures
        schema.owns_its_methods(schema.variants[k].name),
{
    let names = schema.canonical_names();
    let canonical = snake_case(schema.variants[k].name);
    assert(names[k] == canonical);
    names.index_of_first_ensures(canonical);
    assert(names.contains(canonical));
}

/// The arm that matches a value of the `k`-th variant is the `k`-th.
proof fn lemma_arm_of_value<P>(schema: SchemaModel, v: ValueModel<P>, k: int)
    requires
        schema.wf(),
        schema.has_value_at(v, k),
    ensures
        generated_of(schema).arm_variants().index_of_first(v.variant) == Some(k),
        generated_of(schema).dispatcher.arms[k] == dispatch_arm(schema.variants[k]),
{
    let g = generated_of(schema);
    let names = g.arm_variants();
    assert(names =~= schema.variant_names());
    names.index_of_first_ensures(v.variant);
    assert(names[k] == v.variant);
    assert(names.contains(v.variant));
}

/// The transform method named after a variant of the schema is the one
/// generated for the owner of that name, and the interface has the visit method
/// that it calls.
proof fn lemma_method_of_owner(schema: SchemaModel, k: int)
    requires
        0 <= k < schema.variants.len(),
    ensures
        schema.method_owner(schema.variants[k].name) matches Some(o) && 0 <= o <= k
            && generated_of(schema).transform_names().index_of_first(
            transform_fn_name(schema.variants[k].name),
        ) == Some(o) && generated_of(schema).interface.transforms[o] == transform_hook(
            schema.name,
            schema.variants[o],
        ) && visit_fn_name(schema.variants[o].name) == visit_fn_name(schema.variants[k].name),
        generated_of(schema).visit_names().contains(visit_fn_name(schema.variants[k].name)),
{
    let g = generated_of(schema);
    let variant = schema.variants[k].name;
    let canonical = schema.canonical_names();
    assert(canonical[k] == snake_case(variant));
    canonical.index_of_first_ensures(snake_case(variant));
    assert(canonical.contains(snake_case(variant)));
    let o = canonical.index_of_first(snake_case(variant)).unwrap();
    assert(canonical[o] == snake_case(schema.variants[o].name));
    if k < o {
        assert(canonical[k] != snake_case(variant));
    }
    let names = g.transform_names();
    assert(names.len() == schema.variants.len());
    assert forall|j: int| 0 <= j < o implies names[j] != transform_fn_name(variant) by {
        assert(names[j] == transform_fn_name(schema.variants[j].name));
        assert(canonical[j] == snake_case(schema.variants[j].name));
        lemma_method_names_follow_canonical(schema.variants[j].name, variant);
    }
    lemma_method_names_follow_canonical(schema.variants[o].name, variant);
    assert(names[o] == transform_fn_name(schema.variants[o].name));
    lemma_first_index(names, transform_fn_name(variant), o);
    assert(g.visit_names()[k] == visit_fn_name(variant));
}

/// What the generated dispatcher does with a value whose transform method is
/// left at its default: the method is the one generated for the owner of its
/// name. Where the owner has as many payload types as the value has payload
/// values, the owner's visit method is called once with the payload, and the
/// owner's variant is rebuilt from it; otherwise there is no such call.
pub proof fn lemma_default_run<P>(
    schema: SchemaModel,
    t: TransformerModel<P>,
    v: ValueModel<P>,
)
    requires
        schema.wf(),
        schema.has_value(v),
        t.leaves_default(transform_fn_name(v.variant)),
    ensures
        schema.method_owner(v.variant) is Some,
        ({
            let owner = schema.variants[schema.method_owner(v.variant).unwrap()];
            generated_of(schema).run(t, v) == if owner.payload.len() == v.payload.len() {
                Some(
                    Outcome {
                        value: ValueModel { variant: owner.name, payload: v.payload },
                        visited: seq![
                            VisitModel { method: visit_fn_name(v.variant), payload: v.payload },
                        ],
                    },
                )
            } else {
                None
            }
        }),
{
    let k = choose|k: int| schema.has_value_at(v, k);
    lemma_arm_of_value(schema, v, k);
    lemma_method_of_owner(schema, k);
    let method = transform_fn_name(v.variant);
    t.override_names().index_of_first_ensures(method);
}

/// The generated dispatcher is total: on every value of the union whose variant
/// owns its methods, with every transformer, the call has a result.
pub proof fn lemma_dispatch_total<P>(
    schema: SchemaModel,
    t: TransformerModel<P>,
    v: ValueModel<P>,
)
    requires
        schema.wf(),
        schema.has_value(v),
        schema.owns_its_methods(v.variant),
    ensures
        generated_of(schema).run(t, v) is Some,
{
    let k = choose|k: int| schema.has_value_at(v, k);
    lemma_arm_of_value(schema, v, k);
    let method = transform_fn_name(v.variant);
    t.override_names().index_of_first_ensures(method);
    if t.leaves_default(method) {
        lemma_default_run(schema, t, v);
        lemma_owner_is_the_variant(schema, v, k);
    }
}

/// The owner of the methods of a variant that owns its methods is that variant.
proof fn lemma_owner_is_the_variant<P>(schema: SchemaModel, v: ValueModel<P>, k: int)
    requires
        schema.wf(),
        schema.has_value_at(v, k),
        schema.owns_its_methods(v.variant),
    ensures
        schema.method_owner(v.variant) == Some(k),
{
    let o = schema.method_owner(v.variant).unwrap();
    schema.canonical_names().index_of_first_ensures(snake_case(v.variant));
    assert(schema.variant_names()[o] == v.variant);
    assert(schema.variant_names()[k] == v.variant);
}

/// Identity: with a transformer that leaves every method at its default, the
/// dispatcher returns each value of the union whose variant owns its methods as
/// it was given, variant and payload.
pub proof fn lemma_identity<P>(
    schema: SchemaModel,
    t: TransformerModel<P>,
    v: ValueModel<P>,
)
    requires
        schema.wf(),
        schema.has_value(v),
        schema.owns_its_methods(v.variant),
        t.overrides.len() == 0,
    ensures
        generated_of(schema).run(t, v) is Some,
        generated_of(schema).run(t, v).unwrap().value == v,
{
    let k = choose|k: int| schema.has_value_at(v, k);
    lemma_default_run(schema, t, v);
    lemma_owner_is_the_variant(schema, v, k);
}

/// Dispatch: where the transformer overrides the transform method of a variant
/// to return `result`, the dispatcher returns `result` for every value of that
/// variant, whatever its payload, and calls no visit method.
pub proof fn lemma_dispatch_override<P>(
    schema: SchemaModel,
    t: TransformerModel<P>,
    v: ValueModel<P>,
    result: ValueModel<P>,
)
    requires
        schema.wf(),
        schema.has_value(v),
        t.overrides_with(transform_fn_name(v.variant), result),
    ensures
        generated_of(schema).run(t, v) == Some(Outcome { value: result, visited: Seq::empty() }),
{
    let k = choose|k: int| schema.has_value_at(v, k);
    lemma_arm_of_value(schema, v, k);
}

/// Visit before transform: where the transformer leaves the transform method of
/// a variant that owns its methods at its default, the dispatcher calls the
/// variant's visit method exactly once, with the payload of the value, and
/// returns the value rebuilt from that payload.
pub proof fn lemma_visit_once<P>(
    schema: SchemaModel,
    t: TransformerModel<P>,
    v: ValueModel<P>,
)
    requires
        schema.wf(),
        schema.has_value(v),
        schema.owns_its_methods(v.variant),
        t.leaves_default(transform_fn_name(v.variant)),
    ensures
        generated_of(schema).run(t, v) is Some,
        generated_of(schema).run(t, v).unwrap().visited == seq![
            VisitModel { method: visit_fn_name(v.variant), payload: v.payload },
        ],
        generated_of(schema).run(t, v).unwrap().value == v,
{
    let k = choose|k: int| schema.has_value_at(v, k);
    lemma_default_run(schema, t, v);
    lemma_owner_is_the_variant(schema, v, k);
}

/// Without its own methods a variant is not returned as it was given: with the
/// transform method left at its default, the dispatcher returns a value of the
/// variant that owns the methods, or nothing.
pub proof fn lemma_borrowed_methods_change_the_variant<P>(
    schema: SchemaModel,
    t: TransformerModel<P>,
    v: ValueModel<P>,
)
    requires
        schema.wf(),
        schema.has_value(v),
        !schema.owns_its_methods(v.variant),
        t.leaves_default(transform_fn_name(v.variant)),
    ensures
        generated_of(schema).run(t, v) matches Some(outcome) ==> outcome.value != v,
{
    lemma_default_run(schema, t, v);
}

/// No value outside the union is dispatched: the call has no result unless the
/// value's variant is one of the schema's, with that variant's number of
/// payload values.
pub proof fn lemma_dispatch_only_values<P>(
    schema: SchemaModel,
    t: TransformerModel<P>,
    v: ValueModel<P>,
)
    requires
        generated_of(schema).run(t, v) is Some,
    ensures
        schema.has_value(v),
{
    let g = generated_of(schema);
    let names = g.arm_variants();
    assert(names =~= schema.variant_names());
    names.index_of_first_ensures(v.variant);
    let a = names.index_of_first(v.variant).unwrap();
    assert(g.dispatcher.arms[a] == dispatch_arm(schema.variants[a]));
    assert(schema.has_value_at(v, a));
}

proof fn lemma_first_index(names: Seq<Seq<char>>, needle: Seq<char>, i: int)
    requires
        0 <= i < names.len(),
        names[i] == needle,
        forall|j: int| 0 <= j < i ==> names[j] != needle,
    ensures
        names.index_of_first(needle) == Some(i),
{
    names.index_of_first_ensures(needle);
    assert(names.contains(needle));
}

proof fn lemma_no_index(names: Seq<Seq<char>>, needle: Seq<char>)
    requires
        forall|j: int| 0 <= j < names.len() ==> names[j] != needle,
    ensures
        names.index_of_first(needle) is None,
        !names.contains(needle),
{
    names.index_of_first_ensures(needle);
}

fn find_arm(arms: &Vec<DispatchArm>, variant: &String) -> (found: Option<usize>)
    ensures
        arms.deep_view().map_values(|a: DispatchArmModel| a.variant).index_of_first(variant@) == (
        match found {
            Some(i) => Some(i as int),
            None => None,
        }),
        found matches Some(i) ==> i < arms.len(),
{
    let ghost names = arms.deep_view().map_values(|a: DispatchArmModel| a.variant);
    let mut i: usize = 0;
    while i < arms.len()
        invariant
            i <= arms.len(),
            names == arms.deep_view().map_values(|a: DispatchArmModel| a.variant),
            forall|j: int| 0 <= j < i ==> names[j] != variant@,
        decreases arms.len() - i,
    {
        assert(names[i as int] == arms@[i as int].variant@);
        if arms[i].variant == *variant {
            proof {
                lemma_first_index(names, variant@, i as int);
            }
            return Some(i);
        }
        i += 1;
    }
    proof {
        lemma_no_index(names, variant@);
    }
    None
}

fn find_override<P>(overrides: &Vec<Override<P>>, method: &String) -> (found: Option<usize>)
    ensures
        overrides@.map_values(|o: Override<P>| o@).map_values(
            |o: OverrideModel<P>| o.method,
        ).index_of_first(method@) == (match found {
            Some(i) => Some(i as int),
            None => None,
        }),
        found matches Some(i) ==> i < overrides.len(),
{
    let ghost names = overrides@.map_values(|o: Override<P>| o@).map_values(
        |o: OverrideModel<P>| o.method,
    );
    let mut i: usize = 0;
    while i < overrides.len()
        invariant
            i <= overrides.len(),
            names == overrides@.map_values(|o: Override<P>| o@).map_values(
                |o: OverrideModel<P>| o.method,
            ),
            forall|j: int| 0 <= j < i ==> names[j] != method@,
        decreases overrides.len() - i,
    {
        assert(names[i as int] == overrides@[i as int].method@);
        if overrides[i].method == *method {
            proof {
                lemma_first_index(names, method@, i as int);
            }
            return Some(i);
        }
        i += 1;
    }
    proof {
        lemma_no_index(names, method@);
    }
    None
}

fn find_transform(transforms: &Vec<TransformHook>, method: &String) -> (found: Option<usize>)
    ensures
        transforms.deep_view().map_values(|h: TransformHookModel| h.name).index_of_first(method@)
            == (match found {
            Some(i) => Some(i as int),
            None => None,
        }),
        found matches Some(i) ==> i < transforms.len(),
{
    let ghost names = transforms.deep_view().map_values(|h: TransformHookModel| h.name);
    let mut i: usize = 0;
    while i < transforms.len()
        invariant
            i <= transforms.len(),
            names == transforms.deep_view().map_values(|h: TransformHookModel| h.name),
            forall|j: int| 0 <= j < i ==> names[j] != method@,
        decreases transforms.len() - i,
    {
        assert(names[i as int] == transforms@[i as int].name@);
        if transforms[i].name == *method {
            proof {
                lemma_first_index(names, method@, i as int);
            }
            return Some(i);
        }
        i += 1;
    }
    proof {
        lemma_no_index(names, method@);
    }
    None
}

fn has_visit(visits: &Vec<VisitHook>, method: &String) -> (found: bool)
    ensures
        found == visits.deep_view().map_values(|h: VisitHookModel| h.name).contains(method@),
{
    let ghost names = visits.deep_view().map_values(|h: VisitHookModel| h.name);
    let mut i: usize = 0;
    while i < visits.len()
        invariant
            i <= visits.len(),
            names == visits.deep_view().map_values(|h: VisitHookModel| h.name),
            forall|j: int| 0 <= j < i ==> names[j] != method@,
        decreases visits.len() - i,
    {
        assert(names[i as int] == visits@[i as int].name@);
        if visits[i].name == *method {
            return true;
        }
        i += 1;
    }
    proof {
        lemma_no_index(names, method@);
    }
    false
}

/// Copies a payload.
fn copy_payload<P: Copy>(payload: &Vec<P>) -> (copy: Vec<P>)
    ensures
        copy@ == payload@,
{
    let mut copy: Vec<P> = Vec::new();
    let mut i: usize = 0;
    while i < payload.len()
        invariant
            i <= payload.len(),
            copy@ == payload@.take(i as int),
        decreases payload.len() - i,
    {
        copy.push(payload[i]);
        assert(payload@.take(i + 1) =~= payload@.take(i as int).push(payload@[i as int]));
        i += 1;
    }
    assert(payload@.take(payload.len() as int) =~= payload@);
    copy
}

impl<P: Copy> ScriptedTransformer<P> {
    /// A transformer with every method left at its default, and nothing visited yet.
    pub fn new() -> (tr: Self)
        ensures
            tr@.overrides.len() == 0,
            tr@.visited.len() == 0,
    {
        ScriptedTransformer { overrides: Vec::new(), visited: Vec::new() }
    }

    /// Overrides the transform method `method` to return `result`. An earlier
    /// override of the same method stays in force.
    pub fn override_transform(&mut self, method: String, result: UnionValue<P>)
        ensures
            final(self)@.overrides == old(self)@.overrides.push(
                OverrideModel { method: method@, result: result@ },
            ),
            final(self)@.visited == old(self)@.visited,
            old(self)@.leaves_default(method@) ==> final(self)@.overrides_with(method@, result@),
            forall|m: Seq<char>, r: ValueModel<P>|
                old(self)@.overrides_with(m, r) ==> final(self)@.overrides_with(m, r),
            forall|m: Seq<char>|
                m != method@ && old(self)@.leaves_default(m) ==> final(self)@.leaves_default(m),
    {
        self.overrides.push(Override { method, result });
        proof {
            let before = old(self)@;
            let after = self@;
            let added = OverrideModel { method: method@, result: result@ };
            assert(after.overrides =~= before.overrides.push(added));
            assert(after.override_names() =~= before.override_names().push(method@));
            if before.leaves_default(method@) {
                lemma_first_index(after.override_names(), method@, before.overrides.len() as int);
            }
            assert forall|m: Seq<char>, r: ValueModel<P>| before.overrides_with(m, r) implies
                after.overrides_with(m, r) by {
                before.override_names().index_of_first_ensures(m);
                let o = before.override_names().index_of_first(m).unwrap();
                lemma_first_index(after.override_names(), m, o);
            }
        }
    }
}

impl Generated {
    /// Calls the generated dispatcher on `value` with the transformer `tr`.
    ///
    /// The result is what `run` describes: the value that the transformer's method
    /// for the variant returns, with the calls of visit methods appended to
    /// `tr.visited`. Where `run` has no result, nothing is returned and `tr` is
    /// left as it was.
    pub fn apply<P: Copy>(
        &self,
        value: UnionValue<P>,
        tr: &mut ScriptedTransformer<P>,
    ) -> (returned: Option<UnionValue<P>>)
        ensures
            match self@.run(old(tr)@, value@) {
                Some(outcome) => {
                    &&& returned matches Some(r) && r@ == outcome.value
                    &&& final(tr)@.visited == old(tr)@.visited + outcome.visited
                    &&& final(tr)@.overrides == old(tr)@.overrides
                },
                None => returned is None && final(tr)@ == old(tr)@,
            },
    {
        let arm = match find_arm(&self.dispatcher.arms, &value.variant) {
            Some(a) => &self.dispatcher.arms[a],
            None => {
                return None;
            },
        };
        if arm.bindings.len() != value.payload.len() {
            return None;
        }
        if let Some(o) = find_override(&tr.overrides, &arm.method) {
            let result = &tr.overrides[o].result;
            let returned = UnionValue {
                variant: result.variant.clone(),
                payload: copy_payload(&result.payload),
            };
            assert(tr@.visited + Seq::<VisitModel<P>>::empty() =~= tr@.visited);
            return Some(returned);
        }
        let hook = match find_transform(&self.interface.transforms, &arm.method) {
            Some(h) => &self.interface.transforms[h],
            None => {
                return None;
            },
        };
        if !has_visit(&self.interface.visits, &hook.visit) || hook.params.len()
            != value.payload.len() {
            return None;
        }
        let shown = copy_payload(&value.payload);
        tr.visited.push(VisitRecord { method: hook.visit.clone(), payload: shown });
        assert(tr@.visited =~= old(tr)@.visited + seq![
            VisitModel { method: hook@.visit, payload: value@.payload },
        ]);
        Some(UnionValue { variant: hook.variant.clone(), payload: value.payload })
    }
}

} // verus!
