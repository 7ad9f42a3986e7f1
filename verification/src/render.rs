//! The source text of the generated artifacts.

use vstd::prelude::*;
use crate::generate::{
    DispatchArm, DispatchArmModel, DispatcherModel, Generated, GeneratedDispatcher,
    GeneratedInterface, GeneratedModel, InterfaceModel, Param, ParamModel, TransformHook,
    TransformHookModel, VisitHook, VisitHookModel,
};

verus! {

/// The items in order, each behind `prefix`, with `sep` between two of them.
pub open spec fn listed(items: Seq<Seq<char>>, prefix: Seq<char>, sep: Seq<char>) -> Seq<char>
    decreases items.len(),
{
    if items.len() == 0 {
        Seq::empty()
    } else if items.len() == 1 {
        prefix + items[0]
    } else {
        listed(items.drop_last(), prefix, sep) + sep + prefix + items.last()
    }
}

impl ParamModel {
    /// `name: ty`, or `name: &ty` for a borrowed payload.
    pub open spec fn source(self) -> Seq<char> {
        if self.borrowed {
            self.name + ": &"@ + self.ty
        } else {
            self.name + ": "@ + self.ty
        }
    }
}

/// The names of the parameters, in order.
pub open spec fn names_of(params: Seq<ParamModel>) -> Seq<Seq<char>> {
    params.map_values(|p: ParamModel| p.name)
}

/// The parameters as they follow `&mut self` in a method's header: each behind
/// a comma.
pub open spec fn params_source(params: Seq<ParamModel>) -> Seq<char> {
    params.map_values(|p: ParamModel| ", "@ + p.source()).flatten()
}

impl VisitHookModel {
    /// `fn visit_x(&mut self, a: &A) -> () { }`
    pub open spec fn source(self) -> Seq<char> {
        "fn "@ + self.name + "(&mut self"@ + params_source(self.params) + ") -> () { }"@
    }
}

impl TransformHookModel {
    /// `fn transform_x(&mut self, a: A) -> U { self.visit_x(&a); U::X(a) }`
    pub open spec fn source(self) -> Seq<char> {
        "fn "@ + self.name + "(&mut self"@ + params_source(self.params) + ") -> "@
            + self.union_name + " { self."@ + self.visit + "("@ + listed(
            names_of(self.params),
            "&"@,
            ", "@,
        ) + "); "@ + self.union_name + "::"@ + self.variant + "("@ + listed(
            names_of(self.params),
            Seq::empty(),
            ", "@,
        ) + ") }"@
    }
}

impl DispatchArmModel {
    /// `Self::X(a) => tr.transform_x(a)`
    pub open spec fn source(self) -> Seq<char> {
        "Self::"@ + self.variant + "("@ + listed(self.bindings, Seq::empty(), ", "@)
            + ") => tr."@ + self.method + "("@ + listed(self.bindings, Seq::empty(), ", "@)
            + ")"@
    }
}

impl DispatcherModel {
    /// `impl U { fn transform(self, tr: &mut impl UTransformer) -> Self { match self { .. } } }`
    pub open spec fn source(self) -> Seq<char> {
        "impl "@ + self.union_name + " { fn transform(self, tr: &mut impl "@ + self.transformer
            + ") -> Self { match self { "@ + listed(
            self.arms.map_values(|a: DispatchArmModel| a.source()),
            Seq::empty(),
            ", "@,
        ) + " } } }"@
    }
}

impl InterfaceModel {
    /// `trait UTransformer { .. }` with the visit methods, then the transform methods.
    pub open spec fn source(self) -> Seq<char> {
        "trait "@ + self.name + " { "@ + self.visits.map_values(
            |h: VisitHookModel| h.source() + " "@,
        ).flatten() + self.transforms.map_values(
            |h: TransformHookModel| h.source() + " "@,
        ).flatten() + "}"@
    }
}

impl GeneratedModel {
    /// The dispatcher, then the interface.
    pub open spec fn source(self) -> Seq<char> {
        self.dispatcher.source() + " "@ + self.interface.source()
    }
}

proof fn lemma_listed_step(items: Seq<Seq<char>>, prefix: Seq<char>, sep: Seq<char>, i: int)
    requires
        0 <= i < items.len(),
    ensures
        listed(items.take(i + 1), prefix, sep) == if i == 0 {
            prefix + items[i]
        } else {
            listed(items.take(i), prefix, sep) + sep + prefix + items[i]
        },
{
    assert(items.take(i + 1).drop_last() =~= items.take(i));
    assert(items.take(i + 1).last() == items[i]);
}

proof fn lemma_flatten_step(texts: Seq<Seq<char>>, i: int)
    requires
        0 <= i < texts.len(),
    ensures
        texts.take(i + 1).flatten() == texts.take(i).flatten() + texts[i],
{
    texts.take(i + 1).lemma_flatten_and_flatten_alt_are_equivalent();
    texts.take(i).lemma_flatten_and_flatten_alt_are_equivalent();
    assert(texts.take(i + 1).drop_last() =~= texts.take(i));
    assert(texts.take(i + 1).last() == texts[i]);
}

/// Appends the texts to `out`, each behind `prefix`, with `sep` between them.
fn append_listed(out: &mut String, items: &Vec<String>, prefix: &str, sep: &str)
    ensures
        final(out)@ == old(out)@ + listed(items.deep_view(), prefix@, sep@),
{
    let ghost texts = items.deep_view();
    let mut i: usize = 0;
    while i < items.len()
        invariant
            i <= items.len(),
            texts == items.deep_view(),
            out@ == old(out)@ + listed(texts.take(i as int), prefix@, sep@),
        decreases items.len() - i,
    {
        proof {
            lemma_listed_step(texts, prefix@, sep@, i as int);
        }
        let ghost before = out@;
        if i > 0 {
            out.append(sep);
        }
        out.append(prefix);
        out.append(items[i].as_str());
        proof {
            assert(texts[i as int] == items@[i as int]@);
            if i == 0 {
                assert(listed(texts.take(0), prefix@, sep@) == Seq::<char>::empty());
                assert(out@ =~= old(out)@ + (prefix@ + texts[0]));
            } else {
                assert(out@ =~= old(out)@ + (listed(texts.take(i as int), prefix@, sep@) + sep@
                    + prefix@ + texts[i as int]));
            }
        }
        i += 1;
    }
    assert(texts.take(items.len() as int) =~= texts);
}

/// The names of the parameters.
fn param_name_list(params: &Vec<Param>) -> (names: Vec<String>)
    ensures
        names.deep_view() == names_of(params.deep_view()),
{
    let mut names: Vec<String> = Vec::new();
    let mut i: usize = 0;
    while i < params.len()
        invariant
            i <= params.len(),
            names.len() == i,
            forall|j: int| 0 <= j < i ==> (#[trigger] names@[j])@ == params@[j]@.name,
        decreases params.len() - i,
    {
        names.push(params[i].name.clone());
        i += 1;
    }
    assert(names.deep_view() =~= names_of(params.deep_view()));
    names
}

impl Param {
    /// The parameter as it stands in a method's header.
    pub fn to_source(&self) -> (text: String)
        ensures
            text@ == self@.source(),
    {
        let mut text = self.name.clone();
        if self.borrowed {
            text.append(": &");
        } else {
            text.append(": ");
        }
        text.append(self.ty.as_str());
        text
    }
}

/// Appends the parameters to a method's header, each behind a comma.
fn append_params(out: &mut String, params: &Vec<Param>)
    ensures
        final(out)@ == old(out)@ + params_source(params.deep_view()),
{
    let ghost texts = params.deep_view().map_values(|p: ParamModel| ", "@ + p.source());
    let mut i: usize = 0;
    while i < params.len()
        invariant
            i <= params.len(),
            texts == params.deep_view().map_values(|p: ParamModel| ", "@ + p.source()),
            out@ == old(out)@ + texts.take(i as int).flatten(),
        decreases params.len() - i,
    {
        proof {
            lemma_flatten_step(texts, i as int);
        }
        let param = params[i].to_source();
        out.append(", ");
        out.append(param.as_str());
        proof {
            assert(texts[i as int] == ", "@ + params@[i as int]@.source());
            assert(out@ =~= old(out)@ + (texts.take(i as int).flatten() + texts[i as int]));
        }
        i += 1;
    }
    assert(texts.take(params.len() as int) =~= texts);
}

impl VisitHook {
    /// The method's source text: a header that borrows the payload, and an empty body.
    pub fn to_source(&self) -> (text: String)
        ensures
            text@ == self@.source(),
    {
        let mut text = String::from_str("fn ");
        text.append(self.name.as_str());
        text.append("(&mut self");
        append_params(&mut text, &self.params);
        text.append(") -> () { }");
        text
    }
}

impl TransformHook {
    /// The method's source text: a header that owns the payload, and the default
    /// body, which calls the visit method and rebuilds the variant.
    pub fn to_source(&self) -> (text: String)
        ensures
            text@ == self@.source(),
    {
        let names = param_name_list(&self.params);
        let mut text = String::from_str("fn ");
        text.append(self.name.as_str());
        text.append("(&mut self");
        append_params(&mut text, &self.params);
        text.append(") -> ");
        text.append(self.union_name.as_str());
        text.append(" { self.");
        text.append(self.visit.as_str());
        text.append("(");
        append_listed(&mut text, &names, "&", ", ");
        text.append("); ");
        text.append(self.union_name.as_str());
        text.append("::");
        text.append(self.variant.as_str());
        text.append("(");
        append_listed(&mut text, &names, "", ", ");
        text.append(") }");
        proof {
            reveal_strlit("");
            assert(""@ =~= Seq::<char>::empty());
        }
        text
    }
}

impl DispatchArm {
    /// The arm's source text: the pattern that binds the payload, and the call
    /// that forwards it.
    pub fn to_source(&self) -> (text: String)
        ensures
            text@ == self@.source(),
    {
        let mut text = String::from_str("Self::");
        text.append(self.variant.as_str());
        text.append("(");
        append_listed(&mut text, &self.bindings, "", ", ");
        text.append(") => tr.");
        text.append(self.method.as_str());
        text.append("(");
        append_listed(&mut text, &self.bindings, "", ", ");
        text.append(")");
        proof {
            reveal_strlit("");
            assert(""@ =~= Seq::<char>::empty());
        }
        text
    }
}

impl GeneratedDispatcher {
    /// The source text of the dispatcher: an `impl` of the union with the one
    /// method `transform`.
    pub fn to_source(&self) -> (text: String)
        ensures
            text@ == self@.source(),
    {
        let mut arms: Vec<String> = Vec::new();
        let mut i: usize = 0;
        while i < self.arms.len()
            invariant
                i <= self.arms.len(),
                arms.len() == i,
                forall|j: int| 0 <= j < i ==> (#[trigger] arms@[j])@ == self.arms@[j]@.source(),
            decreases self.arms.len() - i,
        {
            arms.push(self.arms[i].to_source());
            i += 1;
        }
        assert(arms.deep_view() =~= self@.arms.map_values(|a: DispatchArmModel| a.source()));
        let mut text = String::from_str("impl ");
        text.append(self.union_name.as_str());
        text.append(" { fn transform(self, tr: &mut impl ");
        text.append(self.transformer.as_str());
        text.append(") -> Self { match self { ");
        append_listed(&mut text, &arms, "", ", ");
        text.append(" } } }");
        proof {
            reveal_strlit("");
            assert(""@ =~= Seq::<char>::empty());
        }
        text
    }
}

impl GeneratedInterface {
    /// The source text of the interface: a `trait` with the visit methods of all
    /// variants, then their transform methods.
    pub fn to_source(&self) -> (text: String)
        ensures
            text@ == self@.source(),
    {
        let mut text = String::from_str("trait ");
        text.append(self.name.as_str());
        text.append(" { ");
        let ghost head = text@;
        let ghost visits = self@.visits.map_values(|h: VisitHookModel| h.source() + " "@);
        let mut i: usize = 0;
        while i < self.visits.len()
            invariant
                i <= self.visits.len(),
                visits == self@.visits.map_values(|h: VisitHookModel| h.source() + " "@),
                text@ == head + visits.take(i as int).flatten(),
            decreases self.visits.len() - i,
        {
            proof {
                lemma_flatten_step(visits, i as int);
            }
            let method = self.visits[i].to_source();
            text.append(method.as_str());
            text.append(" ");
            proof {
                assert(visits[i as int] == self.visits@[i as int]@.source() + " "@);
                assert(text@ =~= head + (visits.take(i as int).flatten() + visits[i as int]));
            }
            i += 1;
        }
        assert(visits.take(self.visits.len() as int) =~= visits);
        let ghost middle = text@;
        let ghost transforms = self@.transforms.map_values(
            |h: TransformHookModel| h.source() + " "@,
        );
        let mut k: usize = 0;
        while k < self.transforms.len()
            invariant
                k <= self.transforms.len(),
                transforms == self@.transforms.map_values(
                    |h: TransformHookModel| h.source() + " "@,
                ),
                text@ == middle + transforms.take(k as int).flatten(),
            decreases self.transforms.len() - k,
        {
            proof {
                lemma_flatten_step(transforms, k as int);
            }
            let method = self.transforms[k].to_source();
            text.append(method.as_str());
            text.append(" ");
            proof {
                assert(transforms[k as int] == self.transforms@[k as int]@.source() + " "@);
                assert(text@ =~= middle + (transforms.take(k as int).flatten()
                    + transforms[k as int]));
            }
            k += 1;
        }
        assert(transforms.take(self.transforms.len() as int) =~= transforms);
        text.append("}");
        text
    }
}

impl Generated {
    /// The source text of both artifacts: the dispatcher, then the interface.
    pub fn to_source(&self) -> (text: String)
        ensures
            text@ == self@.source(),
    {
        let mut text = self.dispatcher.to_source();
        let interface = self.interface.to_source();
        text.append(" ");
        text.append(interface.as_str());
        text
    }
}

} // verus!
