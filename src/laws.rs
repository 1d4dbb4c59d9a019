//! Properties of synthesis that hold of every declaration.
use vstd::prelude::*;
use crate::attrs::{
    custom_factor, factor_count, field_attr_check, field_check, fields_seq, first_error,
    is_factor, is_weight, own_factor, type_factor,
};
use crate::factor::{bound_of, field_factor, fields_kind, fields_plan, synthesized, variants_plan};
use crate::model::{
    opt_view, AssignModel, Expr, Lit, FactorTyModel, Field, FieldFactorModel, Meta,
    MemberModel, SynthError, TypeDecl, ValueModel, WeightModel,
};
use crate::overrides::{resolve_attr, resolve_attrs, resolve_meta, resolve_metas};
use crate::weights::{final_weights, variant_weight, weight_nonzero};

verus! {

proof fn lemma_fields_plan_slots(fs: Seq<Field>, prefix: Seq<MemberModel>, positional: bool)
    requires
        fields_plan(fs, prefix, positional) is Ok,
    ensures
        fields_plan(fs, prefix, positional)->Ok_0.factors.len() == fs.len(),
        forall|i: int|
            0 <= i < fs.len() ==> field_factor(#[trigger] fs[i]) == Ok::<
                FieldFactorModel,
                SynthError,
            >(fields_plan(fs, prefix, positional)->Ok_0.factors[i]),
    decreases fs.len(),
{
    if fs.len() > 0 {
        lemma_fields_plan_slots(fs.drop_last(), prefix, positional);
        assert forall|i: int| 0 <= i < fs.len() - 1 implies fs.drop_last()[i] == fs[i] by {}
    }
}

proof fn lemma_variants_plan_weights(vs: Seq<crate::model::Variant>)
    requires
        variants_plan(vs) is Ok,
    ensures
        variants_plan(vs)->Ok_0.weights.len() == vs.len(),
        forall|i: int|
            0 <= i < vs.len() ==> variant_weight(#[trigger] vs[i].attrs@) == Ok::<
                Option<WeightModel>,
                SynthError,
            >(variants_plan(vs)->Ok_0.weights[i]),
    decreases vs.len(),
{
    if vs.len() > 0 {
        lemma_variants_plan_weights(vs.drop_last());
        assert forall|i: int| 0 <= i < vs.len() - 1 implies vs.drop_last()[i] == vs[i] by {}
    }
}

proof fn lemma_no_weight(attrs: Seq<Meta>)
    requires
        forall|j: int| 0 <= j < attrs.len() ==> !is_weight(#[trigger] attrs[j]),
    ensures
        variant_weight(attrs) == Ok::<Option<WeightModel>, SynthError>(None),
    decreases attrs.len(),
{
    if attrs.len() > 0 {
        assert(!is_weight(attrs[0]));
        assert forall|j: int| 0 <= j < attrs.len() - 1 implies !is_weight(
            #[trigger] attrs.drop_first()[j],
        ) by {
            assert(attrs.drop_first()[j] == attrs[j + 1]);
        }
        lemma_no_weight(attrs.drop_first());
    }
}

/// A synthesized struct factor has one slot per source field, in the same
/// order, with the same names and the same kind (named, positional or unit).
pub proof fn lemma_shape_fidelity(decl: TypeDecl)
    requires
        decl.data is Struct,
        synthesized(decl) is Ok,
        synthesized(decl)->Ok_0.factor is Some,
    ensures
        ({
            let fs = fields_seq(decl.data->Struct_0);
            let shape = synthesized(decl)->Ok_0.factor->Some_0.shape;
            &&& shape is Struct
            &&& shape->Struct_kind == fields_kind(decl.data->Struct_0)
            &&& shape->Struct_fields.len() == fs.len()
            &&& forall|i: int|
                0 <= i < fs.len() ==> (#[trigger] shape->Struct_fields[i]).ident == opt_view(
                    fs[i].ident,
                ) && shape->Struct_fields[i].ty == fs[i].ty@
        }),
{
    let fs = fields_seq(decl.data->Struct_0);
    lemma_fields_plan_slots(fs, Seq::empty(), false);
    let p = fields_plan(fs, Seq::empty(), false)->Ok_0;
    assert forall|i: int| 0 <= i < fs.len() implies (#[trigger] p.factors[i]).ident == opt_view(
        fs[i].ident,
    ) && p.factors[i].ty == fs[i].ty@ by {
        assert(field_factor(fs[i]) is Ok);
    }
}

/// When no variant declares a weight, every variant gets weight one.
pub proof fn lemma_weight_default(decl: TypeDecl)
    requires
        decl.data is Enum,
        forall|i: int, j: int|
            0 <= i < decl.data->Enum_0@.len() && 0 <= j < decl.data->Enum_0@[i].attrs@.len()
                ==> !is_weight(#[trigger] decl.data->Enum_0@[i].attrs@[j]),
        synthesized(decl) is Ok,
        synthesized(decl)->Ok_0.factor is Some,
    ensures
        ({
            let shape = synthesized(decl)->Ok_0.factor->Some_0.shape;
            &&& shape is Enum
            &&& shape->Enum_weights.len() == decl.data->Enum_0@.len()
            &&& forall|i: int|
                0 <= i < shape->Enum_weights.len() ==> #[trigger] shape->Enum_weights[i]
                    == WeightModel::Int(1)
        }),
{
    let vs = decl.data->Enum_0@;
    lemma_variants_plan_weights(vs);
    let ws = variants_plan(vs)->Ok_0.weights;
    assert forall|i: int| 0 <= i < ws.len() implies #[trigger] ws[i] is None by {
        assert forall|j: int| 0 <= j < vs[i].attrs@.len() implies !is_weight(
            #[trigger] vs[i].attrs@[j],
        ) by {}
        lemma_no_weight(vs[i].attrs@);
    }
}

/// When exactly one variant declares a weight and it is non-zero, that
/// variant carries it and every other variant weighs zero.
pub proof fn lemma_weight_override(decl: TypeDecl, k: int, w: WeightModel)
    requires
        decl.data is Enum,
        0 <= k < decl.data->Enum_0@.len(),
        variant_weight(decl.data->Enum_0@[k].attrs@) == Ok::<Option<WeightModel>, SynthError>(
            Some(w),
        ),
        weight_nonzero(w),
        forall|i: int, j: int|
            0 <= i < decl.data->Enum_0@.len() && i != k && 0 <= j < decl.data->Enum_0@[i].attrs@.len()
                ==> !is_weight(#[trigger] decl.data->Enum_0@[i].attrs@[j]),
        synthesized(decl) is Ok,
        synthesized(decl)->Ok_0.factor is Some,
    ensures
        ({
            let shape = synthesized(decl)->Ok_0.factor->Some_0.shape;
            &&& shape is Enum
            &&& shape->Enum_weights.len() == decl.data->Enum_0@.len()
            &&& shape->Enum_weights[k] == w
            &&& forall|i: int|
                0 <= i < shape->Enum_weights.len() && i != k ==> #[trigger] shape->Enum_weights[i]
                    == WeightModel::Int(0)
        }),
{
    let vs = decl.data->Enum_0@;
    lemma_variants_plan_weights(vs);
    let ws = variants_plan(vs)->Ok_0.weights;
    assert forall|i: int| 0 <= i < ws.len() && i != k implies #[trigger] ws[i] is None by {
        assert forall|j: int| 0 <= j < vs[i].attrs@.len() implies !is_weight(
            #[trigger] vs[i].attrs@[j],
        ) by {}
        lemma_no_weight(vs[i].attrs@);
    }
    assert(ws[k] == Some(w));
}

/// An enum whose variants all declare a weight of zero has no factor.
pub proof fn lemma_all_zero_rejected(decl: TypeDecl)
    requires
        decl.data is Enum,
        decl.data->Enum_0@.len() > 0,
        !(type_factor(decl.attrs@) matches Ok(Some(_))),
        forall|i: int|
            0 <= i < decl.data->Enum_0@.len() ==> ((#[trigger] variant_weight(
                decl.data->Enum_0@[i].attrs@,
            )) matches Ok(Some(w)) && !weight_nonzero(w)),
    ensures
        synthesized(decl) is Err,
{
    let vs = decl.data->Enum_0@;
    if variants_plan(vs) is Ok {
        lemma_variants_plan_weights(vs);
        let ws = variants_plan(vs)->Ok_0.weights;
        assert(variant_weight(vs[0].attrs@) matches Ok(Some(_)));
        assert(ws[0] is Some);
        assert(!(forall|i: int| 0 <= i < ws.len() ==> #[trigger] ws[i] is None));
        assert forall|i: int| 0 <= i < ws.len() implies !(#[trigger] ws[i] is Some
            && weight_nonzero(ws[i]->Some_0)) by {
            assert(variant_weight(vs[i].attrs@) matches Ok(Some(w)) && !weight_nonzero(w));
        }
        assert(final_weights(ws) == Err::<Seq<WeightModel>, SynthError>(SynthError::ZeroWeights));
    }
}

/// A field whose only directive is `factor(name = value)` overrides exactly
/// the member `name` of its own factor slot, and nothing else.
pub proof fn lemma_override_path(m: Meta, chain: Seq<MemberModel>)
    requires
        is_factor(m),
        m matches Meta::List { nested: Some(v), .. } && v@.len() == 1 && v@[0] is NameValue,
    ensures
        ({
            let inner = m->List_nested->Some_0@[0];
            resolve_attrs(seq![m], chain) == Ok::<Seq<AssignModel>, SynthError>(
                seq![
                    AssignModel {
                        chain: chain.push(MemberModel::Named(inner->NameValue_path@)),
                        value: ValueModel::Expr(inner->NameValue_value@),
                    },
                ],
            )
        }),
{
    let v = m->List_nested->Some_0@;
    assert(seq![m].drop_last() =~= Seq::<Meta>::empty());
    assert(v.drop_last() =~= Seq::<Meta>::empty());
    assert(resolve_metas(v.drop_last(), chain) == Ok::<Seq<AssignModel>, SynthError>(Seq::empty()));
    let a = resolve_meta(v[0], chain)->Ok_0;
    assert(Seq::<AssignModel>::empty() + a =~= a);
    assert(resolve_attrs(seq![m].drop_last(), chain) == Ok::<Seq<AssignModel>, SynthError>(
        Seq::empty(),
    ));
}

/// A field that names a hand-written factor and nothing else gets that
/// factor as its slot, needs no default bound, and has no overrides.
pub proof fn lemma_custom_factor_slot(f: Field, chain: Seq<MemberModel>, n: Seq<char>)
    requires
        custom_factor(f.attrs@) == Ok::<Option<Seq<char>>, SynthError>(Some(n)),
        factor_count(f.attrs@) == 1,
        forall|j: int| 0 <= j < f.attrs@.len() ==> is_factor(#[trigger] f.attrs@[j]),
    ensures
        field_factor(f) == Ok::<FieldFactorModel, SynthError>(
            FieldFactorModel {
                ident: opt_view(f.ident),
                ty: f.ty@,
                factor: FactorTyModel::Custom(n),
            },
        ),
        bound_of(field_factor(f)->Ok_0) == Seq::<Seq<char>>::empty(),
        resolve_attrs(f.attrs@, chain) == Ok::<Seq<AssignModel>, SynthError>(Seq::empty()),
{
    lemma_single_factor_attr(f.attrs@, chain);
}

proof fn lemma_single_factor_attr(attrs: Seq<Meta>, chain: Seq<MemberModel>)
    requires
        custom_factor(attrs) is Ok,
        custom_factor(attrs)->Ok_0 is Some,
        factor_count(attrs) == 1,
        forall|j: int| 0 <= j < attrs.len() ==> is_factor(#[trigger] attrs[j]),
    ensures
        resolve_attrs(attrs, chain) == Ok::<Seq<AssignModel>, SynthError>(Seq::empty()),
{
    assert(attrs.len() > 0);
    assert(is_factor(attrs[0]));
    if attrs.len() > 1 {
        assert(is_factor(attrs.drop_first()[0]));
        assert(factor_count(attrs.drop_first()) >= 1);
    }
    assert(attrs.len() == 1);
    assert(attrs.drop_last() =~= Seq::<Meta>::empty());
    assert(attrs.drop_first().len() == 0);
    assert(custom_factor(attrs.drop_first()) == Ok::<Option<Seq<char>>, SynthError>(None));
    assert(attrs[0] is NameValue);
    assert(attrs[0]->NameValue_value matches Expr::Lit(Lit::Str(_)));
    assert(attrs.last() == attrs[0]);
    assert(resolve_attrs(attrs.drop_last(), chain) == Ok::<Seq<AssignModel>, SynthError>(
        Seq::empty(),
    ));
    assert(resolve_attr(attrs[0], chain) == Ok::<Seq<AssignModel>, SynthError>(Seq::empty()));
    assert(Seq::<AssignModel>::empty() + Seq::<AssignModel>::empty() =~= Seq::<
        AssignModel,
    >::empty());
}

proof fn lemma_fields_plan_err_at(fs: Seq<Field>, prefix: Seq<MemberModel>, positional: bool, k: int)
    requires
        0 <= k < fs.len(),
        field_factor(fs[k]) is Err,
    ensures
        fields_plan(fs, prefix, positional) is Err,
    decreases fs.len(),
{
    if k < fs.len() - 1 {
        assert(fs.drop_last()[k] == fs[k]);
        lemma_fields_plan_err_at(fs.drop_last(), prefix, positional, k);
    }
}

/// A directive beside a field's hand-written factor makes synthesis fail.
pub proof fn lemma_custom_factor_rejects_directives(decl: TypeDecl, k: int)
    requires
        decl.data is Struct,
        0 <= k < fields_seq(decl.data->Struct_0).len(),
        custom_factor(fields_seq(decl.data->Struct_0)[k].attrs@) matches Ok(Some(_)),
        factor_count(fields_seq(decl.data->Struct_0)[k].attrs@) > 1,
    ensures
        synthesized(decl) is Err,
{
    let fs = fields_seq(decl.data->Struct_0);
    assert(own_factor(fs[k].attrs@) is Err);
    lemma_fields_plan_err_at(fs, Seq::empty(), false, k);
    if type_factor(decl.attrs@) matches Ok(Some(_)) {
        let attrs = fs[k].attrs@;
        assert(attrs.len() > 0) by {
            if attrs.len() == 0 {
                assert(factor_count(attrs) == 0);
            }
        }
        assert(field_attr_check(true)(attrs[0]) is Some);
        lemma_first_error_some(attrs, field_attr_check(true), 0);
        assert(field_check(true)(fs[k]) is Some);
        lemma_first_error_some(fs, field_check(true), k);
    }
}

proof fn lemma_first_error_some<A>(s: Seq<A>, f: spec_fn(A) -> Option<SynthError>, k: int)
    requires
        0 <= k < s.len(),
        f(s[k]) is Some,
    ensures
        first_error(s, f) is Some,
    decreases k,
{
    if f(s[0]) is None {
        assert(s.drop_first()[k - 1] == s[k]);
        lemma_first_error_some(s.drop_first(), f, k - 1);
    }
}

} // verus!
