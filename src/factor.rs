//! Synthesis of a factor for a struct or an enum.
use vstd::prelude::*;
use vstd::string::*;
use crate::attrs::{fields_seq, find_own_factor, own_factor, checked_attrs, validate_attrs};
use crate::model::{
    assigns_view, field_factors_view, members_view, opt_view, strings_view, variant_factors_view,
    weights_view, Assign, AssignModel, Data, FactorImplModel, FactorShape, FactorTy,
    FactorTyModel, Field, FieldFactor, FieldFactorModel, Fields, FieldsKind, Member, MemberModel,
    ShapeModel, SurpriseFactorImpl, SurpriseImpl, SurpriseImplModel, SynthError, TypeDecl,
    Variant, VariantFactor, VariantFactorModel, Weight, WeightModel,
};
use crate::overrides::{parse_default_attrs, resolve_attrs};
use crate::weights::{final_weights, find_weight, variant_weight, weight_is_nonzero, weight_nonzero};

verus! {

/// The member of a factor value that holds the factor of field `i`: its
/// name, or its position when it has none or when `positional` is set.
pub open spec fn member_of(f: Field, i: int, positional: bool) -> MemberModel {
    match f.ident {
        Some(n) => if positional {
            MemberModel::Unnamed(i as nat)
        } else {
            MemberModel::Named(n@)
        },
        None => MemberModel::Unnamed(i as nat),
    }
}

/// The factor slot of one field: its hand-written factor, or its type's own.
pub open spec fn field_factor(f: Field) -> Result<FieldFactorModel, SynthError> {
    match own_factor(f.attrs@) {
        Err(e) => Err(e),
        Ok(c) => Ok(
            FieldFactorModel {
                ident: opt_view(f.ident),
                ty: f.ty@,
                factor: match c {
                    Some(n) => FactorTyModel::Custom(n),
                    None => FactorTyModel::Derived(f.ty@),
                },
            },
        ),
    }
}

/// The source types whose factors must have a default: every field
/// without a hand-written factor.
pub open spec fn bound_of(ff: FieldFactorModel) -> Seq<Seq<char>> {
    match ff.factor {
        FactorTyModel::Derived(t) => seq![t],
        FactorTyModel::Custom(_) => Seq::empty(),
    }
}

pub struct FieldsPlan {
    pub factors: Seq<FieldFactorModel>,
    pub assigns: Seq<AssignModel>,
    pub bounds: Seq<Seq<char>>,
}

/// The factor slots, override assignments and default bounds of a field
/// list, each assignment chain starting with `prefix`.
pub open spec fn fields_plan(fs: Seq<Field>, prefix: Seq<MemberModel>, positional: bool) -> Result<
    FieldsPlan,
    SynthError,
>
    decreases fs.len(),
{
    if fs.len() == 0 {
        Ok(FieldsPlan { factors: Seq::empty(), assigns: Seq::empty(), bounds: Seq::empty() })
    } else {
        match fields_plan(fs.drop_last(), prefix, positional) {
            Err(e) => Err(e),
            Ok(p) => match field_factor(fs.last()) {
                Err(e) => Err(e),
                Ok(ff) => match resolve_attrs(
                    fs.last().attrs@,
                    prefix.push(member_of(fs.last(), fs.len() - 1, positional)),
                ) {
                    Err(e) => Err(e),
                    Ok(a) => Ok(
                        FieldsPlan {
                            factors: p.factors.push(ff),
                            assigns: p.assigns + a,
                            bounds: p.bounds + bound_of(ff),
                        },
                    ),
                },
            },
        }
    }
}

pub open spec fn fields_kind(fs: Fields) -> FieldsKind {
    match fs {
        Fields::Named(_) => FieldsKind::Named,
        Fields::Unnamed(_) => FieldsKind::Unnamed,
        Fields::Unit => FieldsKind::Unit,
    }
}

/// The factor of a struct: one slot per field, in order.
pub open spec fn struct_factor(fs: Fields) -> Result<FactorImplModel, SynthError> {
    match fields_plan(fields_seq(fs), Seq::empty(), false) {
        Err(e) => Err(e),
        Ok(p) => Ok(
            FactorImplModel {
                shape: ShapeModel::Struct { kind: fields_kind(fs), fields: p.factors },
                default_assigns: p.assigns,
                default_bounds: p.bounds,
            },
        ),
    }
}

pub struct EnumPlan {
    pub weights: Seq<Option<WeightModel>>,
    pub slots: Seq<VariantFactorModel>,
    pub assigns: Seq<AssignModel>,
    pub bounds: Seq<Seq<char>>,
}

/// The declared weights, slots, assignments and bounds of a variant list.
/// A variant without fields has no slot; the assignments of a variant's
/// fields are scoped by the variant's name and the field's position.
pub open spec fn variants_plan(vs: Seq<Variant>) -> Result<EnumPlan, SynthError>
    decreases vs.len(),
{
    if vs.len() == 0 {
        Ok(
            EnumPlan {
                weights: Seq::empty(),
                slots: Seq::empty(),
                assigns: Seq::empty(),
                bounds: Seq::empty(),
            },
        )
    } else {
        match variants_plan(vs.drop_last()) {
            Err(e) => Err(e),
            Ok(p) => {
                let v = vs.last();
                match variant_weight(v.attrs@) {
                    Err(e) => Err(e),
                    Ok(w) => if fields_seq(v.fields).len() == 0 {
                        Ok(EnumPlan { weights: p.weights.push(w), ..p })
                    } else {
                        match fields_plan(
                            fields_seq(v.fields),
                            seq![MemberModel::Named(v.ident@)],
                            true,
                        ) {
                            Err(e) => Err(e),
                            Ok(fp) => Ok(
                                EnumPlan {
                                    weights: p.weights.push(w),
                                    slots: p.slots.push(
                                        VariantFactorModel {
                                            ident: v.ident@,
                                            kind: fields_kind(v.fields),
                                            fields: fp.factors,
                                        },
                                    ),
                                    assigns: p.assigns + fp.assigns,
                                    bounds: p.bounds + fp.bounds,
                                },
                            ),
                        }
                    },
                }
            },
        }
    }
}

/// The factor of an enum: its weight vector, then one slot per variant with fields.
pub open spec fn enum_factor(vs: Seq<Variant>) -> Result<FactorImplModel, SynthError> {
    match variants_plan(vs) {
        Err(e) => Err(e),
        Ok(p) => match final_weights(p.weights) {
            Err(e) => Err(e),
            Ok(ws) => Ok(
                FactorImplModel {
                    shape: ShapeModel::Enum { weights: ws, variants: p.slots },
                    default_assigns: p.assigns,
                    default_bounds: p.bounds,
                },
            ),
        },
    }
}

pub open spec fn data_factor(data: Data) -> Result<FactorImplModel, SynthError> {
    match data {
        Data::Struct(fs) => struct_factor(fs),
        Data::Enum(vs) => enum_factor(vs@),
        Data::Union => Err(SynthError::Union),
    }
}

/// What synthesis gives for a declaration: the named hand-written factor,
/// or a factor `<Name>Surprise` built from the declaration's shape.
pub open spec fn synthesized(decl: TypeDecl) -> Result<SurpriseImplModel, SynthError> {
    match checked_attrs(decl.attrs@, decl.data) {
        Err(e) => Err(e),
        Ok(Some(n)) => Ok(SurpriseImplModel { name: decl.ident@, factor_name: n, factor: None }),
        Ok(None) => match data_factor(decl.data) {
            Err(e) => Err(e),
            Ok(f) => Ok(
                SurpriseImplModel {
                    name: decl.ident@,
                    factor_name: decl.ident@ + "Surprise"@,
                    factor: Some(f),
                },
            ),
        },
    }
}

pub open spec fn impl_view(r: Result<SurpriseFactorImpl, SynthError>) -> Result<
    FactorImplModel,
    SynthError,
> {
    match r {
        Ok(f) => Ok(f@),
        Err(e) => Err(e),
    }
}

pub open spec fn surprise_view(r: Result<SurpriseImpl, SynthError>) -> Result<
    SurpriseImplModel,
    SynthError,
> {
    match r {
        Ok(s) => Ok(s@),
        Err(e) => Err(e),
    }
}

proof fn lemma_fields_prefix_err(fs: Seq<Field>, prefix: Seq<MemberModel>, positional: bool, i: int)
    requires
        0 <= i <= fs.len(),
        fields_plan(fs.take(i), prefix, positional) is Err,
    ensures
        fields_plan(fs, prefix, positional) == fields_plan(fs.take(i), prefix, positional),
    decreases fs.len(),
{
    if i < fs.len() {
        assert(fs.drop_last().take(i) =~= fs.take(i));
        lemma_fields_prefix_err(fs.drop_last(), prefix, positional, i);
    } else {
        assert(fs.take(i) =~= fs);
    }
}

proof fn lemma_variants_prefix_err(vs: Seq<Variant>, i: int)
    requires
        0 <= i <= vs.len(),
        variants_plan(vs.take(i)) is Err,
    ensures
        variants_plan(vs) == variants_plan(vs.take(i)),
    decreases vs.len(),
{
    if i < vs.len() {
        assert(vs.drop_last().take(i) =~= vs.take(i));
        lemma_variants_prefix_err(vs.drop_last(), i);
    } else {
        assert(vs.take(i) =~= vs);
    }
}

fn copy_opt(o: &Option<String>) -> (r: Option<String>)
    ensures
        opt_view(r) == opt_view(*o),
{
    match o {
        Some(s) => Some(s.clone()),
        None => None,
    }
}

/// The factor slot of one field.
fn new_field_factor(f: &Field) -> (r: Result<FieldFactor, SynthError>)
    ensures
        impl_field_view(r) == field_factor(*f),
{
    let c = find_own_factor(&f.attrs)?;
    let factor = match c {
        Some(n) => FactorTy::Custom(n),
        None => FactorTy::Derived(f.ty.clone()),
    };
    Ok(FieldFactor { ident: copy_opt(&f.ident), ty: f.ty.clone(), factor })
}

pub open spec fn impl_field_view(r: Result<FieldFactor, SynthError>) -> Result<
    FieldFactorModel,
    SynthError,
> {
    match r {
        Ok(f) => Ok(f@),
        Err(e) => Err(e),
    }
}

fn member_for(f: &Field, i: usize, positional: bool) -> (r: Member)
    ensures
        r@ == member_of(*f, i as int, positional),
{
    match &f.ident {
        Some(n) => if positional {
            Member::Unnamed(i)
        } else {
            Member::Named(n.clone())
        },
        None => Member::Unnamed(i),
    }
}

/// Appends the slots, assignments and bounds of a field list; `chain`
/// holds the prefix of every assignment chain.
fn plan_fields(
    fs: &Vec<Field>,
    positional: bool,
    chain: &mut Vec<Member>,
    factors: &mut Vec<FieldFactor>,
    out: &mut Vec<Assign>,
    bounds: &mut Vec<String>,
) -> (r: Result<(), SynthError>)
    ensures
        members_view(final(chain)@) == members_view(old(chain)@),
        match fields_plan(fs@, members_view(old(chain)@), positional) {
            Ok(p) => {
                &&& r is Ok
                &&& field_factors_view(final(factors)@) == field_factors_view(old(factors)@)
                    + p.factors
                &&& assigns_view(final(out)@) == assigns_view(old(out)@) + p.assigns
                &&& strings_view(final(bounds)@) == strings_view(old(bounds)@) + p.bounds
            },
            Err(e) => r == Err::<(), SynthError>(e),
        },
{
    let ghost c = members_view(chain@);
    let ghost f0 = field_factors_view(factors@);
    let ghost a0 = assigns_view(out@);
    let ghost b0 = strings_view(bounds@);
    let n = fs.len();
    let mut i: usize = 0;
    let mut err: Option<SynthError> = None;
    proof {
        assert(fs@.take(0) =~= Seq::<Field>::empty());
        assert(field_factors_view(factors@) =~= f0 + Seq::<FieldFactorModel>::empty());
        assert(assigns_view(out@) =~= a0 + Seq::<AssignModel>::empty());
        assert(strings_view(bounds@) =~= b0 + Seq::<Seq<char>>::empty());
    }
    while i < n && err.is_none()
        invariant
            n == fs@.len(),
            i <= n,
            members_view(chain@) == c,
            err is None ==> {
                &&& fields_plan(fs@.take(i as int), c, positional) is Ok
                &&& field_factors_view(factors@) == f0 + fields_plan(
                    fs@.take(i as int),
                    c,
                    positional,
                )->Ok_0.factors
                &&& assigns_view(out@) == a0 + fields_plan(
                    fs@.take(i as int),
                    c,
                    positional,
                )->Ok_0.assigns
                &&& strings_view(bounds@) == b0 + fields_plan(
                    fs@.take(i as int),
                    c,
                    positional,
                )->Ok_0.bounds
            },
            err is Some ==> fields_plan(fs@, c, positional) == Err::<FieldsPlan, SynthError>(
                err->Some_0,
            ),
        decreases n - i, (if err is None { 1int } else { 0int }),
    {
        let ghost taken = fs@.take(i as int);
        proof {
            assert(fs@.take(i + 1).drop_last() =~= taken);
            assert(fs@.take(i + 1).last() == fs@[i as int]);
        }
        let f = &fs[i];
        match new_field_factor(f) {
            Err(e) => {
                proof {
                    lemma_fields_prefix_err(fs@, c, positional, i + 1);
                }
                err = Some(e);
            },
            Ok(ff) => {
                let ghost pre_chain = chain@;
                chain.push(member_for(f, i, positional));
                proof {
                    assert(members_view(chain@) =~= c.push(member_of(fs@[i as int], i as int, positional)));
                }
                let r = parse_default_attrs(&f.attrs, chain, out);
                proof {
                    assert(members_view(chain@.drop_last()) =~= members_view(chain@).drop_last());
                }
                chain.pop();
                proof {
                    assert(members_view(chain@) =~= c);
                }
                match r {
                    Err(e) => {
                        proof {
                            lemma_fields_prefix_err(fs@, c, positional, i + 1);
                        }
                        err = Some(e);
                    },
                    Ok(()) => {
                        let ghost ffv = ff@;
                        let ghost pre_f = factors@;
                        let ghost pre_b = bounds@;
                        if let FactorTy::Derived(t) = &ff.factor {
                            bounds.push(t.clone());
                            proof {
                                assert(strings_view(bounds@) =~= strings_view(pre_b) + bound_of(ffv));
                            }
                        } else {
                            proof {
                                assert(strings_view(bounds@) =~= strings_view(pre_b) + bound_of(ffv));
                            }
                        }
                        factors.push(ff);
                        proof {
                            assert(field_factors_view(factors@) =~= field_factors_view(pre_f).push(ffv));
                            let p = fields_plan(taken, c, positional)->Ok_0;
                            assert(field_factors_view(factors@) =~= f0 + p.factors.push(ffv));
                            assert(strings_view(bounds@) =~= b0 + (p.bounds + bound_of(ffv)));
                            assert(assigns_view(out@) =~= a0 + fields_plan(
                                fs@.take(i + 1),
                                c,
                                positional,
                            )->Ok_0.assigns);
                        }
                        i = i + 1;
                    },
                }
            },
        }
    }
    match err {
        Some(e) => Err(e),
        None => {
            proof {
                assert(fs@.take(n as int) =~= fs@);
            }
            Ok(())
        },
    }
}

pub open spec fn opt_weights_view(s: Seq<Option<Weight>>) -> Seq<Option<WeightModel>> {
    s.map_values(
        |o: Option<Weight>|
            match o {
                Some(w) => Some(w@),
                None => None,
            },
    )
}

fn copy_weight(w: &Weight) -> (r: Weight)
    ensures
        r@ == w@,
{
    match w {
        Weight::Int(n) => Weight::Int(*n),
        Weight::Float(t) => Weight::Float(t.clone()),
    }
}

/// The weight vector from the declared weights.
fn finish_weights(ws: &Vec<Option<Weight>>) -> (r: Result<Vec<Weight>, SynthError>)
    ensures
        match final_weights(opt_weights_view(ws@)) {
            Ok(v) => r is Ok && weights_view(r->Ok_0@) == v,
            Err(e) => r == Err::<Vec<Weight>, SynthError>(e),
        },
{
    let ghost wv = opt_weights_view(ws@);
    let n = ws.len();
    let mut declared = false;
    let mut nonzero = false;
    let mut i: usize = 0;
    while i < n
        invariant
            n == ws@.len(),
            wv == opt_weights_view(ws@),
            i <= n,
            declared == exists|j: int| 0 <= j < i && #[trigger] wv[j] is Some,
            nonzero == exists|j: int|
                0 <= j < i && #[trigger] wv[j] is Some && weight_nonzero(wv[j]->Some_0),
        decreases n - i,
    {
        if let Some(w) = &ws[i] {
            declared = true;
            if weight_is_nonzero(w) {
                nonzero = true;
            }
        }
        proof {
            assert(wv[i as int] is Some == ws@[i as int] is Some);
        }
        i = i + 1;
    }
    let mut out: Vec<Weight> = Vec::new();
    if !declared {
        let mut k: usize = 0;
        while k < n
            invariant
                n == ws@.len(),
                k <= n,
                weights_view(out@) =~= Seq::new(k as nat, |j: int| WeightModel::Int(1)),
            decreases n - k,
        {
            let ghost pre = out@;
            out.push(Weight::Int(1));
            proof {
                assert(weights_view(out@) =~= weights_view(pre).push(WeightModel::Int(1)));
            }
            k = k + 1;
        }
        proof {
            assert(forall|j: int| 0 <= j < wv.len() ==> !(#[trigger] wv[j] is Some));
        }
        Ok(out)
    } else if !nonzero {
        Err(SynthError::ZeroWeights)
    } else {
        let ghost expected = Seq::new(
            n as nat,
            |j: int|
                match wv[j] {
                    Some(w) => w,
                    None => WeightModel::Int(0),
                },
        );
        let mut k: usize = 0;
        while k < n
            invariant
                n == ws@.len(),
                wv == opt_weights_view(ws@),
                k <= n,
                weights_view(out@) =~= expected.take(k as int),
                expected == Seq::new(
                    n as nat,
                    |j: int|
                        match wv[j] {
                            Some(w) => w,
                            None => WeightModel::Int(0),
                        },
                ),
            decreases n - k,
        {
            let w = match &ws[k] {
                Some(w) => copy_weight(w),
                None => Weight::Int(0),
            };
            let ghost pre = out@;
            proof {
                assert(w@ == expected[k as int]);
            }
            out.push(w);
            proof {
                assert(weights_view(out@) =~= weights_view(pre).push(w@));
                assert(weights_view(out@) =~= expected.take(k + 1));
            }
            k = k + 1;
        }
        proof {
            assert(expected.take(n as int) =~= expected);
        }
        Ok(out)
    }
}

impl SurpriseFactorImpl {
    /// The factor of a struct: one slot per field, in order, with the
    /// overrides of the fields' directives.
    pub fn new_for_struct(fields: &Fields) -> (r: Result<SurpriseFactorImpl, SynthError>)
        ensures
            impl_view(r) == struct_factor(*fields),
    {
        let mut chain: Vec<Member> = Vec::new();
        let mut factors: Vec<FieldFactor> = Vec::new();
        let mut out: Vec<Assign> = Vec::new();
        let mut bounds: Vec<String> = Vec::new();
        proof {
            assert(members_view(chain@) =~= Seq::<MemberModel>::empty());
            assert(field_factors_view(factors@) =~= Seq::<FieldFactorModel>::empty());
            assert(assigns_view(out@) =~= Seq::<AssignModel>::empty());
            assert(strings_view(bounds@) =~= Seq::<Seq<char>>::empty());
        }
        let kind = match fields {
            Fields::Named(v) => {
                plan_fields(v, false, &mut chain, &mut factors, &mut out, &mut bounds)?;
                FieldsKind::Named
            },
            Fields::Unnamed(v) => {
                plan_fields(v, false, &mut chain, &mut factors, &mut out, &mut bounds)?;
                FieldsKind::Unnamed
            },
            Fields::Unit => FieldsKind::Unit,
        };
        proof {
            let p = fields_plan(fields_seq(*fields), Seq::empty(), false)->Ok_0;
            assert(field_factors_view(factors@) =~= p.factors);
            assert(assigns_view(out@) =~= p.assigns);
            assert(strings_view(bounds@) =~= p.bounds);
        }
        Ok(
            SurpriseFactorImpl {
                shape: FactorShape::Struct { kind, fields: factors },
                default_assigns: out,
                default_bounds: bounds,
            },
        )
    }

    /// The factor of an enum: the weight vector, one slot per variant with
    /// fields, and the overrides of all variants' field directives.
    pub fn new_for_enum(vs: &Vec<Variant>) -> (r: Result<SurpriseFactorImpl, SynthError>)
        ensures
            impl_view(r) == enum_factor(vs@),
    {
        let mut weights: Vec<Option<Weight>> = Vec::new();
        let mut slots: Vec<VariantFactor> = Vec::new();
        let mut out: Vec<Assign> = Vec::new();
        let mut bounds: Vec<String> = Vec::new();
        let n = vs.len();
        let mut i: usize = 0;
        let mut err: Option<SynthError> = None;
        proof {
            assert(vs@.take(0) =~= Seq::<Variant>::empty());
            assert(opt_weights_view(weights@) =~= Seq::<Option<WeightModel>>::empty());
            assert(variant_factors_view(slots@) =~= Seq::<VariantFactorModel>::empty());
            assert(assigns_view(out@) =~= Seq::<AssignModel>::empty());
            assert(strings_view(bounds@) =~= Seq::<Seq<char>>::empty());
        }
        while i < n && err.is_none()
            invariant
                n == vs@.len(),
                i <= n,
                err is None ==> {
                    &&& variants_plan(vs@.take(i as int)) is Ok
                    &&& opt_weights_view(weights@) == variants_plan(vs@.take(i as int))->Ok_0.weights
                    &&& variant_factors_view(slots@) == variants_plan(vs@.take(i as int))->Ok_0.slots
                    &&& assigns_view(out@) == variants_plan(vs@.take(i as int))->Ok_0.assigns
                    &&& strings_view(bounds@) == variants_plan(vs@.take(i as int))->Ok_0.bounds
                },
                err is Some ==> variants_plan(vs@) == Err::<EnumPlan, SynthError>(err->Some_0),
            decreases n - i, (if err is None { 1int } else { 0int }),
        {
            let ghost taken = vs@.take(i as int);
            proof {
                assert(vs@.take(i + 1).drop_last() =~= taken);
                assert(vs@.take(i + 1).last() == vs@[i as int]);
            }
            let v = &vs[i];
            match find_weight(&v.attrs) {
                Err(e) => {
                    proof {
                        lemma_variants_prefix_err(vs@, i + 1);
                    }
                    err = Some(e);
                },
                Ok(w) => {
                    let ghost wv: Option<WeightModel> = if w is Some {
                        Some(w->Some_0@)
                    } else {
                        None
                    };
                    let ghost pre_w = weights@;
                    weights.push(w);
                    proof {
                        assert(opt_weights_view(weights@) =~= opt_weights_view(pre_w).push(wv));
                    }
                    let fs: Option<&Vec<Field>> = match &v.fields {
                        Fields::Named(f) => if f.len() == 0 {
                            None
                        } else {
                            Some(f)
                        },
                        Fields::Unnamed(f) => if f.len() == 0 {
                            None
                        } else {
                            Some(f)
                        },
                        Fields::Unit => None,
                    };
                    match fs {
                        None => {
                            i = i + 1;
                        },
                        Some(f) => {
                            let mut chain: Vec<Member> = Vec::new();
                            chain.push(Member::Named(v.ident.clone()));
                            let mut factors: Vec<FieldFactor> = Vec::new();
                            proof {
                                assert(members_view(chain@) =~= seq![MemberModel::Named(v.ident@)]);
                                assert(field_factors_view(factors@) =~= Seq::<FieldFactorModel>::empty());
                            }
                            let ghost pre_a = assigns_view(out@);
                            let ghost pre_b = strings_view(bounds@);
                            match plan_fields(f, true, &mut chain, &mut factors, &mut out, &mut bounds) {
                                Err(e) => {
                                    proof {
                                        lemma_variants_prefix_err(vs@, i + 1);
                                    }
                                    err = Some(e);
                                },
                                Ok(()) => {
                                    let kind = match &v.fields {
                                        Fields::Named(_) => FieldsKind::Named,
                                        Fields::Unnamed(_) => FieldsKind::Unnamed,
                                        Fields::Unit => FieldsKind::Unit,
                                    };
                                    let slot = VariantFactor { ident: v.ident.clone(), kind, fields: factors };
                                    let ghost pre_s = slots@;
                                    let ghost sv = slot@;
                                    slots.push(slot);
                                    proof {
                                        assert(variant_factors_view(slots@) =~= variant_factors_view(pre_s).push(sv));
                                        assert(field_factors_view(factors@) =~= Seq::<FieldFactorModel>::empty() + fields_plan(fields_seq(v.fields), seq![MemberModel::Named(v.ident@)], true)->Ok_0.factors);
                                    }
                                    i = i + 1;
                                },
                            }
                        },
                    }
                },
            }
        }
        match err {
            Some(e) => Err(e),
            None => {
                proof {
                    assert(vs@.take(n as int) =~= vs@);
                }
                let ws = finish_weights(&weights)?;
                Ok(
                    SurpriseFactorImpl {
                        shape: FactorShape::Enum { weights: ws, variants: slots },
                        default_assigns: out,
                        default_bounds: bounds,
                    },
                )
            },
        }
    }

    /// The factor of a struct or an enum; unions have none.
    pub fn new(data: &Data) -> (r: Result<SurpriseFactorImpl, SynthError>)
        ensures
            impl_view(r) == data_factor(*data),
    {
        match data {
            Data::Struct(fs) => Self::new_for_struct(fs),
            Data::Enum(vs) => Self::new_for_enum(vs),
            Data::Union => Err(SynthError::Union),
        }
    }
}

impl SurpriseImpl {
    /// Checks a declaration's attributes and synthesizes its factor, unless
    /// the type names a hand-written one.
    pub fn new(decl: &TypeDecl) -> (r: Result<SurpriseImpl, SynthError>)
        ensures
            surprise_view(r) == synthesized(*decl),
    {
        match validate_attrs(&decl.attrs, &decl.data)? {
            Some(factor_name) => Ok(
                SurpriseImpl { name: decl.ident.clone(), factor_name, factor: None },
            ),
            None => {
                let factor = SurpriseFactorImpl::new(&decl.data)?;
                let factor_name = decl.ident.clone().concat("Surprise");
                Ok(SurpriseImpl { name: decl.ident.clone(), factor_name, factor: Some(factor) })
            },
        }
    }
}

/// Synthesizes the factor of a declaration, or says why it cannot be.
pub fn impl_surprise(decl: &TypeDecl) -> (r: Result<SurpriseImpl, SynthError>)
    ensures
        surprise_view(r) == synthesized(*decl),
{
    SurpriseImpl::new(decl)
}

} // verus!
