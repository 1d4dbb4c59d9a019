//! Override directives: `#[factor(name = value, inner(...))]` on a field
//! becomes an ordered list of assignments into the field's default factor.
use vstd::prelude::*;
use crate::attrs::{is_factor, path_of, text_is};
use crate::model::{
    assigns_view, members_view, Assign, AssignModel, AssignValue, Expr, Lit, Meta, Member,
    MemberModel, SynthError, ValueModel,
};

verus! {

broadcast use {
    vstd::seq::axiom_seq_index_decreases,
    vstd::seq::axiom_seq_subrange_decreases,
    vstd::std_specs::vec::axiom_vec_decreases_to_view,
};

/// A path of one segment: a plain field name.
pub open spec fn single_segment(p: Seq<char>) -> bool {
    forall|i: int| 0 <= i < p.len() ==> p[i] != ':'
}

/// The assignments of one directive, under the member chain `chain`.
pub open spec fn resolve_meta(m: Meta, chain: Seq<MemberModel>) -> Result<
    Seq<AssignModel>,
    SynthError,
>
    decreases m,
{
    match m {
        Meta::Path(p) => Ok(seq![AssignModel { chain, value: ValueModel::Path(p@) }]),
        Meta::NameValue { path, value } => Ok(
            seq![AssignModel {
                chain: chain.push(MemberModel::Named(path@)),
                value: ValueModel::Expr(value@),
            }],
        ),
        Meta::List { path, nested } => match nested {
            Some(v) => if single_segment(path@) {
                resolve_metas(v@, chain.push(MemberModel::Named(path@)))
            } else {
                Err(SynthError::MalformedDirective)
            },
            None => Err(SynthError::MalformedDirective),
        },
    }
}

/// The assignments of a directive list, in order: depth first, left to right.
pub open spec fn resolve_metas(ms: Seq<Meta>, chain: Seq<MemberModel>) -> Result<
    Seq<AssignModel>,
    SynthError,
>
    decreases ms,
{
    if ms.len() == 0 {
        Ok(Seq::empty())
    } else {
        match resolve_metas(ms.drop_last(), chain) {
            Err(e) => Err(e),
            Ok(a) => match resolve_meta(ms.last(), chain) {
                Err(e) => Err(e),
                Ok(b) => Ok(a + b),
            },
        }
    }
}

/// The assignments of one attribute of a field.
pub open spec fn resolve_attr(m: Meta, chain: Seq<MemberModel>) -> Result<
    Seq<AssignModel>,
    SynthError,
> {
    if !is_factor(m) {
        Ok(Seq::empty())
    } else {
        match m {
            Meta::List { nested: Some(v), .. } => resolve_metas(v@, chain),
            Meta::NameValue { value: Expr::Lit(Lit::Str(_)), .. } => Ok(Seq::empty()),
            _ => Err(SynthError::MalformedDirective),
        }
    }
}

/// The assignments of all attributes of a field, in order.
pub open spec fn resolve_attrs(attrs: Seq<Meta>, chain: Seq<MemberModel>) -> Result<
    Seq<AssignModel>,
    SynthError,
>
    decreases attrs.len(),
{
    if attrs.len() == 0 {
        Ok(Seq::empty())
    } else {
        match resolve_attrs(attrs.drop_last(), chain) {
            Err(e) => Err(e),
            Ok(a) => match resolve_attr(attrs.last(), chain) {
                Err(e) => Err(e),
                Ok(b) => Ok(a + b),
            },
        }
    }
}

proof fn lemma_metas_prefix_err(ms: Seq<Meta>, chain: Seq<MemberModel>, i: int)
    requires
        0 <= i <= ms.len(),
        resolve_metas(ms.take(i), chain) is Err,
    ensures
        resolve_metas(ms, chain) == resolve_metas(ms.take(i), chain),
    decreases ms.len(),
{
    if i < ms.len() {
        assert(ms.drop_last().take(i) =~= ms.take(i));
        lemma_metas_prefix_err(ms.drop_last(), chain, i);
    } else {
        assert(ms.take(i) =~= ms);
    }
}

proof fn lemma_attrs_prefix_err(attrs: Seq<Meta>, chain: Seq<MemberModel>, i: int)
    requires
        0 <= i <= attrs.len(),
        resolve_attrs(attrs.take(i), chain) is Err,
    ensures
        resolve_attrs(attrs, chain) == resolve_attrs(attrs.take(i), chain),
    decreases attrs.len(),
{
    if i < attrs.len() {
        assert(attrs.drop_last().take(i) =~= attrs.take(i));
        lemma_attrs_prefix_err(attrs.drop_last(), chain, i);
    } else {
        assert(attrs.take(i) =~= attrs);
    }
}

fn copy_string(s: &String) -> (r: String)
    ensures
        r@ == s@,
{
    s.clone()
}

fn copy_lit(l: &Lit) -> (r: Lit)
    ensures
        r@ == l@,
{
    match l {
        Lit::Str(s) => Lit::Str(copy_string(s)),
        Lit::Int(s) => Lit::Int(copy_string(s)),
        Lit::Float(s) => Lit::Float(copy_string(s)),
        Lit::Other(s) => Lit::Other(copy_string(s)),
    }
}

fn copy_expr(e: &Expr) -> (r: Expr)
    ensures
        r@ == e@,
{
    match e {
        Expr::Lit(l) => Expr::Lit(copy_lit(l)),
        Expr::Other(s) => Expr::Other(copy_string(s)),
    }
}

fn copy_chain(chain: &Vec<Member>) -> (r: Vec<Member>)
    ensures
        members_view(r@) == members_view(chain@),
{
    let mut r: Vec<Member> = Vec::new();
    let n = chain.len();
    let mut i: usize = 0;
    while i < n
        invariant
            n == chain@.len(),
            i <= n,
            r@.len() == i,
            members_view(r@) =~= members_view(chain@.take(i as int)),
        decreases n - i,
    {
        let m = match &chain[i] {
            Member::Named(s) => Member::Named(copy_string(s)),
            Member::Unnamed(k) => Member::Unnamed(*k),
        };
        let ghost old_r = r@;
        proof {
            assert(m@ == chain@[i as int]@);
        }
        r.push(m);
        proof {
            assert(r@ == old_r.push(m));
            assert(members_view(r@)[i as int] == m@);
            assert(chain@.take(i + 1) =~= chain@.take(i as int).push(chain@[i as int]));
            assert forall|j: int| 0 <= j < i + 1 implies #[trigger] members_view(r@)[j]
                == members_view(chain@.take(i + 1))[j] by {
                if j < i {
                    assert(members_view(old_r)[j] == members_view(chain@.take(i as int))[j]);
                }
            }
            assert(members_view(r@) =~= members_view(chain@.take(i + 1)));
        }
        i = i + 1;
    }
    proof {
        assert(chain@.take(n as int) =~= chain@);
    }
    r
}

fn is_single_segment(p: &String) -> (r: bool)
    ensures
        r == single_segment(p@),
{
    let s = p.as_str();
    let n = s.unicode_len();
    let mut i: usize = 0;
    while i < n
        invariant
            n == p@.len(),
            s@ == p@,
            i <= n,
            forall|j: int| 0 <= j < i ==> p@[j] != ':',
        decreases n - i,
    {
        if s.get_char(i) == ':' {
            return false;
        }
        i = i + 1;
    }
    true
}

fn push_assign(out: &mut Vec<Assign>, chain: &Vec<Member>, value: AssignValue)
    ensures
        assigns_view(final(out)@) == assigns_view(old(out)@).push(
            AssignModel { chain: members_view(chain@), value: value@ },
        ),
{
    let a = Assign { chain: copy_chain(chain), value };
    out.push(a);
    proof {
        assert(assigns_view(final(out)@) =~= assigns_view(old(out)@).push(a@));
    }
}

/// Appends the assignments of one directive to `out`.
fn resolve_nested(m: &Meta, chain: &mut Vec<Member>, out: &mut Vec<Assign>) -> (r: Result<
    (),
    SynthError,
>)
    ensures
        members_view(final(chain)@) == members_view(old(chain)@),
        match resolve_meta(*m, members_view(old(chain)@)) {
            Ok(a) => r is Ok && assigns_view(final(out)@) == assigns_view(old(out)@) + a,
            Err(e) => r == Err::<(), SynthError>(e),
        },
    decreases m,
{
    match m {
        Meta::Path(p) => {
            push_assign(out, chain, AssignValue::Path(copy_string(p)));
            proof {
                assert(assigns_view(final(out)@) =~= assigns_view(old(out)@) + resolve_meta(
                    *m,
                    members_view(old(chain)@),
                )->Ok_0);
            }
            Ok(())
        },
        Meta::NameValue { path, value } => {
            chain.push(Member::Named(copy_string(path)));
            proof {
                assert(members_view(chain@) =~= members_view(old(chain)@).push(
                    MemberModel::Named(path@),
                ));
            }
            push_assign(out, chain, AssignValue::Expr(copy_expr(value)));
            chain.pop();
            proof {
                assert(members_view(chain@) =~= members_view(old(chain)@));
                assert(assigns_view(final(out)@) =~= assigns_view(old(out)@) + resolve_meta(
                    *m,
                    members_view(old(chain)@),
                )->Ok_0);
            }
            Ok(())
        },
        Meta::List { path, nested } => match nested {
            Some(v) => {
                if !is_single_segment(path) {
                    return Err(SynthError::MalformedDirective);
                }
                chain.push(Member::Named(copy_string(path)));
                proof {
                    assert(members_view(chain@) =~= members_view(old(chain)@).push(
                        MemberModel::Named(path@),
                    ));
                }
                let r = resolve_list(v, chain, out);
                proof {
                    assert(members_view(chain@.drop_last()) =~= members_view(chain@).drop_last());
                }
                chain.pop();
                proof {
                    assert(members_view(chain@) =~= members_view(old(chain)@));
                }
                r
            },
            None => Err(SynthError::MalformedDirective),
        },
    }
}

/// Appends the assignments of a directive list to `out`.
fn resolve_list(ms: &Vec<Meta>, chain: &mut Vec<Member>, out: &mut Vec<Assign>) -> (r: Result<
    (),
    SynthError,
>)
    ensures
        members_view(final(chain)@) == members_view(old(chain)@),
        match resolve_metas(ms@, members_view(old(chain)@)) {
            Ok(a) => r is Ok && assigns_view(final(out)@) == assigns_view(old(out)@) + a,
            Err(e) => r == Err::<(), SynthError>(e),
        },
    decreases ms@,
{
    let ghost c = members_view(chain@);
    let ghost out0 = assigns_view(out@);
    let n = ms.len();
    let mut i: usize = 0;
    let mut err: Option<SynthError> = None;
    proof {
        assert(ms@.take(0) =~= Seq::<Meta>::empty());
        assert(assigns_view(out@) =~= out0 + Seq::<AssignModel>::empty());
    }
    while i < n && err.is_none()
        invariant
            n == ms@.len(),
            i <= n,
            members_view(chain@) == c,
            err is None ==> resolve_metas(ms@.take(i as int), c) is Ok && assigns_view(out@)
                == out0 + resolve_metas(ms@.take(i as int), c)->Ok_0,
            err is Some ==> resolve_metas(ms@, c) == Err::<Seq<AssignModel>, SynthError>(
                err->Some_0,
            ),
        decreases n - i, (if err is None { 1int } else { 0int }),
    {
        proof {
            assert(ms@.take(i + 1).drop_last() =~= ms@.take(i as int));
            assert(ms@.take(i + 1).last() == ms@[i as int]);
        }
        match resolve_nested(&ms[i], chain, out) {
            Err(e) => {
                proof {
                    lemma_metas_prefix_err(ms@, c, i + 1);
                }
                err = Some(e);
            },
            Ok(()) => {
                proof {
                    assert(assigns_view(out@) =~= out0 + resolve_metas(ms@.take(i + 1), c)->Ok_0);
                }
                i = i + 1;
            },
        }
    }
    match err {
        Some(e) => Err(e),
        None => {
            proof {
                assert(ms@.take(n as int) =~= ms@);
            }
            Ok(())
        },
    }
}

/// Appends to `out` the assignments of a field's override directives, each
/// chain starting with `chain`.
pub fn parse_default_attrs(attrs: &Vec<Meta>, chain: &mut Vec<Member>, out: &mut Vec<Assign>) -> (r:
    Result<(), SynthError>)
    ensures
        members_view(final(chain)@) == members_view(old(chain)@),
        match resolve_attrs(attrs@, members_view(old(chain)@)) {
            Ok(a) => r is Ok && assigns_view(final(out)@) == assigns_view(old(out)@) + a,
            Err(e) => r == Err::<(), SynthError>(e),
        },
{
    let ghost c = members_view(chain@);
    let ghost out0 = assigns_view(out@);
    let n = attrs.len();
    let mut i: usize = 0;
    let mut err: Option<SynthError> = None;
    proof {
        assert(attrs@.take(0) =~= Seq::<Meta>::empty());
        assert(assigns_view(out@) =~= out0 + Seq::<AssignModel>::empty());
    }
    while i < n && err.is_none()
        invariant
            n == attrs@.len(),
            i <= n,
            members_view(chain@) == c,
            err is None ==> resolve_attrs(attrs@.take(i as int), c) is Ok && assigns_view(out@)
                == out0 + resolve_attrs(attrs@.take(i as int), c)->Ok_0,
            err is Some ==> resolve_attrs(attrs@, c) == Err::<Seq<AssignModel>, SynthError>(
                err->Some_0,
            ),
        decreases n - i, (if err is None { 1int } else { 0int }),
    {
        proof {
            assert(attrs@.take(i + 1).drop_last() =~= attrs@.take(i as int));
            assert(attrs@.take(i + 1).last() == attrs@[i as int]);
        }
        let m = &attrs[i];
        let r: Result<(), SynthError> = if !text_is(path_of(m), "factor") {
            Ok(())
        } else {
            match m {
                Meta::List { nested: Some(v), .. } => resolve_list(v, chain, out),
                Meta::NameValue { value: Expr::Lit(Lit::Str(_)), .. } => Ok(()),
                _ => Err(SynthError::MalformedDirective),
            }
        };
        match r {
            Err(e) => {
                proof {
                    lemma_attrs_prefix_err(attrs@, c, i + 1);
                }
                err = Some(e);
            },
            Ok(()) => {
                proof {
                    assert(assigns_view(out@) =~= out0 + resolve_attrs(attrs@.take(i + 1), c)->Ok_0);
                }
                i = i + 1;
            },
        }
    }
    match err {
        Some(e) => Err(e),
        None => {
            proof {
                assert(attrs@.take(n as int) =~= attrs@);
            }
            Ok(())
        },
    }
}

} // verus!
