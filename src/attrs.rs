//! The attribute rules: which attributes may stand where, and which
//! hand-written factor an attribute list names.
use vstd::prelude::*;
use vstd::string::*;
use crate::model::{opt_view, Data, Expr, Field, Fields, Lit, Meta, SynthError, Variant};

verus! {

/// The path of an attribute.
pub open spec fn meta_path(m: Meta) -> Seq<char> {
    match m {
        Meta::Path(p) => p@,
        Meta::List { path, .. } => path@,
        Meta::NameValue { path, .. } => path@,
    }
}

pub open spec fn is_factor(m: Meta) -> bool {
    meta_path(m) == "factor"@
}

pub open spec fn is_weight(m: Meta) -> bool {
    meta_path(m) == "weight"@
}

/// The name that a type-name string parses to, if it is one identifier.
pub uninterp spec fn parsed_ident(s: Seq<char>) -> Option<Seq<char>>;

/// The first error that `f` finds along `s`.
pub open spec fn first_error<A>(s: Seq<A>, f: spec_fn(A) -> Option<SynthError>) -> Option<SynthError>
    decreases s.len(),
{
    if s.len() == 0 {
        None
    } else {
        match f(s[0]) {
            Some(e) => Some(e),
            None => first_error(s.drop_first(), f),
        }
    }
}

pub proof fn lemma_first_error_step<A>(s: Seq<A>, i: int, f: spec_fn(A) -> Option<SynthError>)
    requires
        0 <= i < s.len(),
    ensures
        first_error(s.subrange(i, s.len() as int), f) == (match f(s[i]) {
            Some(e) => Some(e),
            None => first_error(s.subrange(i + 1, s.len() as int), f),
        }),
{
    assert(s.subrange(i, s.len() as int).drop_first() =~= s.subrange(i + 1, s.len() as int));
}

/// The hand-written factor named by the first `factor = ...` of a list.
pub open spec fn custom_factor(attrs: Seq<Meta>) -> Result<Option<Seq<char>>, SynthError>
    decreases attrs.len(),
{
    if attrs.len() == 0 {
        Ok(None)
    } else {
        match attrs[0] {
            Meta::NameValue { path, value } => {
                if path@ == "factor"@ {
                    match value {
                        Expr::Lit(Lit::Str(s)) => match parsed_ident(s@) {
                            Some(n) => Ok(Some(n)),
                            None => Err(SynthError::InvalidFactorName),
                        },
                        _ => Err(SynthError::CustomFactorNotString),
                    }
                } else {
                    custom_factor(attrs.drop_first())
                }
            },
            _ => custom_factor(attrs.drop_first()),
        }
    }
}

/// How many `factor` attributes a list holds.
pub open spec fn factor_count(attrs: Seq<Meta>) -> nat
    decreases attrs.len(),
{
    if attrs.len() == 0 {
        0
    } else {
        (if is_factor(attrs[0]) { 1nat } else { 0nat }) + factor_count(attrs.drop_first())
    }
}

/// The hand-written factor of a field or type; no other `factor`
/// attribute may stand beside it.
pub open spec fn own_factor(attrs: Seq<Meta>) -> Result<Option<Seq<char>>, SynthError> {
    match custom_factor(attrs) {
        Ok(Some(n)) => if factor_count(attrs) > 1 {
            Err(SynthError::DirectiveWithCustomFactor)
        } else {
            Ok(Some(n))
        },
        r => r,
    }
}

/// The hand-written factor named on a type.
pub open spec fn type_factor(attrs: Seq<Meta>) -> Result<Option<Seq<char>>, SynthError> {
    if exists|i: int| 0 <= i < attrs.len() && is_weight(#[trigger] attrs[i]) {
        Err(SynthError::WeightOnType)
    } else if exists|i: int|
        0 <= i < attrs.len() && is_factor(#[trigger] attrs[i]) && !(attrs[i] is NameValue) {
        Err(SynthError::ExpectedNameValue)
    } else {
        own_factor(attrs)
    }
}

pub open spec fn fields_seq(fields: Fields) -> Seq<Field> {
    match fields {
        Fields::Named(v) => v@,
        Fields::Unnamed(v) => v@,
        Fields::Unit => Seq::empty(),
    }
}

/// What is wrong with one attribute of a field.
pub open spec fn field_attr_error(m: Meta, type_has_factor: bool) -> Option<SynthError> {
    if type_has_factor {
        Some(SynthError::DirectiveWithCustomFactor)
    } else if !is_factor(m) {
        Some(SynthError::OnlyFactorOnFields)
    } else if m is Path {
        Some(SynthError::ExpectedFactorValueOrList)
    } else {
        None
    }
}

pub open spec fn field_attr_check(type_has_factor: bool) -> spec_fn(Meta) -> Option<SynthError> {
    |m: Meta| field_attr_error(m, type_has_factor)
}

pub open spec fn field_error(f: Field, type_has_factor: bool) -> Option<SynthError> {
    first_error(f.attrs@, field_attr_check(type_has_factor))
}

pub open spec fn field_check(type_has_factor: bool) -> spec_fn(Field) -> Option<SynthError> {
    |f: Field| field_error(f, type_has_factor)
}

pub open spec fn fields_error(fs: Seq<Field>, type_has_factor: bool) -> Option<SynthError> {
    first_error(fs, field_check(type_has_factor))
}

/// What is wrong with one attribute of a variant: only `name = value` is allowed.
pub open spec fn variant_attr_error(m: Meta) -> Option<SynthError> {
    if m is NameValue {
        None
    } else {
        Some(SynthError::ExpectedNameValue)
    }
}

pub open spec fn variant_attr_check() -> spec_fn(Meta) -> Option<SynthError> {
    |m: Meta| variant_attr_error(m)
}

pub open spec fn variant_error(v: Variant, type_has_factor: bool) -> Option<SynthError> {
    match first_error(v.attrs@, variant_attr_check()) {
        Some(e) => Some(e),
        None => fields_error(fields_seq(v.fields), type_has_factor),
    }
}

pub open spec fn variant_check(type_has_factor: bool) -> spec_fn(Variant) -> Option<SynthError> {
    |v: Variant| variant_error(v, type_has_factor)
}

pub open spec fn data_error(data: Data, type_has_factor: bool) -> Option<SynthError> {
    match data {
        Data::Struct(fs) => fields_error(fields_seq(fs), type_has_factor),
        Data::Enum(vs) => first_error(vs@, variant_check(type_has_factor)),
        Data::Union => None,
    }
}

/// The attribute rules of a whole declaration, and the hand-written factor
/// that its type names, if any.
pub open spec fn checked_attrs(attrs: Seq<Meta>, data: Data) -> Result<
    Option<Seq<char>>,
    SynthError,
> {
    match type_factor(attrs) {
        Err(e) => Err(e),
        Ok(c) => match data_error(data, c is Some) {
            Some(e) => Err(e),
            None => Ok(c),
        },
    }
}

pub open spec fn result_name_view(r: Result<Option<String>, SynthError>) -> Result<
    Option<Seq<char>>,
    SynthError,
> {
    match r {
        Ok(o) => Ok(opt_view(o)),
        Err(e) => Err(e),
    }
}

/// Relies on `syn::parse_str::<syn::Ident>`: whether a string holds one
/// identifier, and which.
#[verifier::external_body]
fn parse_ident(s: &String) -> (r: Option<String>)
    ensures
        opt_view(r) == parsed_ident(s@),
{
    syn::parse_str::<syn::Ident>(s).ok().map(|i| i.to_string())
}

/// Whether a path or name reads exactly `name`.
pub fn text_is(s: &String, name: &str) -> (r: bool)
    ensures
        r == (s@ == name@),
{
    let t = String::from_str(name);
    s.eq(&t)
}

/// The path of an attribute.
pub fn path_of(m: &Meta) -> (r: &String)
    ensures
        r@ == meta_path(*m),
{
    match m {
        Meta::Path(p) => p,
        Meta::List { path, .. } => path,
        Meta::NameValue { path, .. } => path,
    }
}

/// The hand-written factor named by the first `factor = "..."` of a list.
pub fn find_custom_factor(attrs: &Vec<Meta>) -> (r: Result<Option<String>, SynthError>)
    ensures
        result_name_view(r) == custom_factor(attrs@),
{
    let n = attrs.len();
    let mut i: usize = 0;
    proof {
        assert(attrs@.subrange(0, n as int) =~= attrs@);
    }
    while i < n
        invariant
            n == attrs@.len(),
            i <= n,
            custom_factor(attrs@.subrange(i as int, n as int)) == custom_factor(attrs@),
        decreases n - i,
    {
        let m = &attrs[i];
        proof {
            assert(attrs@.subrange(i as int, n as int).drop_first() =~= attrs@.subrange(
                i + 1,
                n as int,
            ));
            assert(attrs@.subrange(i as int, n as int)[0] == attrs@[i as int]);
        }
        if let Meta::NameValue { path, value } = m {
            if text_is(path, "factor") {
                return match value {
                    Expr::Lit(Lit::Str(s)) => match parse_ident(s) {
                        Some(name) => Ok(Some(name)),
                        None => Err(SynthError::InvalidFactorName),
                    },
                    _ => Err(SynthError::CustomFactorNotString),
                };
            }
        }
        i = i + 1;
    }
    proof {
        assert(attrs@.subrange(n as int, n as int).len() == 0);
    }
    Ok(None)
}

/// Counts the `factor` attributes of a list, stopping at two.
fn factor_count_exceeds_one(attrs: &Vec<Meta>) -> (r: bool)
    ensures
        r == (factor_count(attrs@) > 1),
{
    let n = attrs.len();
    let mut i: usize = n;
    let mut count: usize = 0;
    while i > 0
        invariant
            n == attrs@.len(),
            i <= n,
            count == factor_count(attrs@.subrange(i as int, n as int)),
            count <= n - i,
        decreases i,
    {
        i = i - 1;
        proof {
            assert(attrs@.subrange(i as int, n as int).drop_first() =~= attrs@.subrange(
                i + 1,
                n as int,
            ));
        }
        if text_is(path_of(&attrs[i]), "factor") {
            count = count + 1;
        }
    }
    proof {
        assert(attrs@.subrange(0, n as int) =~= attrs@);
    }
    count > 1
}

/// The hand-written factor of a field, with nothing else beside it.
pub fn find_own_factor(attrs: &Vec<Meta>) -> (r: Result<Option<String>, SynthError>)
    ensures
        result_name_view(r) == own_factor(attrs@),
{
    match find_custom_factor(attrs) {
        Ok(Some(n)) => if factor_count_exceeds_one(attrs) {
            Err(SynthError::DirectiveWithCustomFactor)
        } else {
            Ok(Some(n))
        },
        r => r,
    }
}

fn find_type_factor(attrs: &Vec<Meta>) -> (r: Result<Option<String>, SynthError>)
    ensures
        result_name_view(r) == type_factor(attrs@),
{
    let n = attrs.len();
    let mut i: usize = 0;
    while i < n
        invariant
            n == attrs@.len(),
            i <= n,
            forall|j: int| 0 <= j < i ==> !is_weight(#[trigger] attrs@[j]),
        decreases n - i,
    {
        if text_is(path_of(&attrs[i]), "weight") {
            return Err(SynthError::WeightOnType);
        }
        i = i + 1;
    }
    let mut i: usize = 0;
    while i < n
        invariant
            n == attrs@.len(),
            i <= n,
            forall|j: int| 0 <= j < n ==> !is_weight(#[trigger] attrs@[j]),
            forall|j: int|
                0 <= j < i ==> !(is_factor(#[trigger] attrs@[j]) && !(attrs@[j] is NameValue)),
        decreases n - i,
    {
        let m = &attrs[i];
        if text_is(path_of(m), "factor") {
            if let Meta::NameValue { .. } = m {
            } else {
                assert(is_factor(attrs@[i as int]));
                return Err(SynthError::ExpectedNameValue);
            }
        }
        i = i + 1;
    }
    find_own_factor(attrs)
}

fn check_field_attrs(attrs: &Vec<Meta>, type_has_factor: bool) -> (r: Option<SynthError>)
    ensures
        r == first_error(attrs@, field_attr_check(type_has_factor)),
{
    let ghost f = field_attr_check(type_has_factor);
    let n = attrs.len();
    let mut i: usize = 0;
    proof {
        assert(attrs@.subrange(0, n as int) =~= attrs@);
    }
    while i < n
        invariant
            f == field_attr_check(type_has_factor),
            n == attrs@.len(),
            i <= n,
            first_error(attrs@.subrange(i as int, n as int), f) == first_error(attrs@, f),
        decreases n - i,
    {
        proof {
            lemma_first_error_step(attrs@, i as int, f);
        }
        let m = &attrs[i];
        if type_has_factor {
            return Some(SynthError::DirectiveWithCustomFactor);
        } else if !text_is(path_of(m), "factor") {
            return Some(SynthError::OnlyFactorOnFields);
        } else if let Meta::Path(_) = m {
            return Some(SynthError::ExpectedFactorValueOrList);
        }
        i = i + 1;
    }
    None
}

fn check_fields(fields: &Vec<Field>, type_has_factor: bool) -> (r: Option<SynthError>)
    ensures
        r == fields_error(fields@, type_has_factor),
{
    let ghost f = field_check(type_has_factor);
    let n = fields.len();
    let mut i: usize = 0;
    proof {
        assert(fields@.subrange(0, n as int) =~= fields@);
    }
    while i < n
        invariant
            f == field_check(type_has_factor),
            n == fields@.len(),
            i <= n,
            first_error(fields@.subrange(i as int, n as int), f) == first_error(fields@, f),
        decreases n - i,
    {
        proof {
            lemma_first_error_step(fields@, i as int, f);
        }
        let e = check_field_attrs(&fields[i].attrs, type_has_factor);
        if e.is_some() {
            return e;
        }
        i = i + 1;
    }
    None
}

fn check_fields_of(fields: &Fields, type_has_factor: bool) -> (r: Option<SynthError>)
    ensures
        r == fields_error(fields_seq(*fields), type_has_factor),
{
    match fields {
        Fields::Named(v) => check_fields(v, type_has_factor),
        Fields::Unnamed(v) => check_fields(v, type_has_factor),
        Fields::Unit => None,
    }
}

fn check_variant(v: &Variant, type_has_factor: bool) -> (r: Option<SynthError>)
    ensures
        r == variant_error(*v, type_has_factor),
{
    let ghost f = variant_attr_check();
    let n = v.attrs.len();
    let mut i: usize = 0;
    proof {
        assert(v.attrs@.subrange(0, n as int) =~= v.attrs@);
    }
    while i < n
        invariant
            f == variant_attr_check(),
            n == v.attrs@.len(),
            i <= n,
            first_error(v.attrs@.subrange(i as int, n as int), f) == first_error(v.attrs@, f),
        decreases n - i,
    {
        proof {
            lemma_first_error_step(v.attrs@, i as int, f);
        }
        if let Meta::NameValue { .. } = &v.attrs[i] {
        } else {
            return Some(SynthError::ExpectedNameValue);
        }
        i = i + 1;
    }
    check_fields_of(&v.fields, type_has_factor)
}

fn check_variants(vs: &Vec<Variant>, type_has_factor: bool) -> (r: Option<SynthError>)
    ensures
        r == first_error(vs@, variant_check(type_has_factor)),
{
    let ghost f = variant_check(type_has_factor);
    let n = vs.len();
    let mut i: usize = 0;
    proof {
        assert(vs@.subrange(0, n as int) =~= vs@);
    }
    while i < n
        invariant
            f == variant_check(type_has_factor),
            n == vs@.len(),
            i <= n,
            first_error(vs@.subrange(i as int, n as int), f) == first_error(vs@, f),
        decreases n - i,
    {
        proof {
            lemma_first_error_step(vs@, i as int, f);
        }
        let e = check_variant(&vs[i], type_has_factor);
        if e.is_some() {
            return e;
        }
        i = i + 1;
    }
    None
}

/// Checks the attributes of a declaration and returns the hand-written
/// factor that the type names, if any.
pub fn validate_attrs(attrs: &Vec<Meta>, data: &Data) -> (r: Result<Option<String>, SynthError>)
    ensures
        result_name_view(r) == checked_attrs(attrs@, *data),
{
    let c = find_type_factor(attrs)?;
    let has_factor = c.is_some();
    let e = match data {
        Data::Struct(fs) => check_fields_of(fs, has_factor),
        Data::Enum(vs) => check_variants(vs, has_factor),
        Data::Union => None,
    };
    match e {
        Some(e) => Err(e),
        None => Ok(c),
    }
}

} // verus!
