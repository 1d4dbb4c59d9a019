//! The declarations that factors are synthesized from, and the factor
//! descriptions that synthesis produces.
use vstd::prelude::*;

verus! {

/// A literal as it stands in an attribute.
#[derive(Clone, Debug, PartialEq, Eq)]
pub enum Lit {
    /// A string literal, by its value.
    Str(String),
    /// An integer literal, by its base-10 digits (no sign, suffix or underscores).
    Int(String),
    /// A floating-point literal, by its base-10 text (no suffix or underscores).
    Float(String),
    /// Any other literal (byte, char, bool, ...), by its source text.
    Other(String),
}

/// The value on the right of `name = value`.
#[derive(Clone, Debug, PartialEq, Eq)]
pub enum Expr {
    Lit(Lit),
    /// Any expression that is not a literal, by its source text.
    Other(String),
}

/// One attribute, or one item of an attribute's argument list.
/// A path is kept as its source text (`factor`, `CharSurprise::Unicode`).
pub enum Meta {
    /// `#[path]`
    Path(String),
    /// `#[path(...)]`; `nested` is `None` when the arguments are not a
    /// comma-separated list of metas.
    List { path: String, nested: Option<Vec<Meta>> },
    /// `#[path = value]`
    NameValue { path: String, value: Expr },
}

/// A field of a struct or of an enum variant.
pub struct Field {
    /// The field's name; `None` for a positional field.
    pub ident: Option<String>,
    /// The field's type, by its source text.
    pub ty: String,
    pub attrs: Vec<Meta>,
}

pub enum Fields {
    Named(Vec<Field>),
    Unnamed(Vec<Field>),
    Unit,
}

pub struct Variant {
    pub ident: String,
    pub attrs: Vec<Meta>,
    pub fields: Fields,
}

pub enum Data {
    Struct(Fields),
    Enum(Vec<Variant>),
    Union,
}

/// The declaration of a type that a factor is synthesized for.
pub struct TypeDecl {
    pub ident: String,
    pub attrs: Vec<Meta>,
    pub data: Data,
}

/// Why synthesis was refused.
#[derive(Clone, Copy, Debug, PartialEq, Eq, Structural)]
pub enum SynthError {
    /// `weight` stands on the type itself.
    WeightOnType,
    /// `factor = ...` names no string literal.
    CustomFactorNotString,
    /// The string of `factor = "..."` is not a type name.
    InvalidFactorName,
    /// An attribute that must have the form `name = value` has another form.
    ExpectedNameValue,
    /// A directive stands beside a custom factor, where it has no effect.
    DirectiveWithCustomFactor,
    /// A field carries an attribute other than `factor`.
    OnlyFactorOnFields,
    /// A bare `#[factor]` on a field.
    ExpectedFactorValueOrList,
    /// An override directive is malformed.
    MalformedDirective,
    /// A weight is not a numeric literal.
    WeightNotNumeric,
    /// An integer weight does not fit in `i64`.
    WeightOutOfRange,
    /// Weights were given, and all of them are zero.
    ZeroWeights,
    /// Factors are not synthesized for unions.
    Union,
}

/// A member of a factor value: a field name or a positional index.
#[derive(Clone, Debug, PartialEq, Eq)]
pub enum Member {
    Named(String),
    Unnamed(usize),
}

pub enum MemberModel {
    Named(Seq<char>),
    Unnamed(nat),
}

impl View for Member {
    type V = MemberModel;

    open spec fn view(&self) -> MemberModel {
        match self {
            Member::Named(s) => MemberModel::Named(s@),
            Member::Unnamed(i) => MemberModel::Unnamed(*i as nat),
        }
    }
}

pub enum LitModel {
    Str(Seq<char>),
    Int(Seq<char>),
    Float(Seq<char>),
    Other(Seq<char>),
}

impl View for Lit {
    type V = LitModel;

    open spec fn view(&self) -> LitModel {
        match self {
            Lit::Str(s) => LitModel::Str(s@),
            Lit::Int(s) => LitModel::Int(s@),
            Lit::Float(s) => LitModel::Float(s@),
            Lit::Other(s) => LitModel::Other(s@),
        }
    }
}

pub enum ExprModel {
    Lit(LitModel),
    Other(Seq<char>),
}

impl View for Expr {
    type V = ExprModel;

    open spec fn view(&self) -> ExprModel {
        match self {
            Expr::Lit(l) => ExprModel::Lit(l@),
            Expr::Other(s) => ExprModel::Other(s@),
        }
    }
}

/// What an override assigns: an expression, or a path used as an expression.
#[derive(Clone, Debug, PartialEq, Eq)]
pub enum AssignValue {
    Expr(Expr),
    Path(String),
}

pub enum ValueModel {
    Expr(ExprModel),
    Path(Seq<char>),
}

impl View for AssignValue {
    type V = ValueModel;

    open spec fn view(&self) -> ValueModel {
        match self {
            AssignValue::Expr(e) => ValueModel::Expr(e@),
            AssignValue::Path(p) => ValueModel::Path(p@),
        }
    }
}

/// `default.<chain> = <value>`, applied to a freshly defaulted factor.
#[derive(Clone, Debug, PartialEq, Eq)]
pub struct Assign {
    pub chain: Vec<Member>,
    pub value: AssignValue,
}

pub struct AssignModel {
    pub chain: Seq<MemberModel>,
    pub value: ValueModel,
}

pub open spec fn members_view(s: Seq<Member>) -> Seq<MemberModel> {
    s.map_values(|m: Member| m@)
}

impl View for Assign {
    type V = AssignModel;

    open spec fn view(&self) -> AssignModel {
        AssignModel { chain: members_view(self.chain@), value: self.value@ }
    }
}

pub open spec fn assigns_view(s: Seq<Assign>) -> Seq<AssignModel> {
    s.map_values(|a: Assign| a@)
}

/// The factor type of one field.
#[derive(Clone, Debug, PartialEq, Eq)]
pub enum FactorTy {
    /// A hand-written factor, by its type name.
    Custom(String),
    /// The associated factor of the field's own type (`<ty as Surprise>::Factor`).
    Derived(String),
}

pub enum FactorTyModel {
    Custom(Seq<char>),
    Derived(Seq<char>),
}

impl View for FactorTy {
    type V = FactorTyModel;

    open spec fn view(&self) -> FactorTyModel {
        match self {
            FactorTy::Custom(s) => FactorTyModel::Custom(s@),
            FactorTy::Derived(s) => FactorTyModel::Derived(s@),
        }
    }
}

/// A source field together with the factor that samples it.
#[derive(Clone, Debug, PartialEq, Eq)]
pub struct FieldFactor {
    pub ident: Option<String>,
    pub ty: String,
    pub factor: FactorTy,
}

pub struct FieldFactorModel {
    pub ident: Option<Seq<char>>,
    pub ty: Seq<char>,
    pub factor: FactorTyModel,
}

pub open spec fn opt_view(o: Option<String>) -> Option<Seq<char>> {
    match o {
        Some(s) => Some(s@),
        None => None,
    }
}

impl View for FieldFactor {
    type V = FieldFactorModel;

    open spec fn view(&self) -> FieldFactorModel {
        FieldFactorModel { ident: opt_view(self.ident), ty: self.ty@, factor: self.factor@ }
    }
}

pub open spec fn field_factors_view(s: Seq<FieldFactor>) -> Seq<FieldFactorModel> {
    s.map_values(|f: FieldFactor| f@)
}

#[derive(Clone, Copy, Debug, PartialEq, Eq, Structural)]
pub enum FieldsKind {
    Named,
    Unnamed,
    Unit,
}

/// A variant weight: an integer literal, or a float literal by its text.
#[derive(Clone, Debug, PartialEq, Eq)]
pub enum Weight {
    Int(u64),
    Float(String),
}

pub enum WeightModel {
    Int(nat),
    Float(Seq<char>),
}

impl View for Weight {
    type V = WeightModel;

    open spec fn view(&self) -> WeightModel {
        match self {
            Weight::Int(n) => WeightModel::Int(*n as nat),
            Weight::Float(s) => WeightModel::Float(s@),
        }
    }
}

pub open spec fn weights_view(s: Seq<Weight>) -> Seq<WeightModel> {
    s.map_values(|w: Weight| w@)
}

/// The factor slot of a variant that has fields: a tuple of their factors.
#[derive(Clone, Debug, PartialEq, Eq)]
pub struct VariantFactor {
    pub ident: String,
    pub kind: FieldsKind,
    pub fields: Vec<FieldFactor>,
}

pub struct VariantFactorModel {
    pub ident: Seq<char>,
    pub kind: FieldsKind,
    pub fields: Seq<FieldFactorModel>,
}

impl View for VariantFactor {
    type V = VariantFactorModel;

    open spec fn view(&self) -> VariantFactorModel {
        VariantFactorModel {
            ident: self.ident@,
            kind: self.kind,
            fields: field_factors_view(self.fields@),
        }
    }
}

pub open spec fn variant_factors_view(s: Seq<VariantFactor>) -> Seq<VariantFactorModel> {
    s.map_values(|v: VariantFactor| v@)
}

/// The shape of a synthesized factor type.
#[derive(Clone, Debug, PartialEq, Eq)]
pub enum FactorShape {
    /// One slot per source field, in order.
    Struct { kind: FieldsKind, fields: Vec<FieldFactor> },
    /// The weight of each variant, in order, then one slot per variant with fields.
    Enum { weights: Vec<Weight>, variants: Vec<VariantFactor> },
}

pub enum ShapeModel {
    Struct { kind: FieldsKind, fields: Seq<FieldFactorModel> },
    Enum { weights: Seq<WeightModel>, variants: Seq<VariantFactorModel> },
}

impl View for FactorShape {
    type V = ShapeModel;

    open spec fn view(&self) -> ShapeModel {
        match self {
            FactorShape::Struct { kind, fields } => ShapeModel::Struct {
                kind: *kind,
                fields: field_factors_view(fields@),
            },
            FactorShape::Enum { weights, variants } => ShapeModel::Enum {
                weights: weights_view(weights@),
                variants: variant_factors_view(variants@),
            },
        }
    }
}

pub open spec fn strings_view(s: Seq<String>) -> Seq<Seq<char>> {
    s.map_values(|t: String| t@)
}

/// A synthesized factor: its shape, the overrides that its default applies
/// in order, and the source types whose factors must have a default.
#[derive(Clone, Debug, PartialEq, Eq)]
pub struct SurpriseFactorImpl {
    pub shape: FactorShape,
    pub default_assigns: Vec<Assign>,
    pub default_bounds: Vec<String>,
}

pub struct FactorImplModel {
    pub shape: ShapeModel,
    pub default_assigns: Seq<AssignModel>,
    pub default_bounds: Seq<Seq<char>>,
}

impl View for SurpriseFactorImpl {
    type V = FactorImplModel;

    open spec fn view(&self) -> FactorImplModel {
        FactorImplModel {
            shape: self.shape@,
            default_assigns: assigns_view(self.default_assigns@),
            default_bounds: strings_view(self.default_bounds@),
        }
    }
}

/// The outcome of synthesis for one type: the type, the name of its factor,
/// and the factor itself unless a hand-written one was named.
#[derive(Clone, Debug, PartialEq, Eq)]
pub struct SurpriseImpl {
    pub name: String,
    pub factor_name: String,
    pub factor: Option<SurpriseFactorImpl>,
}

pub struct SurpriseImplModel {
    pub name: Seq<char>,
    pub factor_name: Seq<char>,
    pub factor: Option<FactorImplModel>,
}

impl View for SurpriseImpl {
    type V = SurpriseImplModel;

    open spec fn view(&self) -> SurpriseImplModel {
        SurpriseImplModel {
            name: self.name@,
            factor_name: self.factor_name@,
            factor: match self.factor {
                Some(f) => Some(f@),
                None => None,
            },
        }
    }
}

} // verus!
