//! Synthesis of factors: configuration types that drive the random
//! generation of values of a declared type.
//!
//! A declaration (`TypeDecl`) is checked and turned into the description of
//! its factor (`SurpriseImpl`): one slot per field, a weight per enum
//! variant, and the override assignments that its default applies. The
//! factors of primitive and standard types sample values within their bounds.
use vstd::prelude::*;

pub mod attrs;
pub mod factor;
pub mod factors;
pub mod laws;
pub mod model;
pub mod overrides;
pub mod weights;

pub use factor::impl_surprise;
pub use factors::{CharSurprise, NumberSurprise, RangeSurprise, StringSurprise, UnitSurprise};
pub use model::{
    Assign, AssignValue, Data, Expr, FactorShape, FactorTy, Field, FieldFactor, Fields,
    FieldsKind, Lit, Member, Meta, SurpriseFactorImpl, SurpriseImpl, SynthError, TypeDecl,
    Variant, VariantFactor, Weight,
};

verus! {

} // verus!
