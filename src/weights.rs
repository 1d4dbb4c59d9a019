//! Variant weights: `#[weight = 2]` or `#[weight = 0.5]` on an enum variant.
use vstd::prelude::*;
use crate::attrs::{is_weight, path_of, text_is};
use crate::model::{Expr, Lit, Meta, SynthError, Weight, WeightModel};

verus! {

pub open spec fn is_digit(c: char) -> bool {
    '0' <= c && c <= '9'
}

/// A non-empty run of decimal digits.
pub open spec fn is_decimal(s: Seq<char>) -> bool {
    s.len() > 0 && forall|i: int| 0 <= i < s.len() ==> is_digit(#[trigger] s[i])
}

/// The number that a run of decimal digits denotes.
pub open spec fn decimal_value(s: Seq<char>) -> int
    decreases s.len(),
{
    if s.len() == 0 {
        0
    } else {
        decimal_value(s.drop_last()) * 10 + (s.last() as int - '0' as int)
    }
}

/// The text of a float literal has a non-zero digit before any exponent.
pub open spec fn float_text_nonzero(t: Seq<char>) -> bool {
    exists|i: int|
        0 <= i < t.len() && '1' <= #[trigger] t[i] && t[i] <= '9' && forall|j: int|
            0 <= j < i ==> t[j] != 'e' && t[j] != 'E'
}

pub open spec fn weight_nonzero(w: WeightModel) -> bool {
    match w {
        WeightModel::Int(n) => n != 0,
        WeightModel::Float(t) => float_text_nonzero(t),
    }
}

/// The weight that one `weight` attribute gives.
pub open spec fn weight_of(m: Meta) -> Result<WeightModel, SynthError> {
    match m {
        Meta::NameValue { value: Expr::Lit(Lit::Float(t)), .. } => Ok(WeightModel::Float(t@)),
        Meta::NameValue { value: Expr::Lit(Lit::Int(d)), .. } => if !is_decimal(d@) {
            Err(SynthError::WeightNotNumeric)
        } else if decimal_value(d@) <= i64::MAX {
            Ok(WeightModel::Int(decimal_value(d@) as nat))
        } else {
            Err(SynthError::WeightOutOfRange)
        },
        _ => Err(SynthError::WeightNotNumeric),
    }
}

/// The weight declared on a variant: its first `weight` attribute.
pub open spec fn variant_weight(attrs: Seq<Meta>) -> Result<Option<WeightModel>, SynthError>
    decreases attrs.len(),
{
    if attrs.len() == 0 {
        Ok(None)
    } else if is_weight(attrs[0]) {
        match weight_of(attrs[0]) {
            Ok(w) => Ok(Some(w)),
            Err(e) => Err(e),
        }
    } else {
        variant_weight(attrs.drop_first())
    }
}

/// The weight vector of an enum from the weights its variants declare:
/// uniform when none declares one, else zero where none is declared, and
/// refused when every weight is zero.
pub open spec fn final_weights(ws: Seq<Option<WeightModel>>) -> Result<
    Seq<WeightModel>,
    SynthError,
> {
    if forall|i: int| 0 <= i < ws.len() ==> #[trigger] ws[i] is None {
        Ok(Seq::new(ws.len(), |i: int| WeightModel::Int(1)))
    } else if exists|i: int|
        0 <= i < ws.len() && #[trigger] ws[i] is Some && weight_nonzero(ws[i]->Some_0) {
        Ok(
            Seq::new(
                ws.len(),
                |i: int|
                    match ws[i] {
                        Some(w) => w,
                        None => WeightModel::Int(0),
                    },
            ),
        )
    } else {
        Err(SynthError::ZeroWeights)
    }
}

proof fn lemma_decimal_grows(s: Seq<char>, j: int)
    requires
        forall|i: int| 0 <= i < s.len() ==> is_digit(#[trigger] s[i]),
        0 <= j <= s.len(),
    ensures
        0 <= decimal_value(s.take(j)) <= decimal_value(s),
    decreases s.len(),
{
    if s.len() == 0 {
        assert(s.take(j) =~= s);
    } else {
        let t = s.drop_last();
        assert forall|i: int| 0 <= i < t.len() implies is_digit(#[trigger] t[i]) by {
            assert(t[i] == s[i]);
        }
        lemma_decimal_grows(t, t.len() as int);
        assert(t.take(t.len() as int) =~= t);
        assert(is_digit(s[s.len() - 1]));
        let v = decimal_value(t);
        assert(v * 10 >= v) by (nonlinear_arith)
            requires
                v >= 0,
        ;
        if j < s.len() {
            assert(t.take(j) =~= s.take(j));
            lemma_decimal_grows(t, j);
        } else {
            assert(s.take(j) =~= s);
        }
    }
}

fn is_decimal_text(s: &str) -> (r: bool)
    ensures
        r == is_decimal(s@),
{
    let n = s.unicode_len();
    if n == 0 {
        return false;
    }
    let mut i: usize = 0;
    while i < n
        invariant
            n == s@.len(),
            i <= n,
            forall|j: int| 0 <= j < i ==> is_digit(#[trigger] s@[j]),
        decreases n - i,
    {
        let c = s.get_char(i);
        if !('0' <= c && c <= '9') {
            return false;
        }
        i = i + 1;
    }
    true
}

/// The value of an integer weight's digits, if they fit in `i64`.
fn parse_int_weight(d: &String) -> (r: Result<u64, SynthError>)
    ensures
        match r {
            Ok(n) => is_decimal(d@) && decimal_value(d@) <= i64::MAX && n == decimal_value(d@),
            Err(e) => (!is_decimal(d@) && e == SynthError::WeightNotNumeric) || (is_decimal(d@)
                && decimal_value(d@) > i64::MAX && e == SynthError::WeightOutOfRange),
        },
{
    let s = d.as_str();
    if !is_decimal_text(s) {
        return Err(SynthError::WeightNotNumeric);
    }
    let n = s.unicode_len();
    let mut i: usize = 0;
    let mut val: u64 = 0;
    proof {
        assert(s@.take(0) =~= Seq::<char>::empty());
    }
    while i < n
        invariant
            n == s@.len(),
            s@ == d@,
            is_decimal(d@),
            i <= n,
            val == decimal_value(s@.take(i as int)),
            val <= i64::MAX,
        decreases n - i,
    {
        let c = s.get_char(i);
        let digit = (c as u32 - '0' as u32) as u128;
        let next: u128 = val as u128 * 10 + digit;
        proof {
            assert(s@.take(i + 1).drop_last() =~= s@.take(i as int));
            assert(is_digit(s@[i as int]));
        }
        if next > 9223372036854775807u128 {
            proof {
                lemma_decimal_grows(s@, i + 1);
            }
            return Err(SynthError::WeightOutOfRange);
        }
        val = next as u64;
        i = i + 1;
    }
    proof {
        assert(s@.take(n as int) =~= s@);
    }
    Ok(val)
}

fn float_nonzero(t: &String) -> (r: bool)
    ensures
        r == float_text_nonzero(t@),
{
    let s = t.as_str();
    let n = s.unicode_len();
    let mut i: usize = 0;
    while i < n
        invariant
            n == t@.len(),
            s@ == t@,
            i <= n,
            forall|j: int| 0 <= j < i ==> t@[j] != 'e' && t@[j] != 'E' && !('1' <= t@[j] && t@[j] <= '9'),
        decreases n - i,
    {
        let c = s.get_char(i);
        if '1' <= c && c <= '9' {
            return true;
        }
        if c == 'e' || c == 'E' {
            proof {
                assert forall|k: int|
                    0 <= k < t@.len() && '1' <= #[trigger] t@[k] && t@[k] <= '9' implies !(forall|j: int|
                    0 <= j < k ==> t@[j] != 'e' && t@[j] != 'E') by {
                    assert(k > i);
                    assert(t@[i as int] == 'e' || t@[i as int] == 'E');
                }
            }
            return false;
        }
        i = i + 1;
    }
    false
}

pub fn weight_is_nonzero(w: &Weight) -> (r: bool)
    ensures
        r == weight_nonzero(w@),
{
    match w {
        Weight::Int(n) => *n != 0,
        Weight::Float(t) => float_nonzero(t),
    }
}

/// The weight declared on a variant, if any.
pub fn find_weight(attrs: &Vec<Meta>) -> (r: Result<Option<Weight>, SynthError>)
    ensures
        match r {
            Ok(Some(w)) => variant_weight(attrs@) == Ok::<Option<WeightModel>, SynthError>(
                Some(w@),
            ),
            Ok(None) => variant_weight(attrs@) == Ok::<Option<WeightModel>, SynthError>(None),
            Err(e) => variant_weight(attrs@) == Err::<Option<WeightModel>, SynthError>(e),
        },
{
    let n = attrs.len();
    let mut i: usize = 0;
    proof {
        assert(attrs@.subrange(0, n as int) =~= attrs@);
    }
    while i < n
        invariant
            n == attrs@.len(),
            i <= n,
            variant_weight(attrs@.subrange(i as int, n as int)) == variant_weight(attrs@),
        decreases n - i,
    {
        proof {
            assert(attrs@.subrange(i as int, n as int).drop_first() =~= attrs@.subrange(
                i + 1,
                n as int,
            ));
            assert(attrs@.subrange(i as int, n as int)[0] == attrs@[i as int]);
        }
        let m = &attrs[i];
        if text_is(path_of(m), "weight") {
            return match m {
                Meta::NameValue { value: Expr::Lit(Lit::Float(t)), .. } => Ok(
                    Some(Weight::Float(t.clone())),
                ),
                Meta::NameValue { value: Expr::Lit(Lit::Int(d)), .. } => match parse_int_weight(
                    d,
                ) {
                    Ok(v) => Ok(Some(Weight::Int(v))),
                    Err(e) => Err(e),
                },
                _ => Err(SynthError::WeightNotNumeric),
            };
        }
        i = i + 1;
    }
    proof {
        assert(attrs@.subrange(n as int, n as int).len() == 0);
    }
    Ok(None)
}

} // verus!
