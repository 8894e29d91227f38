//! Compute steps.
//!
//! The reference behavior is defined first as mathematics over the raw
//! parameter values: one training update multiplies every parameter by
//! the scalar input, and one inference computes the dot product of the
//! parameters with a constant-input vector. The executable functions
//! carry contracts that pin their results to exactly these definitions.

use vstd::prelude::*;

use crate::errors::ModelError;
use crate::fixed::{Fixed, SCALE, mul_fits, scaled_mul};
use crate::model::Model;

verus! {

/// The raw values of a sequence of fixed-point parameters.
pub open spec fn vals(s: Seq<Fixed>) -> Seq<int> {
    s.map_values(|f: Fixed| f@)
}

/// One reference training update: every parameter scaled by `x`.
pub open spec fn train_spec(p: Seq<int>, x: int) -> Seq<int> {
    p.map_values(|v: int| scaled_mul(v, x))
}

/// Whether a training update by `x` keeps every parameter representable.
pub open spec fn train_fits(p: Seq<int>, x: int) -> bool {
    forall|i: int| 0 <= i < p.len() ==> mul_fits(#[trigger] p[i], x)
}

/// The reference inference value: the sum over `i` of `p[i] * x`.
pub open spec fn dot(p: Seq<int>, x: int) -> int
    decreases p.len(),
{
    if p.len() == 0 {
        0
    } else {
        dot(p.drop_last(), x) + scaled_mul(p.last(), x)
    }
}

/// Whether the inference over `p` with input `x` is representable: every
/// addend and the final sum stay in range.
pub open spec fn dot_fits(p: Seq<int>, x: int) -> bool {
    train_fits(p, x) && -(i64::MAX as int) <= dot(p, x) <= i64::MAX as int
}

/// Applies one reference training update in place: every parameter is
/// scaled by `x`, or, when any update would leave the representable
/// range, the vector is left untouched and the overflow is reported.
pub fn train_values(params: &mut Vec<Fixed>, x: Fixed) -> (r: Result<(), ModelError>)
    ensures
        r is Ok <==> train_fits(vals(old(params)@), x@),
        final(params)@.len() == old(params)@.len(),
        r is Ok ==> vals(final(params)@) == train_spec(vals(old(params)@), x@),
        r is Err ==> final(params)@ == old(params)@ && r->Err_0 is ComputeError,
{
    let n = params.len();
    let mut out: Vec<Fixed> = Vec::new();
    let mut i: usize = 0;
    while i < n
        invariant
            i <= n,
            n == params@.len(),
            params@ == old(params)@,
            out@.len() == i,
            forall|j: int| 0 <= j < i ==> mul_fits(vals(params@)[j], x@),
            forall|j: int| 0 <= j < i ==> #[trigger] out@[j]@ == scaled_mul(vals(params@)[j], x@),
        decreases n - i,
    {
        match params[i].times(x) {
            Ok(t) => out.push(t),
            Err(e) => {
                proof {
                    assert(vals(params@)[i as int] == params@[i as int]@);
                    assert(!mul_fits(vals(params@)[i as int], x@));
                }
                return Err(e);
            },
        }
        i += 1;
    }
    *params = out;
    proof {
        assert(vals(params@) =~= train_spec(vals(old(params)@), x@));
    }
    Ok(())
}

/// Computes one reference inference: the dot product of the parameters
/// with the constant vector of `x`, or a report of the overflow when an
/// addend or the sum would leave the representable range. The parameters
/// are only read.
pub fn infer_value(params: &Vec<Fixed>, x: Fixed) -> (r: Result<Fixed, ModelError>)
    ensures
        r is Ok <==> dot_fits(vals(params@), x@),
        r is Ok ==> r->Ok_0@ == dot(vals(params@), x@),
        r is Err ==> r->Err_0 is ComputeError,
{
    let n = params.len();
    let mut acc: i128 = 0;
    let mut i: usize = 0;
    while i < n
        invariant
            i <= n,
            n == params@.len(),
            acc == dot(vals(params@).take(i as int), x@),
            -(i as int) * (i64::MAX as int) <= acc <= (i as int) * (i64::MAX as int),
            forall|j: int| 0 <= j < i ==> mul_fits(vals(params@)[j], x@),
        decreases n - i,
    {
        match params[i].times(x) {
            Ok(t) => {
                proof {
                    assert((i as int + 1) * (i64::MAX as int) <= i128::MAX as int
                        && -(i128::MAX as int) <= -(i as int + 1) * (i64::MAX as int))
                        by (nonlinear_arith)
                        requires
                            0 <= i as int + 1 <= 0x1_0000_0000_0000_0000,
                    ;
                    assert((i as int) * (i64::MAX as int) + (i64::MAX as int)
                        == (i as int + 1) * (i64::MAX as int)) by (nonlinear_arith);
                    assert(vals(params@).take(i as int + 1).drop_last()
                        =~= vals(params@).take(i as int));
                    assert(vals(params@).take(i as int + 1).last() == vals(params@)[i as int]);
                }
                acc = acc + (t.raw() as i128);
            },
            Err(e) => {
                proof {
                    assert(vals(params@)[i as int] == params@[i as int]@);
                    assert(!mul_fits(vals(params@)[i as int], x@));
                }
                return Err(e);
            },
        }
        i += 1;
    }
    proof {
        assert(vals(params@).take(n as int) =~= vals(params@));
    }
    if acc > (i64::MAX as i128) || acc < -(i64::MAX as i128) {
        Err(ModelError::ComputeError("fixed-point overflow in dot product".to_owned()))
    } else {
        Ok(Fixed::from_raw(acc as i64))
    }
}

/// Inference over an empty parameter sequence is zero, whatever the
/// input — and it is always representable, so the computation succeeds.
pub proof fn lemma_dot_empty(x: int)
    ensures
        dot(Seq::<int>::empty(), x) == 0,
        dot_fits(Seq::<int>::empty(), x),
{
}

/// A scaled product that leaves no remainder is the exact quotient:
/// `scaled_mul(v, a) * SCALE == v * a`.
proof fn lemma_scaled_mul_exact(v: int, a: int)
    requires
        (v * a) % (SCALE as int) == 0,
    ensures
        scaled_mul(v, a) * (SCALE as int) == v * a,
{
    let s = SCALE as int;
    let m = v * a;
    if m >= 0 {
        vstd::arithmetic::div_mod::lemma_fundamental_div_mod(m, s);
    } else {
        vstd::arithmetic::div_mod::lemma_fundamental_div_mod(m, s);
        let q = m / s;
        assert(-m == (-q) * s + 0) by (nonlinear_arith)
            requires
                m == s * q,
        ;
        vstd::arithmetic::div_mod::lemma_fundamental_div_mod_converse_div(-m, s, -q, 0);
        assert(scaled_mul(v, a) == q);
        assert(q * s == m) by (nonlinear_arith)
            requires
                m == s * q,
        ;
    }
}

/// Two exact scalings of one value commute: scaling by `a` then `b`
/// meets the same result as scaling by `b` then `a`.
proof fn lemma_scaled_mul_commutes(v: int, a: int, b: int)
    requires
        (v * a) % (SCALE as int) == 0,
        (v * b) % (SCALE as int) == 0,
    ensures
        scaled_mul(scaled_mul(v, a), b) == scaled_mul(scaled_mul(v, b), a),
{
    let s = SCALE as int;
    let ea = scaled_mul(v, a);
    let eb = scaled_mul(v, b);
    lemma_scaled_mul_exact(v, a);
    lemma_scaled_mul_exact(v, b);
    assert(ea * b == eb * a) by (nonlinear_arith)
        requires
            ea * s == v * a,
            eb * s == v * b,
            s == 1_000_000,
    ;
}

/// Two training updates whose scalings are exact (no truncated
/// remainder) commute: training with `a` then `b` yields the same
/// parameters as training with `b` then `a`.
pub proof fn lemma_train_commutes(p: Seq<int>, a: int, b: int)
    requires
        forall|i: int| 0 <= i < p.len() ==> (#[trigger] p[i] * a) % (SCALE as int) == 0,
        forall|i: int| 0 <= i < p.len() ==> (#[trigger] p[i] * b) % (SCALE as int) == 0,
    ensures
        train_spec(train_spec(p, a), b) == train_spec(train_spec(p, b), a),
{
    assert forall|i: int| 0 <= i < p.len() implies train_spec(train_spec(p, a), b)[i]
        == train_spec(train_spec(p, b), a)[i] by {
        lemma_scaled_mul_commutes(p[i], a, b);
    }
    assert(train_spec(train_spec(p, a), b) =~= train_spec(train_spec(p, b), a));
}

/// Two exact training updates multiply each parameter by both factors:
/// after training with `a` and then with `b`, each parameter holds
/// exactly `p[i] * a * b`, rescaled by one `SCALE` per factor.
pub proof fn lemma_train_twice_exact(p: Seq<int>, a: int, b: int)
    requires
        forall|i: int| 0 <= i < p.len() ==> (#[trigger] p[i] * a) % (SCALE as int) == 0,
        forall|i: int|
            0 <= i < p.len() ==> (#[trigger] scaled_mul(p[i], a) * b) % (SCALE as int) == 0,
    ensures
        forall|i: int|
            0 <= i < p.len() ==> #[trigger] train_spec(train_spec(p, a), b)[i] * (SCALE as int) * (
            SCALE as int) == p[i] * a * b,
{
    let s = SCALE as int;
    assert forall|i: int| 0 <= i < p.len() implies #[trigger] train_spec(train_spec(p, a), b)[i] * s
        * s == p[i] * a * b by {
        lemma_scaled_mul_exact(p[i], a);
        let e = scaled_mul(p[i], a);
        lemma_scaled_mul_exact(e, b);
        assert(scaled_mul(e, b) * s * s == p[i] * a * b) by (nonlinear_arith)
            requires
                scaled_mul(e, b) * s == e * b,
                e * s == p[i] * a,
        ;
        assert(train_spec(train_spec(p, a), b)[i] == scaled_mul(e, b));
    }
}


/// The behavior of a compute step: a training operation that may write
/// the store, and an inference operation that only reads it.
pub trait Algorithm: Sized {
    /// Performs one training step on `model` with scalar input `x`.
    fn training_step(&self, model: &Model, x: Fixed) -> Result<(), ModelError>;

    /// Performs one inference step on `model` with scalar input `x`;
    /// it reads the parameters once and never mutates them.
    fn inference_step(&self, model: &Model, x: Fixed) -> Result<Fixed, ModelError>;
}

/// The reference compute step: training scales every parameter by the
/// input, inference computes the dot product of the parameters with the
/// constant input vector.
#[derive(Debug)]
pub struct DummyAlgorithm;

impl Algorithm for DummyAlgorithm {
    /// One reference training update, applied to the whole vector under
    /// the store's exclusive write access: the update either scales
    /// every parameter of one consistent pre-state or reports why it
    /// could not.
    fn training_step(&self, model: &Model, x: Fixed) -> (r: Result<(), ModelError>)
        ensures
            exists|p: Seq<int>|
                p.len() == model.num_params() && (r is Ok <==> train_fits(p, x@)),
            r is Err ==> r->Err_0 is ComputeError,
    {
        let mutator = |v: Vec<Fixed>| -> (out: (Vec<Fixed>, Result<(), ModelError>))
            ensures
                out.0@.len() == v@.len(),
                out.1 is Ok <==> train_fits(vals(v@), x@),
                out.1 is Err ==> out.1->Err_0 is ComputeError,
            {
                let mut nv = v;
                let res = train_values(&mut nv, x);
                (nv, res)
            };
        let r = model.write(mutator);
        proof {
            let (v, nv) = choose|v: Vec<Fixed>, nv: Vec<Fixed>|
                v@.len() == model.num_params() && #[trigger] call_ensures(mutator, (v,), (nv, r));
            assert(vals(v@).len() == model.num_params());
            assert(r is Ok <==> train_fits(vals(v@), x@));
        }
        r
    }

    /// One reference inference, over a single consistent snapshot of the
    /// whole parameter vector.
    fn inference_step(&self, model: &Model, x: Fixed) -> (r: Result<Fixed, ModelError>)
        ensures
            exists|p: Seq<int>|
                p.len() == model.num_params() && (r is Ok <==> dot_fits(p, x@)) && (r is Ok
                    ==> r->Ok_0@ == dot(p, x@)),
            r is Err ==> r->Err_0 is ComputeError,
    {
        let snapshot = model.read();
        let r = infer_value(&snapshot, x);
        proof {
            assert(vals(snapshot@).len() == model.num_params());
        }
        r
    }
}

} // verus!
