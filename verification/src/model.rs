//! The shared parameter store.
//!
//! A [`Model`] owns the parameter vector behind a verified reader-writer
//! lock: writers are mutually exclusive, readers never block each other,
//! and a reader always observes the whole vector either before or after
//! a write, never an element-wise mixture. The lock's invariant fixes
//! the vector's length at construction, so no step can resize it.

use vstd::prelude::*;
use vstd::rwlock::{RwLock, RwLockPredicate};

use crate::errors::ModelError;
use crate::fixed::Fixed;

verus! {

/// The lock invariant of a model: the stored vector always has the
/// length chosen at construction.
pub struct FixedLen {
    pub len: usize,
}

impl RwLockPredicate<Vec<Fixed>> for FixedLen {
    open spec fn inv(self, v: Vec<Fixed>) -> bool {
        v@.len() == self.len
    }
}

/// A shared model: an ordered vector of fixed-point parameters, read
/// concurrently by inference steps and mutated under exclusion by
/// training steps.
pub struct Model {
    lock: RwLock<Vec<Fixed>, FixedLen>,
}

impl Model {
    /// The parameter count, fixed when the model is constructed.
    pub closed spec fn num_params(&self) -> int {
        self.lock.pred().len as int
    }

    /// Creates a new, empty model.
    pub fn new() -> (m: Model)
        ensures
            m.num_params() == 0,
    {
        Model { lock: RwLock::new(Vec::new(), Ghost(FixedLen { len: 0 })) }
    }

    /// Creates a model holding the given initial parameters.
    pub fn with_parameters(params: Vec<Fixed>) -> (m: Model)
        ensures
            m.num_params() == params@.len(),
    {
        let n = params.len();
        Model { lock: RwLock::new(params, Ghost(FixedLen { len: n })) }
    }

    /// Returns a consistent snapshot of the whole parameter vector: the
    /// copy is taken while holding a read lock, so it can never mix a
    /// pre-write prefix with a post-write suffix.
    pub fn read(&self) -> (snapshot: Vec<Fixed>)
        ensures
            snapshot@.len() == self.num_params(),
    {
        let handle = self.lock.acquire_read();
        let mut snapshot: Vec<Fixed> = Vec::new();
        let current = handle.borrow();
        let n = current.len();
        let mut i: usize = 0;
        while i < n
            invariant
                i <= n,
                n == current@.len(),
                snapshot@ =~= current@.take(i as int),
            decreases n - i,
        {
            snapshot.push(current[i]);
            proof {
                assert(snapshot@ =~= current@.take(i as int + 1));
            }
            i += 1;
        }
        proof {
            assert(current@.take(n as int) =~= current@);
        }
        handle.release_read();
        snapshot
    }

    /// Applies `mutator` to the parameter vector under exclusive access:
    /// the mutator receives the whole current vector and hands back the
    /// new vector together with its own result. The caller must show
    /// that the mutator accepts any vector of this model's length and
    /// never changes the length. The result is whatever the mutator
    /// reported for the one vector it was given.
    pub fn write<F: FnOnce(Vec<Fixed>) -> (Vec<Fixed>, Result<(), ModelError>)>(
        &self,
        mutator: F,
    ) -> (r: Result<(), ModelError>)
        requires
            forall|v: Vec<Fixed>|
                v@.len() == self.num_params() ==> #[trigger] call_requires(mutator, (v,)),
            forall|v: Vec<Fixed>, out: (Vec<Fixed>, Result<(), ModelError>)|
                #[trigger] call_ensures(mutator, (v,), out) ==> out.0@.len() == v@.len(),
        ensures
            exists|v: Vec<Fixed>, nv: Vec<Fixed>|
                v@.len() == self.num_params() && #[trigger] call_ensures(mutator, (v,), (nv, r)),
    {
        let (v, handle) = self.lock.acquire_write();
        let ghost pre = v;
        let (nv, res) = mutator(v);
        handle.release_write(nv);
        proof {
            assert(call_ensures(mutator, (pre,), (nv, res)));
        }
        res
    }
}

} // verus!
