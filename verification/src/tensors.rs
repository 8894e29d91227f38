//! A fixed-shape array container.
//!
//! A [`Tensor`] pairs a shape with a flat data vector whose length is
//! exactly the product of the shape's extents; the pairing is checked at
//! construction and can never change afterwards.

use vstd::prelude::*;

verus! {

/// The number of elements a shape describes: the product of its extents
/// (one for the empty shape).
pub open spec fn shape_product(s: Seq<usize>) -> int
    decreases s.len(),
{
    if s.len() == 0 {
        1
    } else {
        shape_product(s.drop_last()) * (s.last() as int)
    }
}

/// A fixed-shape array: a flat data vector together with the extents of
/// each dimension.
#[derive(Debug)]
pub struct Tensor<T> {
    shape: Vec<usize>,
    data: Vec<T>,
}

impl<T: Copy + Clone> Tensor<T> {
    /// The extents of each dimension.
    pub closed spec fn spec_shape(&self) -> Seq<usize> {
        self.shape@
    }

    /// The elements, flattened in row-major order.
    pub closed spec fn spec_data(&self) -> Seq<T> {
        self.data@
    }

    /// Builds a tensor from a shape and matching flat data; the data's
    /// length must be the product of the shape's extents.
    pub fn new(shape: Vec<usize>, data: Vec<T>) -> (t: Tensor<T>)
        requires
            shape_product(shape@) == data@.len(),
        ensures
            t.spec_shape() == shape@,
            t.spec_data() == data@,
    {
        Tensor { shape, data }
    }

    /// Returns a copy of the shape.
    pub fn get_shape(&self) -> (s: Vec<usize>)
        ensures
            s@ == self.spec_shape(),
    {
        let n = self.shape.len();
        let mut s: Vec<usize> = Vec::new();
        let mut i: usize = 0;
        while i < n
            invariant
                i <= n,
                n == self.shape@.len(),
                s@ =~= self.shape@.take(i as int),
            decreases n - i,
        {
            s.push(self.shape[i]);
            proof {
                assert(s@ =~= self.shape@.take(i as int + 1));
            }
            i += 1;
        }
        proof {
            assert(self.shape@.take(n as int) =~= self.shape@);
        }
        s
    }

    /// Returns a copy of the flat data.
    pub fn get_data(&self) -> (d: Vec<T>)
        ensures
            d@ == self.spec_data(),
    {
        let n = self.data.len();
        let mut d: Vec<T> = Vec::new();
        let mut i: usize = 0;
        while i < n
            invariant
                i <= n,
                n == self.data@.len(),
                d@ =~= self.data@.take(i as int),
            decreases n - i,
        {
            d.push(self.data[i]);
            proof {
                assert(d@ =~= self.data@.take(i as int + 1));
            }
            i += 1;
        }
        proof {
            assert(self.data@.take(n as int) =~= self.data@);
        }
        d
    }
}

} // verus!
