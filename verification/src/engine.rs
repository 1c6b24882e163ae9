use vstd::prelude::*;

use crate::error::VectorError;
use crate::topk;

verus! {

/// A similarity engine fixed to one vector dimensionality. Every operation
/// on vectors of another length is rejected with
/// [`VectorError::DimensionMismatch`].
pub struct VectorSearch {
    /// The dimensionality every operand must have. Positive.
    pub dimensions: usize,
}

impl VectorSearch {
    /// Builds an engine for vectors of exactly `dimensions` components.
    pub fn new(dimensions: usize) -> (engine: Self)
        requires
            dimensions >= 1,
        ensures
            engine.dimensions == dimensions,
    {
        VectorSearch { dimensions }
    }

    /// Accepts a pair of operand lengths exactly when both equal the
    /// declared dimensionality.
    pub fn check_pair(&self, len1: usize, len2: usize) -> (r: Result<(), VectorError>)
        ensures
            r is Ok <==> (len1 == self.dimensions && len2 == self.dimensions),
            r is Err ==> r == Err::<(), VectorError>(VectorError::DimensionMismatch),
    {
        if len1 == self.dimensions && len2 == self.dimensions {
            Ok(())
        } else {
            Err(VectorError::DimensionMismatch)
        }
    }

    /// Accepts a single operand length exactly when it equals the declared
    /// dimensionality.
    pub fn check_vector(&self, len: usize) -> (r: Result<(), VectorError>)
        ensures
            r is Ok <==> len == self.dimensions,
            r is Err ==> r == Err::<(), VectorError>(VectorError::DimensionMismatch),
    {
        if len == self.dimensions {
            Ok(())
        } else {
            Err(VectorError::DimensionMismatch)
        }
    }

    /// Accepts a query length and a flattened-set length exactly when the
    /// query has the declared dimensionality and the set holds `count`
    /// rows of it.
    pub fn check_batch(&self, query_len: usize, set_len: usize, count: usize) -> (r: Result<
        (),
        VectorError,
    >)
        ensures
            r is Ok <==> (query_len == self.dimensions && set_len == count * self.dimensions),
            r is Err ==> r == Err::<(), VectorError>(VectorError::DimensionMismatch),
    {
        if query_len != self.dimensions {
            return Err(VectorError::DimensionMismatch);
        }
        match count.checked_mul(self.dimensions) {
            Some(total) => {
                if set_len == total {
                    Ok(())
                } else {
                    Err(VectorError::DimensionMismatch)
                }
            },
            None => {
                // count * dimensions exceeds usize::MAX, so no usize length
                // can match it.
                Err(VectorError::DimensionMismatch)
            },
        }
    }

    /// Component range of row `i` inside a flattened set of `count` rows:
    /// row `i` occupies components `[i * dimensions, (i + 1) * dimensions)`.
    pub fn row_range(&self, i: usize, count: usize) -> (r: (usize, usize))
        requires
            i < count,
            count * self.dimensions <= usize::MAX,
        ensures
            r.0 == i * self.dimensions,
            r.1 == i * self.dimensions + self.dimensions,
    {
        proof {
            assert((i + 1) * self.dimensions <= count * self.dimensions) by (nonlinear_arith)
                requires
                    i < count,
            ;
            assert((i + 1) * self.dimensions == i * self.dimensions + self.dimensions)
                by (nonlinear_arith);
        }
        let start = i * self.dimensions;
        let end = start + self.dimensions;
        (start, end)
    }

    /// Picks the `k` best of `count` scored candidates: indices in
    /// non-increasing score-key order, ties by ascending index, of length
    /// `min(k, count)`. Rejected, with no partial output, exactly when the
    /// query length or the flattened-set length disagrees with the
    /// declared dimensionality, or `count` disagrees with the number of
    /// scores handed in.
    pub fn find_top_k(
        &self,
        scores: &Vec<u64>,
        query_len: usize,
        set_len: usize,
        count: usize,
        k: usize,
    ) -> (r: Result<Vec<usize>, VectorError>)
        ensures
            r is Ok <==> (query_len == self.dimensions && set_len == count * self.dimensions
                && count == scores@.len()),
            match r {
                Ok(top) => {
                    &&& top@.len() == if k <= count {
                        k as int
                    } else {
                        count as int
                    }
                    &&& topk::sorted_by_rank(scores@, top@)
                    &&& forall|v: usize, i: int|
                        #![trigger top@.contains(v), top@[i]]
                        (v as int) < scores@.len() && !top@.contains(v) && 0 <= i < top@.len()
                            ==> topk::ranked_before(scores@, top@[i] as int, v as int)
                },
                Err(e) => e == VectorError::DimensionMismatch,
            },
    {
        match self.check_batch(query_len, set_len, count) {
            Ok(()) => {},
            Err(e) => {
                return Err(e);
            },
        }
        if count != scores.len() {
            return Err(VectorError::DimensionMismatch);
        }
        Ok(topk::top_k_indices(scores, k))
    }
}

} // verus!
