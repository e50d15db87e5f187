use vstd::prelude::*;

use crate::error::FieldError;
use crate::size::{embedding_size, is_pow2, is_start_size, pow2, start_size_fits};

verus! {

/// What the smallest eigenvalue of a circulant vector's spectrum says about
/// the embedding.
#[derive(Debug, Clone, Copy, PartialEq, Eq, Structural)]
pub enum SpectrumSign {
    /// Every eigenvalue is non-negative.
    NonNegative,
    /// The smallest eigenvalue is negative, but within numerical noise.
    NegligiblyNegative,
    /// The smallest eigenvalue is materially negative.
    Negative,
}

/// The outcome of reviewing one embedding attempt.
#[derive(Debug, Clone, Copy, PartialEq, Eq, Structural)]
pub enum Verdict {
    /// The spectrum is usable; when `truncate` holds, negative eigenvalues are
    /// set to zero before their square roots are taken.
    Accept { truncate: bool },
    /// The embedding size has been doubled: build and check again.
    Grow,
}

/// The state of the search for a valid circulant embedding of a field of
/// `points` values: the current embedding size, and the largest size allowed.
#[derive(Debug, Clone, Copy)]
pub struct Embedding {
    points: usize,
    size: usize,
    max_size: usize,
}

impl Embedding {
    /// The number of field values requested.
    pub closed spec fn spec_points(&self) -> nat {
        self.points as nat
    }

    /// The current embedding size `m`.
    pub closed spec fn spec_size(&self) -> nat {
        self.size as nat
    }

    /// The largest embedding size the search may reach.
    pub closed spec fn spec_max_size(&self) -> nat {
        self.max_size as nat
    }

    /// The size is a power of two, large enough to embed the requested points,
    /// and within the limit.
    pub open spec fn wf(&self) -> bool {
        &&& self.spec_points() >= 2
        &&& is_pow2(self.spec_size())
        &&& self.spec_size() >= 2 * (self.spec_points() - 1)
        &&& self.spec_size() <= self.spec_max_size()
    }

    /// Starts the search for `n` points at the smallest admissible size.
    pub fn new(n: usize, max_size: usize) -> (r: Result<Embedding, FieldError>)
        ensures
            r == Err::<Embedding, FieldError>(FieldError::InvalidInput) <==> n < 2,
            r == Err::<Embedding, FieldError>(FieldError::EmbeddingDivergence) <==> (n >= 2
                && !start_size_fits(n as nat, max_size as nat)),
            r is Ok <==> (n >= 2 && start_size_fits(n as nat, max_size as nat)),
            r matches Ok(e) ==> {
                &&& e.wf()
                &&& e.spec_points() == n
                &&& e.spec_max_size() == max_size
                &&& is_start_size(n as nat, e.spec_size())
            },
    {
        match embedding_size(n, max_size) {
            Ok(m) => Ok(Embedding { points: n, size: m, max_size }),
            Err(e) => Err(e),
        }
    }

    /// The number of field values requested.
    pub fn points(&self) -> (r: usize)
        ensures
            r == self.spec_points(),
    {
        self.points
    }

    /// The current embedding size.
    pub fn size(&self) -> (r: usize)
        ensures
            r == self.spec_size(),
    {
        self.size
    }

    /// The requested points never outnumber the embedding size.
    pub proof fn lemma_points_within_size(&self)
        requires
            self.wf(),
        ensures
            self.spec_points() <= self.spec_size(),
    {
    }

    /// Decides on the current attempt from the sign of its smallest
    /// eigenvalue: accept it (truncating negligible negative values), or double
    /// the embedding size, failing once doubling would pass the limit.
    pub fn review(&mut self, sign: SpectrumSign) -> (r: Result<Verdict, FieldError>)
        requires
            old(self).wf(),
        ensures
            final(self).wf(),
            final(self).spec_points() == old(self).spec_points(),
            final(self).spec_max_size() == old(self).spec_max_size(),
            sign == SpectrumSign::NonNegative ==> {
                &&& r == Ok::<Verdict, FieldError>(Verdict::Accept { truncate: false })
                &&& final(self).spec_size() == old(self).spec_size()
            },
            sign == SpectrumSign::NegligiblyNegative ==> {
                &&& r == Ok::<Verdict, FieldError>(Verdict::Accept { truncate: true })
                &&& final(self).spec_size() == old(self).spec_size()
            },
            sign == SpectrumSign::Negative && 2 * old(self).spec_size() <= old(self).spec_max_size()
                ==> {
                &&& r == Ok::<Verdict, FieldError>(Verdict::Grow)
                &&& final(self).spec_size() == 2 * old(self).spec_size()
            },
            sign == SpectrumSign::Negative && 2 * old(self).spec_size() > old(self).spec_max_size()
                ==> {
                &&& r == Err::<Verdict, FieldError>(FieldError::EmbeddingDivergence)
                &&& final(self).spec_size() == old(self).spec_size()
            },
    {
        match sign {
            SpectrumSign::NonNegative => Ok(Verdict::Accept { truncate: false }),
            SpectrumSign::NegligiblyNegative => Ok(Verdict::Accept { truncate: true }),
            SpectrumSign::Negative => {
                if self.size > self.max_size / 2 {
                    Err(FieldError::EmbeddingDivergence)
                } else {
                    proof {
                        let k = choose|k: nat| self.size as nat == #[trigger] pow2(k);
                        assert(pow2(k + 1) == 2 * self.size);
                    }
                    self.size = self.size * 2;
                    Ok(Verdict::Grow)
                }
            },
        }
    }

    /// The field: the first `points` values of a synthesized sequence of the
    /// embedding's size.
    pub fn extract<T: Copy>(&self, y: &Vec<T>) -> (r: Vec<T>)
        requires
            self.wf(),
            y.len() == self.spec_size(),
        ensures
            r@ == y@.subrange(0, self.spec_points() as int),
    {
        let mut r: Vec<T> = Vec::new();
        let mut i: usize = 0;
        while i < self.points
            invariant
                self.wf(),
                y.len() == self.spec_size(),
                i <= self.points,
                r@ == y@.subrange(0, i as int),
            decreases self.points - i,
        {
            r.push(y[i]);
            i = i + 1;
            proof {
                assert(r@ =~= y@.subrange(0, i as int));
            }
        }
        r
    }
}

} // verus!
