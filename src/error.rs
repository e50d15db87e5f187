use vstd::prelude::*;

verus! {

/// The ways in which a field sample can fail.
#[derive(Debug, Clone, Copy, PartialEq, Eq, Structural)]
pub enum FieldError {
    /// Fewer than two points were requested: the embedding size is undefined.
    InvalidInput,
    /// No valid embedding was reached within the permitted embedding size.
    EmbeddingDivergence,
    /// A non-finite value appeared in the numeric pipeline.
    NumericDegeneracy,
}

} // verus!
