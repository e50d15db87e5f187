//! Sampling of stationary one-dimensional Gaussian random fields by circulant
//! embedding: the integer and index logic of the method, verified.
//!
//! The numeric pipeline (kernel evaluation, FFTs, normal variates) works on
//! floating-point values; this crate decides the embedding size, drives the
//! validity search over embedding sizes, and lays out the circulant vector.
pub mod circulant;
pub mod error;
pub mod search;
pub mod size;

pub use circulant::{circulant_embedding, mirror_lag};
pub use error::FieldError;
pub use search::{Embedding, SpectrumSign, Verdict};
pub use size::{
    embedding_size, is_pow2, is_start_size, lemma_pow2_monotone, lemma_start_size_unique, pow2,
    start_size_fits,
};
