use rugfield::{circulant_embedding, embedding_size, Embedding, FieldError, SpectrumSign, Verdict};

const LIMIT: usize = 1 << 20;

#[test]
fn size_rejects_zero_points() {
    assert_eq!(embedding_size(0, LIMIT), Err(FieldError::InvalidInput));
}

#[test]
fn size_rejects_one_point() {
    assert_eq!(embedding_size(1, LIMIT), Err(FieldError::InvalidInput));
}

#[test]
fn size_accepts_two_points() {
    assert_eq!(embedding_size(2, LIMIT), Ok(2));
}

#[test]
fn size_is_smallest_power_of_two() {
    assert_eq!(embedding_size(3, LIMIT), Ok(4));
    assert_eq!(embedding_size(5, LIMIT), Ok(8));
    assert_eq!(embedding_size(6, LIMIT), Ok(16));
    assert_eq!(embedding_size(100, LIMIT), Ok(256));
    assert_eq!(embedding_size(1000, LIMIT), Ok(2048));
    assert_eq!(embedding_size(1025, LIMIT), Ok(2048));
    assert_eq!(embedding_size(1026, LIMIT), Ok(4096));
}

#[test]
fn size_within_exact_limit() {
    assert_eq!(embedding_size(5, 8), Ok(8));
}

#[test]
fn size_over_limit_diverges() {
    assert_eq!(embedding_size(5, 7), Err(FieldError::EmbeddingDivergence));
    assert_eq!(embedding_size(2, 1), Err(FieldError::EmbeddingDivergence));
}

#[test]
fn size_of_huge_request_diverges() {
    assert_eq!(embedding_size(usize::MAX, usize::MAX), Err(FieldError::EmbeddingDivergence));
}

#[test]
fn search_starts_at_smallest_size() {
    let e = Embedding::new(100, LIMIT).unwrap();
    assert_eq!(e.points(), 100);
    assert_eq!(e.size(), 256);
}

#[test]
fn search_rejects_degenerate_lengths() {
    assert_eq!(Embedding::new(0, LIMIT).err(), Some(FieldError::InvalidInput));
    assert_eq!(Embedding::new(1, LIMIT).err(), Some(FieldError::InvalidInput));
    assert!(Embedding::new(2, LIMIT).is_ok());
}

#[test]
fn search_accepts_non_negative_spectrum() {
    let mut e = Embedding::new(10, LIMIT).unwrap();
    assert_eq!(e.review(SpectrumSign::NonNegative), Ok(Verdict::Accept { truncate: false }));
    assert_eq!(e.size(), 32);
}

#[test]
fn search_truncates_negligible_negatives() {
    let mut e = Embedding::new(10, LIMIT).unwrap();
    assert_eq!(e.review(SpectrumSign::NegligiblyNegative), Ok(Verdict::Accept { truncate: true }));
    assert_eq!(e.size(), 32);
}

#[test]
fn search_doubles_until_limit() {
    let mut e = Embedding::new(100, 1024).unwrap();
    assert_eq!(e.review(SpectrumSign::Negative), Ok(Verdict::Grow));
    assert_eq!(e.size(), 512);
    assert_eq!(e.review(SpectrumSign::Negative), Ok(Verdict::Grow));
    assert_eq!(e.size(), 1024);
    assert_eq!(e.review(SpectrumSign::Negative), Err(FieldError::EmbeddingDivergence));
    assert_eq!(e.size(), 1024);
    assert_eq!(e.points(), 100);
}

#[test]
fn extract_keeps_leading_points() {
    let e = Embedding::new(3, LIMIT).unwrap();
    let y = vec![1.5f64, -2.0, 3.25, 7.0];
    assert_eq!(e.extract(&y), vec![1.5, -2.0, 3.25]);
}

#[test]
fn circulant_mirrors_even_length() {
    let c = circulant_embedding(8, 4, |i: usize, n: usize| i * 10 + n);
    assert_eq!(c, vec![4, 14, 24, 34, 44, 34, 24, 14]);
}

#[test]
fn circulant_mirrors_odd_length() {
    let c = circulant_embedding(7, 5, |i: usize, n: usize| i * 10 + n);
    assert_eq!(c, vec![5, 15, 25, 35, 35, 25, 15]);
}

#[test]
fn circulant_single_slot() {
    let c = circulant_embedding(1, 2, |i: usize, _n: usize| i + 9);
    assert_eq!(c, vec![9]);
}

#[test]
fn circulant_lag_is_normalised_by_field_length() {
    let l = 0.1f64;
    let c = circulant_embedding(256, 100, |i: usize, n: usize| {
        let dx = i as f64 / n as f64;
        (-dx * dx / (2.0 * l * l)).exp()
    });
    assert_eq!(c.len(), 256);
    assert_eq!(c[0], 1.0);
    let dx = 5.0f64 / 100.0;
    assert_eq!(c[5], (-dx * dx / (2.0 * l * l)).exp());
    for i in 1..256 {
        assert_eq!(c[i], c[256 - i]);
    }
}
