use vector_search::engine::VectorSearch;
use vector_search::error::VectorError;
use vector_search::score::order_key;
use vector_search::topk::{rank_indices, top_k_indices};

fn keys(scores: &[f64]) -> Vec<u64> {
    scores.iter().map(|s| order_key(s.to_bits())).collect()
}

#[test]
fn top_two_of_three_candidates() {
    // query [1, 0] against rows [1, 0], [0, 1], [-1, 0] scores 1, 0, -1.
    let engine = VectorSearch::new(2);
    let scores: Vec<u64> = keys(&[1.0, 0.0, -1.0]);
    let top: Vec<usize> = engine.find_top_k(&scores, 2, 6, 3, 2).unwrap();
    assert_eq!(top, vec![0, 1]);
}

#[test]
fn count_mismatch_is_rejected() {
    let engine = VectorSearch::new(2);
    let scores: Vec<u64> = keys(&[1.0, 0.0, -1.0]);
    // count disagrees with the number of scores.
    assert_eq!(
        engine.find_top_k(&scores, 2, 8, 4, 2),
        Err(VectorError::DimensionMismatch)
    );
    assert_eq!(
        engine.find_top_k(&scores, 2, 4, 2, 2),
        Err(VectorError::DimensionMismatch)
    );
    // query length disagrees with the dimensionality.
    assert_eq!(
        engine.find_top_k(&scores, 3, 6, 3, 2),
        Err(VectorError::DimensionMismatch)
    );
    // flattened-set length disagrees with count * dimensions.
    assert_eq!(
        engine.find_top_k(&scores, 2, 5, 3, 2),
        Err(VectorError::DimensionMismatch)
    );
}

#[test]
fn k_zero_returns_nothing_and_large_k_returns_all() {
    let engine = VectorSearch::new(2);
    let scores: Vec<u64> = keys(&[0.25, 0.75]);
    assert_eq!(engine.find_top_k(&scores, 2, 4, 2, 0).unwrap(), vec![]);
    assert_eq!(engine.find_top_k(&scores, 2, 4, 2, 9).unwrap(), vec![1, 0]);
}

#[test]
fn ties_keep_ascending_index_order() {
    let scores: Vec<u64> = keys(&[0.5, 0.9, 0.5, 0.9]);
    assert_eq!(rank_indices(&scores), vec![1, 3, 0, 2]);
    assert_eq!(top_k_indices(&scores, 3), vec![1, 3, 0]);
}

#[test]
fn all_equal_scores_rank_by_index() {
    let scores: Vec<u64> = keys(&[0.4, 0.4, 0.4]);
    assert_eq!(rank_indices(&scores), vec![0, 1, 2]);
}

#[test]
fn nan_scores_rank_below_numeric_scores() {
    let scores: Vec<u64> = keys(&[0.3, f64::NAN, 0.7, f64::NAN]);
    assert_eq!(rank_indices(&scores), vec![2, 0, 1, 3]);
    assert_eq!(top_k_indices(&scores, 2), vec![2, 0]);
}

#[test]
fn empty_candidate_set() {
    let scores: Vec<u64> = Vec::new();
    assert_eq!(top_k_indices(&scores, 5), vec![]);
}

#[test]
fn negative_scores_rank_after_positive_ones() {
    let scores: Vec<u64> = keys(&[-0.9, 0.1, -0.2, 1.0]);
    assert_eq!(rank_indices(&scores), vec![3, 1, 2, 0]);
}

#[test]
fn zero_scores_of_either_sign_tie_by_index() {
    // -0.0 and 0.0 are equal scores: the stable tie-break keeps the
    // original order, whichever zero comes first.
    let negative_first: Vec<u64> = keys(&[-0.0, 0.0]);
    assert_eq!(rank_indices(&negative_first), vec![0, 1]);
    let positive_first: Vec<u64> = keys(&[0.0, -0.0]);
    assert_eq!(rank_indices(&positive_first), vec![0, 1]);
    assert_eq!(top_k_indices(&negative_first, 1), vec![0]);
}
