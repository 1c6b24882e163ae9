use vector_search::engine::VectorSearch;
use vector_search::error::VectorError;

#[test]
fn pair_lengths_must_match_dimensions() {
    let engine = VectorSearch::new(3);
    assert_eq!(engine.check_pair(3, 3), Ok(()));
    assert_eq!(engine.check_pair(3, 2), Err(VectorError::DimensionMismatch));
    assert_eq!(engine.check_pair(2, 3), Err(VectorError::DimensionMismatch));
    assert_eq!(engine.check_pair(4, 4), Err(VectorError::DimensionMismatch));
}

#[test]
fn single_vector_length_must_match_dimensions() {
    let engine = VectorSearch::new(3);
    assert_eq!(engine.check_vector(3), Ok(()));
    assert_eq!(engine.check_vector(0), Err(VectorError::DimensionMismatch));
    assert_eq!(engine.check_vector(9), Err(VectorError::DimensionMismatch));
}

#[test]
fn batch_needs_count_times_dimensions_components() {
    let engine = VectorSearch::new(3);
    assert_eq!(engine.check_batch(3, 9, 3), Ok(()));
    assert_eq!(engine.check_batch(3, 0, 0), Ok(()));
    assert_eq!(engine.check_batch(3, 8, 3), Err(VectorError::DimensionMismatch));
    assert_eq!(engine.check_batch(2, 9, 3), Err(VectorError::DimensionMismatch));
    // count * dimensions overflows usize: no length can satisfy it.
    assert_eq!(
        engine.check_batch(3, usize::MAX, usize::MAX),
        Err(VectorError::DimensionMismatch)
    );
}

#[test]
fn row_ranges_walk_the_flattened_set() {
    let engine = VectorSearch::new(3);
    assert_eq!(engine.row_range(0, 5), (0, 3));
    assert_eq!(engine.row_range(2, 5), (6, 9));
    assert_eq!(engine.row_range(4, 5), (12, 15));
}

#[test]
fn engine_keeps_its_dimensionality() {
    let engine = VectorSearch::new(7);
    assert_eq!(engine.dimensions, 7);
}
