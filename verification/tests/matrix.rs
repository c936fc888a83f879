use flywheel::math::matrix::{Matrix, MatrixError};
use flywheel::math::multiply::STRASSEN_THRESHOLD;

fn matrix(rows: usize, cols: usize, data: Vec<i32>) -> Matrix<i32> {
    Matrix::from_vec(rows, cols, data).unwrap()
}

#[test]
fn test_transpose() {
    let data = vec![
        1, 2,
        3, 4,
        5, 6];

    let matrix = Matrix::from_vec(3, 2, data).unwrap();
    let res = matrix.transpose();

    assert_eq!(res.rows(), matrix.cols());
    assert_eq!(res.cols(), matrix.rows());
    assert_eq!(*res.data(), vec![
        1, 3, 5,
        2, 4, 6]
    );
}

#[test]
fn test_mul_2x2() {
    let a_data = vec![1, 2, 3, 4];
    let b_data = vec![4, 3, 2, 1];

    let a = Matrix::from_vec(2, 2, a_data).unwrap();
    let b = Matrix::from_vec(2, 2, b_data).unwrap();
    let c = a.multiply(b).unwrap();

    assert_eq!(c.rows(), 2);
    assert_eq!(c.cols(), 2);
    assert_eq!(*c.data(), vec![8, 5, 20, 13]);
}

#[test]
fn test_mul_3x3() {
    let a_data = vec![1, 2, 3, 4, 5, 6, 7, 8, 9];
    let b_data = vec![9, 8, 7, 6, 5, 4, 3, 2, 1];

    let a = Matrix::from_vec(3, 3, a_data).unwrap();
    let b = Matrix::from_vec(3, 3, b_data).unwrap();
    let c = a.multiply(b).unwrap();

    assert_eq!(c.rows(), 3);
    assert_eq!(c.cols(), 3);
    assert_eq!(*c.data(), vec![30, 24, 18,
                               84, 69, 54,
                               138, 114, 90]);
}

#[test]
fn test_mul_4x4() {
    let a_data = vec![1, 2, 3, 4, 5, 6, 7, 8, 9, 10, 11, 12, 13, 14, 15, 16];
    let b_data = vec![16, 15, 14, 13, 12, 11, 10, 9, 8, 7, 6, 5, 4, 3, 2, 1];

    let a = Matrix::from_vec(4, 4, a_data).unwrap();
    let b = Matrix::from_vec(4, 4, b_data).unwrap();
    let c = a.multiply(b).unwrap();

    assert_eq!(c.rows(), 4);
    assert_eq!(c.cols(), 4);
    assert_eq!(*c.data(), vec![80, 70, 60, 50,
                               240, 214, 188, 162,
                               400, 358, 316, 274,
                               560, 502, 444, 386]);
}

#[test]
fn test_mul_non_square() {
    let a_data = vec![1, 2,
                      3, 4,
                      5, 6];

    let b_data = vec![6, 5, 4,
                      3, 2, 1];

    let a = Matrix::from_vec(3, 2, a_data).unwrap();
    let b = Matrix::from_vec(2, 3, b_data).unwrap();

    let c = a.multiply(b).unwrap();

    assert_eq!(c.rows(), 3);
    assert_eq!(c.cols(), 3);
    assert_eq!(*c.data(), vec![12, 9, 6,
                               30, 23, 16,
                               48, 37, 26]);
}

#[test]
fn test_pad() {
    let a_data = vec![1, 2,
                      3, 4];

    let b_data = vec![1, 2, 3,
                      4, 5, 6];

    let a = Matrix::from_vec(2, 2, a_data).unwrap();
    let b = Matrix::from_vec(2, 3, b_data).unwrap();

    let pad_a = a.pad_to_size(2);
    let pad_b = b.pad_to_size(4);

    assert_eq!(*pad_a.data(), vec![1, 2,
                                   3, 4]
    );

    assert_eq!(*pad_b.data(), vec![1, 2, 3, 0,
                                   4, 5, 6, 0,
                                   0, 0, 0, 0,
                                   0, 0, 0, 0]
    );
}

#[test]
fn new_is_all_zero() {
    let m: Matrix<i32> = Matrix::new(2, 3);
    assert_eq!(m.rows(), 2);
    assert_eq!(m.cols(), 3);
    assert_eq!(*m.data(), vec![0, 0, 0, 0, 0, 0]);
}

#[test]
fn new_accepts_empty_extents() {
    let m: Matrix<u8> = Matrix::new(0, 5);
    assert_eq!(m.rows(), 0);
    assert_eq!(m.cols(), 5);
    assert!(m.data().is_empty());
    let n: Matrix<u8> = Matrix::new(0, 0);
    assert!(n.is_square());
    assert!(!n.is_square_power_of_two());
}

#[test]
fn from_vec_keeps_the_entries() {
    let m = matrix(2, 3, vec![1, 2, 3, 4, 5, 6]);
    assert_eq!(m.rows(), 2);
    assert_eq!(m.cols(), 3);
    assert_eq!(*m.data(), vec![1, 2, 3, 4, 5, 6]);
}

#[test]
fn from_vec_refuses_a_wrong_length() {
    assert_eq!(
        Matrix::from_vec(2, 2, vec![1, 2, 3]).unwrap_err(),
        MatrixError::DimensionMismatch
    );
    assert_eq!(
        Matrix::from_vec(2, 2, vec![1, 2, 3, 4, 5]).unwrap_err(),
        MatrixError::DimensionMismatch
    );
    assert_eq!(
        Matrix::<i32>::from_vec(1, 1, vec![]).unwrap_err(),
        MatrixError::DimensionMismatch
    );
}

#[test]
fn from_vec_refuses_extents_beyond_the_machine() {
    assert_eq!(
        Matrix::from_vec(usize::MAX, 2, vec![1, 2]).unwrap_err(),
        MatrixError::DimensionMismatch
    );
}

#[test]
fn get_reads_inside_and_is_absent_outside() {
    let m = matrix(2, 3, vec![1, 2, 3, 4, 5, 6]);
    assert_eq!(m.get(0, 0), Some(&1));
    assert_eq!(m.get(1, 2), Some(&6));
    assert_eq!(m.get(1, 0), Some(&4));
    assert_eq!(m.get(2, 0), None);
    assert_eq!(m.get(0, 3), None);
    assert_eq!(m.get(usize::MAX, usize::MAX), None);
}

#[test]
fn set_writes_inside_and_does_nothing_outside() {
    let mut m = matrix(2, 3, vec![1, 2, 3, 4, 5, 6]);
    m.set(1, 1, 50);
    assert_eq!(*m.data(), vec![1, 2, 3, 4, 50, 6]);
    m.set(2, 0, 70);
    m.set(0, 3, 70);
    assert_eq!(*m.data(), vec![1, 2, 3, 4, 50, 6]);
    assert_eq!(m.rows(), 2);
    assert_eq!(m.cols(), 3);
}

#[test]
fn square_and_power_of_two() {
    assert!(matrix(2, 2, vec![0; 4]).is_square());
    assert!(!matrix(2, 3, vec![0; 6]).is_square());
    assert!(matrix(1, 1, vec![0]).is_square_power_of_two());
    assert!(matrix(2, 2, vec![0; 4]).is_square_power_of_two());
    assert!(matrix(4, 4, vec![0; 16]).is_square_power_of_two());
    assert!(!matrix(3, 3, vec![0; 9]).is_square_power_of_two());
    assert!(!matrix(2, 4, vec![0; 8]).is_square_power_of_two());
    assert!(!matrix(6, 6, vec![0; 36]).is_square_power_of_two());
}

#[test]
fn transpose_twice_is_the_matrix() {
    let m = matrix(2, 3, vec![1, 2, 3, 4, 5, 6]);
    let back = m.transpose().transpose();
    assert_eq!(back.rows(), 2);
    assert_eq!(back.cols(), 3);
    assert_eq!(back.data(), m.data());
    let row = matrix(1, 4, vec![9, 8, 7, 6]);
    let column = row.transpose();
    assert_eq!(column.rows(), 4);
    assert_eq!(column.cols(), 1);
    assert_eq!(*column.data(), vec![9, 8, 7, 6]);
}

#[test]
fn pad_to_own_size_is_a_copy() {
    let m = matrix(3, 3, vec![1, 2, 3, 4, 5, 6, 7, 8, 9]);
    let p = m.pad_to_size(3);
    assert_eq!(p.rows(), 3);
    assert_eq!(p.cols(), 3);
    assert_eq!(p.data(), m.data());
}

#[test]
fn pad_square_matrix_to_four() {
    let m = matrix(2, 2, vec![1, 2, 3, 4]);
    let p = m.pad_to_size(4);
    assert_eq!(p.rows(), 4);
    assert_eq!(p.cols(), 4);
    assert_eq!(*p.data(), vec![1, 2, 0, 0, 3, 4, 0, 0, 0, 0, 0, 0, 0, 0, 0, 0]);
}

#[test]
fn pad_column_to_square() {
    let m = matrix(3, 1, vec![7, 8, 9]);
    let p = m.pad_to_size(3);
    assert_eq!(*p.data(), vec![7, 0, 0, 8, 0, 0, 9, 0, 0]);
}

#[test]
fn quarters_of_four_by_four() {
    let a = matrix(4, 4, vec![1, 2, 3, 4, 5, 6, 7, 8, 9, 8, 7, 6, 5, 4, 3, 2]);
    let (a11, a12, a21, a22) = a.quarters();
    assert_eq!(*a11.data(), vec![1, 2, 5, 6]);
    assert_eq!(*a12.data(), vec![3, 4, 7, 8]);
    assert_eq!(*a21.data(), vec![9, 8, 5, 4]);
    assert_eq!(*a22.data(), vec![7, 6, 3, 2]);
    assert_eq!(a11.rows(), 2);
    assert_eq!(a22.cols(), 2);
}

#[test]
fn quarters_merge_back() {
    let a = matrix(4, 4, vec![1, 2, 3, 4, 5, 6, 7, 8, 9, 8, 7, 6, 5, 4, 3, 2]);
    let (a11, a12, a21, a22) = a.quarters();
    let merged = Matrix::from_quarters(a11, a12, a21, a22).unwrap();
    assert_eq!(merged.rows(), 4);
    assert_eq!(merged.cols(), 4);
    assert_eq!(merged.data(), a.data());
}

#[test]
fn quarters_of_two_by_two_are_scalars() {
    let a = matrix(2, 2, vec![1, 2, 3, 4]);
    let (a11, a12, a21, a22) = a.quarters();
    assert_eq!(*a11.data(), vec![1]);
    assert_eq!(*a12.data(), vec![2]);
    assert_eq!(*a21.data(), vec![3]);
    assert_eq!(*a22.data(), vec![4]);
}

#[test]
fn quarters_of_a_scalar_are_empty() {
    let a = matrix(1, 1, vec![5]);
    let (a11, a12, a21, a22) = a.quarters();
    assert_eq!(a11.rows(), 0);
    assert_eq!(a12.cols(), 0);
    assert!(a21.data().is_empty());
    assert!(a22.data().is_empty());
    let merged = Matrix::from_quarters(a11, a12, a21, a22).unwrap();
    assert_eq!(merged.rows(), 0);
    assert_eq!(merged.cols(), 0);
}

#[test]
fn from_quarters_places_each_quadrant() {
    let q1 = matrix(1, 1, vec![1]);
    let q2 = matrix(1, 1, vec![2]);
    let q3 = matrix(1, 1, vec![3]);
    let q4 = matrix(1, 1, vec![4]);
    let whole = Matrix::from_quarters(q1, q2, q3, q4).unwrap();
    assert_eq!(whole.rows(), 2);
    assert_eq!(whole.cols(), 2);
    assert_eq!(*whole.data(), vec![1, 2, 3, 4]);
}

#[test]
fn from_quarters_refuses_a_quadrant_that_is_not_square() {
    let q = || matrix(2, 2, vec![0; 4]);
    let bad = matrix(2, 1, vec![0; 2]);
    assert_eq!(
        Matrix::from_quarters(q(), bad, q(), q()).unwrap_err(),
        MatrixError::ShapeMismatch
    );
}

#[test]
fn from_quarters_refuses_quadrants_of_different_sides() {
    let q = || matrix(2, 2, vec![0; 4]);
    let small = || matrix(1, 1, vec![0]);
    assert_eq!(
        Matrix::from_quarters(q(), q(), q(), small()).unwrap_err(),
        MatrixError::ShapeMismatch
    );
    assert_eq!(
        Matrix::from_quarters(small(), q(), q(), q()).unwrap_err(),
        MatrixError::ShapeMismatch
    );
    assert_eq!(
        Matrix::from_quarters(q(), q(), small(), q()).unwrap_err(),
        MatrixError::ShapeMismatch
    );
}

#[test]
fn add_and_sub_entry_by_entry() {
    let a = matrix(2, 2, vec![1, 2, 3, 4]);
    let b = matrix(2, 2, vec![10, 20, 30, 40]);
    let s = a.clone().add(b.clone()).unwrap();
    assert_eq!(*s.data(), vec![11, 22, 33, 44]);
    let d = a.sub(b).unwrap();
    assert_eq!(*d.data(), vec![-9, -18, -27, -36]);
    assert_eq!(d.rows(), 2);
    assert_eq!(d.cols(), 2);
}

#[test]
fn add_and_sub_refuse_different_extents() {
    let a = matrix(2, 3, vec![0; 6]);
    let b = matrix(3, 2, vec![0; 6]);
    assert_eq!(a.clone().add(b.clone()).unwrap_err(), MatrixError::DimensionMismatch);
    assert_eq!(a.clone().sub(b).unwrap_err(), MatrixError::DimensionMismatch);
    let c = matrix(2, 2, vec![0; 4]);
    assert_eq!(a.clone().add(c.clone()).unwrap_err(), MatrixError::DimensionMismatch);
    assert_eq!(c.sub(a).unwrap_err(), MatrixError::DimensionMismatch);
}

#[test]
fn clone_is_independent() {
    let a = matrix(2, 2, vec![1, 2, 3, 4]);
    let mut b = a.clone();
    b.set(0, 0, 9);
    assert_eq!(*a.data(), vec![1, 2, 3, 4]);
    assert_eq!(*b.data(), vec![9, 2, 3, 4]);
}

#[test]
fn gemm_two_by_two() {
    let a = matrix(2, 2, vec![1, 2, 3, 4]);
    let b = matrix(2, 2, vec![4, 3, 2, 1]);
    let c = a.gemm(b).unwrap();
    assert_eq!(*c.data(), vec![8, 5, 20, 13]);
}

#[test]
fn gemm_row_times_column() {
    let a = matrix(1, 3, vec![1, 2, 3]);
    let b = matrix(3, 1, vec![4, 5, 6]);
    let c = a.gemm(b).unwrap();
    assert_eq!(c.rows(), 1);
    assert_eq!(c.cols(), 1);
    assert_eq!(*c.data(), vec![32]);
}

#[test]
fn gemm_without_terms_is_zero() {
    let a: Matrix<i32> = Matrix::new(2, 0);
    let b: Matrix<i32> = Matrix::new(0, 3);
    let c = a.gemm(b).unwrap();
    assert_eq!(c.rows(), 2);
    assert_eq!(c.cols(), 3);
    assert_eq!(*c.data(), vec![0; 6]);
}

#[test]
fn products_refuse_operands_that_do_not_fit() {
    let a = matrix(2, 3, vec![0; 6]);
    let b = matrix(2, 3, vec![0; 6]);
    assert_eq!(a.gemm(b.clone()).unwrap_err(), MatrixError::DimensionMismatch);
    assert_eq!(a.strassen(b.clone(), 4).unwrap_err(), MatrixError::DimensionMismatch);
    assert_eq!(a.multiply(b).unwrap_err(), MatrixError::DimensionMismatch);
}

#[test]
fn strassen_two_by_two() {
    let a = matrix(2, 2, vec![1, 2, 3, 4]);
    let b = matrix(2, 2, vec![4, 3, 2, 1]);
    let c = a.strassen(b, 2).unwrap();
    assert_eq!(c.rows(), 2);
    assert_eq!(c.cols(), 2);
    assert_eq!(*c.data(), vec![8, 5, 20, 13]);
}

#[test]
fn strassen_pads_and_crops() {
    let a = matrix(3, 2, vec![1, 2, 3, 4, 5, 6]);
    let b = matrix(2, 3, vec![6, 5, 4, 3, 2, 1]);
    let c = a.strassen(b, 4).unwrap();
    assert_eq!(c.rows(), 3);
    assert_eq!(c.cols(), 3);
    assert_eq!(*c.data(), vec![12, 9, 6, 30, 23, 16, 48, 37, 26]);
}

#[test]
fn strassen_on_a_larger_side_than_needed() {
    let a = matrix(2, 2, vec![1, 2, 3, 4]);
    let b = matrix(2, 2, vec![4, 3, 2, 1]);
    let c = a.strassen(b, 8).unwrap();
    assert_eq!(*c.data(), vec![8, 5, 20, 13]);
}

#[test]
fn strassen_of_scalars() {
    let a = matrix(1, 1, vec![6]);
    let b = matrix(1, 1, vec![7]);
    let c = a.strassen(b, 1).unwrap();
    assert_eq!(c.rows(), 1);
    assert_eq!(c.cols(), 1);
    assert_eq!(*c.data(), vec![42]);
}

#[test]
fn strassen_side_one_answers_with_one_entry() {
    let a: Matrix<i32> = Matrix::new(0, 1);
    let b = matrix(1, 1, vec![7]);
    let c = a.strassen(b, 1).unwrap();
    assert_eq!(c.rows(), 1);
    assert_eq!(c.cols(), 1);
    assert_eq!(*c.data(), vec![0]);
}

#[test]
fn strassen_crops_to_an_empty_product() {
    let a: Matrix<i32> = Matrix::new(0, 2);
    let b = matrix(2, 2, vec![1, 2, 3, 4]);
    let c = a.strassen(b.clone(), 2).unwrap();
    assert_eq!(c.rows(), 0);
    assert_eq!(c.cols(), 2);
    assert!(c.data().is_empty());
    let d = a.gemm(b).unwrap();
    assert_eq!(d.rows(), 0);
    assert_eq!(d.cols(), 2);
}

fn sample(rows: usize, cols: usize, seed: i64) -> Matrix<i64> {
    let mut data = Vec::with_capacity(rows * cols);
    let mut x = seed;
    for _ in 0..rows * cols {
        x = (x * 1103515245 + 12345) % 2147483648;
        data.push(x % 201 - 100);
    }
    Matrix::from_vec(rows, cols, data).unwrap()
}

#[test]
fn three_strategies_agree_on_small_operands() {
    let a = sample(5, 7, 1);
    let b = sample(7, 3, 2);
    let direct = a.gemm(b.clone()).unwrap();
    let divided = a.strassen(b.clone(), 8).unwrap();
    let dispatched = a.clone().multiply(b).unwrap();
    assert_eq!(direct.rows(), 5);
    assert_eq!(direct.cols(), 3);
    assert_eq!(divided.rows(), 5);
    assert_eq!(divided.cols(), 3);
    assert_eq!(direct.data(), divided.data());
    assert_eq!(direct.data(), dispatched.data());
}

#[test]
fn three_strategies_agree_above_the_threshold() {
    let a = sample(257, 130, 3);
    let b = sample(130, 260, 4);
    let direct = a.gemm(b.clone()).unwrap();
    let divided = a.strassen(b.clone(), 512).unwrap();
    let dispatched = a.clone().multiply(b).unwrap();
    assert_eq!(dispatched.rows(), 257);
    assert_eq!(dispatched.cols(), 260);
    assert_eq!(direct.data(), divided.data());
    assert_eq!(direct.data(), dispatched.data());
}

#[test]
fn strategies_agree_when_arithmetic_wraps() {
    let a = Matrix::from_vec(2, 2, vec![200u8, 100, 50, 25]).unwrap();
    let b = Matrix::from_vec(2, 2, vec![3u8, 7, 11, 13]).unwrap();
    let direct = a.gemm(b.clone()).unwrap();
    assert_eq!(*direct.data(), vec![164u8, 140, 169, 163]);
    let divided = a.strassen(b.clone(), 2).unwrap();
    assert_eq!(direct.data(), divided.data());
    let dispatched = a.multiply(b).unwrap();
    assert_eq!(direct.data(), dispatched.data());
}

#[test]
fn multiply_identity() {
    let a = matrix(3, 3, vec![1, 2, 3, 4, 5, 6, 7, 8, 9]);
    let id = matrix(3, 3, vec![1, 0, 0, 0, 1, 0, 0, 0, 1]);
    assert_eq!(*a.clone().multiply(id.clone()).unwrap().data(), *a.data());
    assert_eq!(*id.multiply(a.clone()).unwrap().data(), *a.data());
}

#[test]
fn threshold_is_two_hundred_fifty_six() {
    assert_eq!(STRASSEN_THRESHOLD, 256);
}

#[test]
fn multiply_at_the_threshold_and_just_above() {
    let a = sample(256, 2, 5);
    let b = sample(2, 256, 6);
    let direct = a.gemm(b.clone()).unwrap();
    let dispatched = a.clone().multiply(b).unwrap();
    assert_eq!(direct.data(), dispatched.data());
    let c = sample(257, 1, 7);
    let d = sample(1, 2, 8);
    let direct = c.gemm(d.clone()).unwrap();
    let dispatched = c.clone().multiply(d).unwrap();
    assert_eq!(dispatched.rows(), 257);
    assert_eq!(dispatched.cols(), 2);
    assert_eq!(direct.data(), dispatched.data());
}

#[test]
fn multiply_of_empty_matrices_is_empty() {
    let a: Matrix<i32> = Matrix::new(0, 0);
    let b: Matrix<i32> = Matrix::new(0, 0);
    let c = a.multiply(b).unwrap();
    assert_eq!(c.rows(), 0);
    assert_eq!(c.cols(), 0);
    assert!(c.data().is_empty());
}

#[test]
fn from_vec_accepts_an_empty_matrix() {
    let m: Matrix<i32> = Matrix::from_vec(0, 3, vec![]).unwrap();
    assert_eq!(m.rows(), 0);
    assert_eq!(m.cols(), 3);
    assert_eq!(m.get(0, 0), None);
}

#[test]
fn padding_does_not_show_in_the_product() {
    let a = matrix(2, 3, vec![1, 2, 3, 4, 5, 6]);
    let b = matrix(3, 2, vec![7, 8, 9, 10, 11, 12]);
    let plain = a.gemm(b.clone()).unwrap();
    let padded = a.pad_to_size(4).gemm(b.pad_to_size(4)).unwrap();
    assert_eq!(padded.rows(), 4);
    assert_eq!(*plain.data(), vec![58, 64, 139, 154]);
    assert_eq!(padded.get(0, 0), Some(&58));
    assert_eq!(padded.get(0, 1), Some(&64));
    assert_eq!(padded.get(1, 0), Some(&139));
    assert_eq!(padded.get(1, 1), Some(&154));
    assert_eq!(padded.get(2, 2), Some(&0));
    assert_eq!(padded.get(0, 3), Some(&0));
}
