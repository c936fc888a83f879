use flywheel::math::lanes::{LaneGroup, Lanes};
use flywheel::math::matrix::Matrix;
use flywheel::math::matrix_simd::MatrixSimd;

#[test]
fn lanes_keep_their_elements() {
    let group: Lanes<i32, 4> = Lanes::from_array([1, 2, 3, 4]);
    assert_eq!(group.to_array(), [1, 2, 3, 4]);
}

#[test]
fn lanes_multiply_and_add_lane_by_lane() {
    let a: Lanes<i32, 4> = Lanes::from_array([1, 2, 3, 4]);
    let b: Lanes<i32, 4> = Lanes::from_array([10, 20, 30, 40]);
    assert_eq!(a.lane_mul(b).to_array(), [10, 40, 90, 160]);
    assert_eq!(a.lane_add(b).to_array(), [11, 22, 33, 44]);
}

#[test]
fn lanes_wrap_like_their_elements() {
    let a: Lanes<u8, 2> = Lanes::from_array([200, 16]);
    let b: Lanes<u8, 2> = Lanes::from_array([100, 16]);
    assert_eq!(a.lane_add(b).to_array(), [44, 32]);
    assert_eq!(a.lane_mul(b).to_array(), [32, 0]);
}

#[test]
fn lane_groups_of_each_width() {
    assert_eq!(i32::simd1_to_arr(i32::simd1_from_arr([7])), [7]);
    assert_eq!(i32::simd2_to_arr(i32::simd2_from_arr([7, 8])), [7, 8]);
    let one = i64::simd1_mul(i64::simd1_from_arr([6]), i64::simd1_from_arr([7]));
    assert_eq!(i64::simd1_to_arr(one), [42]);
    let two = u16::simd2_add(u16::simd2_from_arr([1, 2]), u16::simd2_from_arr([3, 4]));
    assert_eq!(u16::simd2_to_arr(two), [4, 6]);
    let two = u16::simd2_mul(u16::simd2_from_arr([1, 2]), u16::simd2_from_arr([3, 4]));
    assert_eq!(u16::simd2_to_arr(two), [3, 8]);
    let four = i8::simd4_mul(i8::simd4_from_arr([1, 2, 3, 4]), i8::simd4_from_arr([5, 6, 7, 8]));
    assert_eq!(i8::simd4_to_arr(four), [5, 12, 21, 32]);
    let eight = u64::simd8_add(u64::simd8_from_arr([1; 8]), u64::simd8_from_arr([2; 8]));
    assert_eq!(u64::simd8_to_arr(eight), [3; 8]);
    let sixteen =
        isize::simd16_mul(isize::simd16_from_arr([3; 16]), isize::simd16_from_arr([-2; 16]));
    assert_eq!(isize::simd16_to_arr(sixteen), [-6; 16]);
    let wide = usize::simd32_add(usize::simd32_from_arr([5; 32]), usize::simd32_from_arr([6; 32]));
    assert_eq!(usize::simd32_to_arr(wide), [11; 32]);
    let widest = u32::simd64_mul(u32::simd64_from_arr([5; 64]), u32::simd64_from_arr([6; 64]));
    assert_eq!(u32::simd64_to_arr(widest), [30; 64]);
}

#[test]
fn simd_two_by_two() {
    let a = Matrix::from_vec(2, 2, vec![1, 2, 3, 4]).unwrap();
    let b = Matrix::from_vec(2, 2, vec![4, 3, 2, 1]).unwrap();
    let c = i32::simd_2x2_mul(&a, &b);
    assert_eq!(c.rows(), 2);
    assert_eq!(c.cols(), 2);
    assert_eq!(*c.data(), vec![8, 5, 20, 13]);
}

#[test]
fn simd_three_by_three() {
    let a = Matrix::from_vec(3, 3, vec![1, 2, 3, 4, 5, 6, 7, 8, 9]).unwrap();
    let b = Matrix::from_vec(3, 3, vec![9, 8, 7, 6, 5, 4, 3, 2, 1]).unwrap();
    let c = i32::simd_3x3_mul(&a, &b);
    assert_eq!(c.rows(), 3);
    assert_eq!(c.cols(), 3);
    assert_eq!(*c.data(), vec![30, 24, 18, 84, 69, 54, 138, 114, 90]);
}

#[test]
fn simd_four_by_four() {
    let a = Matrix::from_vec(4, 4, vec![1, 2, 3, 4, 5, 6, 7, 8, 9, 10, 11, 12, 13, 14, 15, 16])
        .unwrap();
    let b = Matrix::from_vec(4, 4, vec![16, 15, 14, 13, 12, 11, 10, 9, 8, 7, 6, 5, 4, 3, 2, 1])
        .unwrap();
    let c = i32::simd_4x4_mul(&a, &b);
    assert_eq!(c.rows(), 4);
    assert_eq!(c.cols(), 4);
    assert_eq!(
        *c.data(),
        vec![80, 70, 60, 50, 240, 214, 188, 162, 400, 358, 316, 274, 560, 502, 444, 386]
    );
}

fn entries(n: usize, seed: u64) -> Vec<u64> {
    let mut x = seed;
    let mut out = Vec::with_capacity(n);
    for _ in 0..n {
        x = x.wrapping_mul(6364136223846793005).wrapping_add(1442695040888963407);
        out.push(x >> 7);
    }
    out
}

#[test]
fn simd_agrees_with_gemm_on_wrapping_u64() {
    for (n, seed) in [(2usize, 11u64), (3, 12), (4, 13)] {
        let a = Matrix::from_vec(n, n, entries(n * n, seed)).unwrap();
        let b = Matrix::from_vec(n, n, entries(n * n, seed + 100)).unwrap();
        let direct = a.gemm(b.clone()).unwrap();
        let lanes = match n {
            2 => u64::simd_2x2_mul(&a, &b),
            3 => u64::simd_3x3_mul(&a, &b),
            _ => u64::simd_4x4_mul(&a, &b),
        };
        assert_eq!(lanes.rows(), n);
        assert_eq!(lanes.cols(), n);
        assert_eq!(lanes.data(), direct.data());
    }
}

#[test]
fn simd_agrees_with_gemm_on_wrapping_i8() {
    let a = Matrix::from_vec(4, 4, (0..16).map(|k| (k * 17 - 100) as i8).collect()).unwrap();
    let b = Matrix::from_vec(4, 4, (0..16).map(|k| (90 - k * 13) as i8).collect()).unwrap();
    let direct = a.gemm(b.clone()).unwrap();
    assert_eq!(i8::simd_4x4_mul(&a, &b).data(), direct.data());
    let a3 = Matrix::from_vec(3, 3, vec![127i8, -128, 100, -100, 55, -55, 1, 2, 3]).unwrap();
    let b3 = Matrix::from_vec(3, 3, vec![-128i8, 127, 99, -99, 77, -77, 5, 6, 7]).unwrap();
    assert_eq!(i8::simd_3x3_mul(&a3, &b3).data(), a3.gemm(b3.clone()).unwrap().data());
    let a2 = Matrix::from_vec(2, 2, vec![127i8, 127, -128, -128]).unwrap();
    let b2 = Matrix::from_vec(2, 2, vec![127i8, -128, 127, -128]).unwrap();
    let lanes = i8::simd_2x2_mul(&a2, &b2);
    assert_eq!(*lanes.data(), vec![2i8, 0, 0, 0]);
    assert_eq!(lanes.data(), a2.gemm(b2.clone()).unwrap().data());
}

#[test]
fn simd_agrees_with_gemm_on_every_element_type() {
    let a = Matrix::from_vec(2, 2, vec![1i16, 2, 3, 4]).unwrap();
    let b = Matrix::from_vec(2, 2, vec![4i16, 3, 2, 1]).unwrap();
    assert_eq!(*i16::simd_2x2_mul(&a, &b).data(), vec![8, 5, 20, 13]);
    let a = Matrix::from_vec(2, 2, vec![1i64, 2, 3, 4]).unwrap();
    let b = Matrix::from_vec(2, 2, vec![4i64, 3, 2, 1]).unwrap();
    assert_eq!(*i64::simd_2x2_mul(&a, &b).data(), vec![8, 5, 20, 13]);
    let a = Matrix::from_vec(2, 2, vec![1isize, 2, 3, 4]).unwrap();
    let b = Matrix::from_vec(2, 2, vec![4isize, 3, 2, 1]).unwrap();
    assert_eq!(*isize::simd_2x2_mul(&a, &b).data(), vec![8, 5, 20, 13]);
    let a = Matrix::from_vec(2, 2, vec![1u8, 2, 3, 4]).unwrap();
    let b = Matrix::from_vec(2, 2, vec![4u8, 3, 2, 1]).unwrap();
    assert_eq!(*u8::simd_2x2_mul(&a, &b).data(), vec![8, 5, 20, 13]);
    let a = Matrix::from_vec(2, 2, vec![1u16, 2, 3, 4]).unwrap();
    let b = Matrix::from_vec(2, 2, vec![4u16, 3, 2, 1]).unwrap();
    assert_eq!(*u16::simd_2x2_mul(&a, &b).data(), vec![8, 5, 20, 13]);
    let a = Matrix::from_vec(2, 2, vec![1u32, 2, 3, 4]).unwrap();
    let b = Matrix::from_vec(2, 2, vec![4u32, 3, 2, 1]).unwrap();
    assert_eq!(*u32::simd_2x2_mul(&a, &b).data(), vec![8, 5, 20, 13]);
    let a = Matrix::from_vec(2, 2, vec![1usize, 2, 3, 4]).unwrap();
    let b = Matrix::from_vec(2, 2, vec![4usize, 3, 2, 1]).unwrap();
    assert_eq!(*usize::simd_2x2_mul(&a, &b).data(), vec![8, 5, 20, 13]);
}
