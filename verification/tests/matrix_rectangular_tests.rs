use cglinalg::matrix1x2::Matrix1x2;
use cglinalg::matrix1x3::Matrix1x3;
use cglinalg::matrix1x4::Matrix1x4;
use cglinalg::matrix2x2::Matrix2x2;
use cglinalg::matrix2x3::Matrix2x3;
use cglinalg::matrix2x4::Matrix2x4;
use cglinalg::matrix3x2::Matrix3x2;
use cglinalg::matrix3x3::Matrix3x3;
use cglinalg::matrix3x4::Matrix3x4;
use cglinalg::matrix4x2::Matrix4x2;
use cglinalg::matrix4x3::Matrix4x3;
use cglinalg::matrix4x4::Matrix4x4;
use cglinalg::vector::{Vector1, Vector2, Vector3, Vector4};

#[test]
fn test_matrix_test_matrix_components1_1x2() {
    let matrix = Matrix1x2::new(1_i32, 2_i32);

    assert_eq!(matrix[0][0], 1_i32);
    assert_eq!(matrix[1][0], 2_i32);
}

#[test]
fn test_matrix_test_matrix_components2_1x2() {
    let matrix = Matrix1x2::new(1_i32, 2_i32);

    assert_eq!(matrix.c0.x, matrix[0][0]);
    assert_eq!(matrix.c1.x, matrix[1][0]);
}

#[test]
fn test_matrix_times_identity_equals_matrix() {
    let matrix = Matrix1x2::new(2_i32, 3_i32);
    let identity = Matrix2x2::identity();

    assert_eq!(matrix * identity, matrix);
}

#[test]
fn test_matrix_times_zero_equals_zero() {
    let matrix = Matrix1x2::new(33_i32, 54_i32);
    let zero_matrix2x2 = Matrix2x2::zero();
    let zero_matrix1x2 = Matrix1x2::zero();

    assert_eq!(matrix * zero_matrix2x2, zero_matrix1x2);
}

#[test]
fn test_zero_times_matrix_equals_zero() {
    let matrix = Matrix1x2::new(33_i32, 54_i32);
    let zero = 0_i32;
    let zero_matrix1x2 = Matrix1x2::zero();

    assert_eq!(zero * matrix, zero_matrix1x2);
}

#[test]
fn test_matrix_test_matrix_multiplication1_1x2() {
    let matrix1x2 = Matrix1x2::new(2_i32, 3_i32);
    let matrix2x2 = Matrix2x2::new(
        1_i32, 2_i32,
        3_i32, 4_i32
    );
    let expected = Matrix1x2::new(8_i32, 18_i32);
    let result = matrix1x2 * matrix2x2;

    assert_eq!(result, expected);
}

#[test]
fn test_matrix_test_matrix_multiplication2_1x2() {
    let matrix1x2 = Matrix1x2::new(4_i32, 5_i32);
    let vector = Vector2::new(9_i32, 6_i32);
    let expected = Vector1::new(66_i32);
    let result = matrix1x2 * vector;

    assert_eq!(result, expected);
}

#[test]
fn test_matrix_scalar_multiplication() {
    let matrix1x2 = Matrix1x2::new(1_i32, 2_i32);
    let scalar = 13_i32;
    let expected = Matrix1x2::new(13_i32, 26_i32);
    let result = matrix1x2 * scalar;

    assert_eq!(result, expected);
}

#[test]
fn test_scalar_matrix_multiplication() {
    let matrix1x2 = Matrix1x2::new(1_i32, 2_i32);
    let scalar = 13_i32;
    let expected = Matrix1x2::new(13_i32, 26_i32);
    let result = scalar * matrix1x2;

    assert_eq!(result, expected);
}

#[test]
fn test_matrix_test_matrix_plus_zero_equals_matrix_1x2() {
    let zero_matrix1x2 = Matrix1x2::zero();
    let matrix = Matrix1x2::new(3684_i32, 42746_i32);

    assert_eq!(matrix + zero_matrix1x2, matrix);
}

#[test]
fn test_matrix_test_zero_plus_matrix_equals_matrix_1x2() {
    let zero_matrix1x2 = Matrix1x2::zero();
    let matrix = Matrix1x2::new(3684_i32, 42746_i32);

    assert_eq!(zero_matrix1x2 + matrix, matrix);
}

#[test]
fn test_matrix_test_addition() {
    let matrix1 = Matrix1x2::new(23_i32, 76_i32);
    let matrix2 = Matrix1x2::new(1_i32, 5_i32);
    let expected = Matrix1x2::new(24_i32, 81_i32);
    let result = matrix1 + matrix2;

    assert_eq!(result, expected);
}

#[test]
fn test_matrix_test_subtraction() {
    let matrix1 = Matrix1x2::new(3_i32, 6_i32);
    let matrix2 = Matrix1x2::new(1_i32, 15_i32);
    let expected = Matrix1x2::new(2_i32, -9_i32);
    let result = matrix1 - matrix2;

    assert_eq!(result, expected);
}

#[test]
fn test_matrix_minus_matrix_is_zero() {
    let matrix = Matrix1x2::new(3_i32, 6_i32);
    let zero_matrix1x2 = Matrix1x2::zero();

    assert_eq!(matrix - matrix, zero_matrix1x2);
}

#[test]
fn test_matrix_test_matrix_components1_1x3() {
    let matrix = Matrix1x3::new(1_i32, 2_i32, 3_i32);

    assert_eq!(matrix[0][0], 1_i32);
    assert_eq!(matrix[1][0], 2_i32);
    assert_eq!(matrix[2][0], 3_i32);
}

#[test]
fn test_matrix_test_matrix_components2_1x3() {
    let matrix = Matrix1x3::new(1_i32, 2_i32, 3_i32);

    assert_eq!(matrix.c0.x, matrix[0][0]);
    assert_eq!(matrix.c1.x, matrix[1][0]);
    assert_eq!(matrix.c2.x, matrix[2][0]);
}

#[test]
fn test_matrix_test_matrix_times_identity_equals_matrix() {
    let matrix = Matrix1x3::new(2_i32, 3_i32, 4_i32);
    let identity = Matrix3x3::identity();

    assert_eq!(matrix * identity, matrix);
}

#[test]
fn test_matrix_test_matrix_times_zero_equals_zero() {
    let matrix = Matrix1x3::new(33_i32, 54_i32, 19_i32);
    let zero_matrix3x3 = Matrix3x3::zero();
    let zero_matrix1x3 = Matrix1x3::zero();

    assert_eq!(matrix * zero_matrix3x3, zero_matrix1x3);
}

#[test]
fn test_matrix_test_zero_times_matrix_equals_zero() {
    let matrix = Matrix1x3::new(33_i32, 54_i32, 19_i32);
    let zero = 0_i32;
    let zero_matrix1x3 = Matrix1x3::zero();

    assert_eq!(zero * matrix, zero_matrix1x3);
}

#[test]
fn test_matrix_test_matrix_multiplication1_1x3() {
    let matrix1x3 = Matrix1x3::new(2_i32, 3_i32, 4_i32);
    let matrix3x3 = Matrix3x3::new(
        1_i32, 2_i32, 3_i32,
        4_i32, 5_i32, 6_i32,
        7_i32, 8_i32, 9_i32
    );
    let expected = Matrix1x3::new(20_i32, 47_i32, 74_i32);
    let result = matrix1x3 * matrix3x3;

    assert_eq!(result, expected);
}

#[test]
fn test_matrix_test_matrix_multiplication2_1x3() {
    let matrix1x3 = Matrix1x3::new(4_i32, 5_i32, 6_i32);
    let vector = Vector3::new(9_i32, 6_i32, -12_i32);
    let expected = Vector1::new(-6_i32);
    let result = matrix1x3 * vector;

    assert_eq!(result, expected);
}

#[test]
fn test_matrix_test_matrix_scalar_multiplication() {
    let matrix1x3 = Matrix1x3::new(1_i32, 2_i32, 3_i32);
    let scalar = 13_i32;
    let expected = Matrix1x3::new(13_i32, 26_i32, 39_i32);
    let result = matrix1x3 * scalar;

    assert_eq!(result, expected);
}

#[test]
fn test_matrix_test_scalar_matrix_multiplication() {
    let matrix1x3 = Matrix1x3::new(1_i32, 2_i32, 3_i32);
    let scalar = 13_i32;
    let expected = Matrix1x3::new(13_i32, 26_i32, 39_i32);
    let result = scalar * matrix1x3;

    assert_eq!(result, expected);
}

#[test]
fn test_matrix_test_matrix_plus_zero_equals_matrix_1x3() {
    let zero_matrix1x3 = Matrix1x3::zero();
    let matrix = Matrix1x3::new(3684_i32, 42746_i32, 345_i32);

    assert_eq!(matrix + zero_matrix1x3, matrix);
}

#[test]
fn test_matrix_test_zero_plus_matrix_equals_matrix_1x3() {
    let zero_matrix1x3 = Matrix1x3::zero();
    let matrix = Matrix1x3::new(3684_i32, 42746_i32, 345_i32);

    assert_eq!(zero_matrix1x3 + matrix, matrix);
}

#[test]
fn test_matrix_test_addition_1x3() {
    let matrix1 = Matrix1x3::new(23_i32, 76_i32, 89_i32);
    let matrix2 = Matrix1x3::new(1_i32, 5_i32, 9_i32);
    let expected = Matrix1x3::new(24_i32, 81_i32, 98_i32);
    let result = matrix1 + matrix2;

    assert_eq!(result, expected);
}

#[test]
fn test_matrix_test_subtraction_1x3() {
    let matrix1 = Matrix1x3::new(3_i32, 6_i32, 9_i32);
    let matrix2 = Matrix1x3::new(1_i32, 15_i32, 29_i32);
    let expected = Matrix1x3::new(2_i32, -9_i32, -20_i32);
    let result = matrix1 - matrix2;

    assert_eq!(result, expected);
}

#[test]
fn test_matrix_test_matrix_minus_matrix_is_zero() {
    let matrix = Matrix1x3::new(3_i32, 6_i32, 9_i32);
    let zero_matrix1x3 = Matrix1x3::zero();

    assert_eq!(matrix - matrix, zero_matrix1x3);
}

#[test]
fn test_matrix_test_matrix_components1_1x4() {
    let matrix = Matrix1x4::new(1_i32, 2_i32, 3_i32, 4_i32);

    assert_eq!(matrix[0][0], 1_i32);
    assert_eq!(matrix[1][0], 2_i32);
    assert_eq!(matrix[2][0], 3_i32);
    assert_eq!(matrix[3][0], 4_i32);
}

#[test]
fn test_matrix_test_matrix_components2_1x4() {
    let matrix = Matrix1x4::new(1_i32, 2_i32, 3_i32, 4_i32);

    assert_eq!(matrix.c0.x, matrix[0][0]);
    assert_eq!(matrix.c1.x, matrix[1][0]);
    assert_eq!(matrix.c2.x, matrix[2][0]);
    assert_eq!(matrix.c3.x, matrix[3][0]);
}

#[test]
fn test_matrix_test_matrix_times_identity_equals_matrix_1x4() {
    let matrix = Matrix1x4::new(2_i32, 3_i32, 4_i32, 5_i32);
    let identity = Matrix4x4::identity();

    assert_eq!(matrix * identity, matrix);
}

#[test]
fn test_matrix_test_matrix_times_zero_equals_zero_1x4() {
    let matrix = Matrix1x4::new(33_i32, 54_i32, 19_i32, 5_i32);
    let zero_matrix4x4 = Matrix4x4::zero();
    let zero_matrix1x4 = Matrix1x4::zero();

    assert_eq!(matrix * zero_matrix4x4, zero_matrix1x4);
}

#[test]
fn test_matrix_test_zero_times_matrix_equals_zero_1x4() {
    let matrix = Matrix1x4::new(33_i32, 54_i32, 19_i32, 5_i32);
    let zero = 0_i32;
    let zero_matrix1x4 = Matrix1x4::zero();

    assert_eq!(zero * matrix, zero_matrix1x4);
}

#[test]
fn test_matrix_test_matrix_multiplication1_1x4() {
    let matrix1x4 = Matrix1x4::new(2_i32, 3_i32, 4_i32, 5_i32);
    let matrix4x4 = Matrix4x4::new(
        1_i32,  2_i32,  3_i32,  4_i32,
        5_i32,  6_i32,  7_i32,  8_i32,
        9_i32,  10_i32, 11_i32, 12_i32,
        13_i32, 14_i32, 15_i32, 16_i32
    );
    let expected = Matrix1x4::new(40_i32, 96_i32, 152_i32, 208_i32);
    let result = matrix1x4 * matrix4x4;

    assert_eq!(result, expected);
}

#[test]
fn test_matrix_test_matrix_multiplication2_1x4() {
    let matrix1x4 = Matrix1x4::new(4_i32, 5_i32, 6_i32, 7_i32);
    let vector = Vector4::new(9_i32, 6_i32, -12_i32, -72_i32);
    let expected = Vector1::new(-510_i32);
    let result = matrix1x4 * vector;

    assert_eq!(result, expected);
}

#[test]
fn test_matrix_test_matrix_scalar_multiplication_1x4() {
    let matrix1x4 = Matrix1x4::new(1_i32, 2_i32, 3_i32, 4_i32);
    let scalar = 13_i32;
    let expected = Matrix1x4::new(13_i32, 26_i32, 39_i32, 52_i32);
    let result = matrix1x4 * scalar;

    assert_eq!(result, expected);
}

#[test]
fn test_matrix_test_scalar_matrix_multiplication_1x4() {
    let matrix1x4 = Matrix1x4::new(1_i32, 2_i32, 3_i32, 4_i32);
    let scalar = 13_i32;
    let expected = Matrix1x4::new(13_i32, 26_i32, 39_i32, 52_i32);
    let result = scalar * matrix1x4;

    assert_eq!(result, expected);
}

#[test]
fn test_matrix_test_matrix_plus_zero_equals_matrix_1x4() {
    let zero_matrix1x4 = Matrix1x4::zero();
    let matrix = Matrix1x4::new(3684_i32, 42746_i32, 345_i32, 546_i32);

    assert_eq!(matrix + zero_matrix1x4, matrix);
}

#[test]
fn test_matrix_test_zero_plus_matrix_equals_matrix_1x4() {
    let zero_matrix1x4 = Matrix1x4::zero();
    let matrix = Matrix1x4::new(3684_i32, 42746_i32, 345_i32, 546_i32);

    assert_eq!(zero_matrix1x4 + matrix, matrix);
}

#[test]
fn test_matrix_test_addition_1x4() {
    let matrix1 = Matrix1x4::new(23_i32, 76_i32, 89_i32, 34_i32);
    let matrix2 = Matrix1x4::new(1_i32, 5_i32, 9_i32, 13_i32);
    let expected = Matrix1x4::new(24_i32, 81_i32, 98_i32, 47_i32);
    let result = matrix1 + matrix2;

    assert_eq!(result, expected);
}

#[test]
fn test_matrix_test_subtraction_1x4() {
    let matrix1 = Matrix1x4::new(3_i32, 6_i32, 9_i32, 12_i32);
    let matrix2 = Matrix1x4::new(1_i32, 15_i32, 29_i32, 6_i32);
    let expected = Matrix1x4::new(2_i32, -9_i32, -20_i32, 6_i32);
    let result = matrix1 - matrix2;

    assert_eq!(result, expected);
}

#[test]
fn test_matrix_test_matrix_minus_matrix_is_zero_1x4() {
    let matrix = Matrix1x4::new(3_i32, 6_i32, 9_i32, 12_i32);
    let zero_matrix1x4 = Matrix1x4::zero();

    assert_eq!(matrix - matrix, zero_matrix1x4);
}

#[test]
fn test_matrix_test_matrix_components1_2x3() {
    let matrix = Matrix2x3::new(
        1_i32, 2_i32,
        3_i32, 4_i32,
        5_i32, 6_i32
    );

    assert_eq!(matrix[0][0], 1_i32);
    assert_eq!(matrix[0][1], 2_i32);
    assert_eq!(matrix[1][0], 3_i32);
    assert_eq!(matrix[1][1], 4_i32);
    assert_eq!(matrix[2][0], 5_i32);
    assert_eq!(matrix[2][1], 6_i32);
}

#[test]
fn test_matrix_test_matrix_components2_2x3() {
    let matrix = Matrix2x3::new(
        1_i32, 2_i32,
        3_i32, 4_i32,
        5_i32, 6_i32
    );

    assert_eq!(matrix.c0.x, matrix[0][0]);
    assert_eq!(matrix.c0.y, matrix[0][1]);
    assert_eq!(matrix.c1.x, matrix[1][0]);
    assert_eq!(matrix.c1.y, matrix[1][1]);
    assert_eq!(matrix.c2.x, matrix[2][0]);
    assert_eq!(matrix.c2.y, matrix[2][1]);
}

#[test]
fn test_matrix_test_matrix_times_identity_equals_matrix_2x3() {
    let matrix = Matrix2x3::new(
        2_i32, 3_i32,
        4_i32, 5_i32,
        6_i32, 7_i32
    );
    let identity = Matrix3x3::identity();

    assert_eq!(matrix * identity, matrix);
}

#[test]
fn test_matrix_test_matrix_times_zero_equals_zero_2x3() {
    let matrix = Matrix2x3::new(
        33_i32,  54_i32,
        19_i32,  5_i32,
        793_i32, 23_i32
    );
    let zero_matrix3x3 = Matrix3x3::zero();
    let zero_matrix2x3 = Matrix2x3::zero();

    assert_eq!(matrix * zero_matrix3x3, zero_matrix2x3);
}

#[test]
fn test_matrix_test_zero_times_matrix_equals_zero_2x3() {
    let matrix = Matrix2x3::new(
        33_i32,  54_i32,
        19_i32,  5_i32,
        234_i32, 98_i32
    );
    let zero = 0_i32;
    let zero_matrix2x3 = Matrix2x3::zero();

    assert_eq!(zero * matrix, zero_matrix2x3);
}

#[test]
fn test_matrix_test_matrix_multiplication1_2x3() {
    let matrix2x3 = Matrix2x3::new(
        2_i32, 3_i32,
        4_i32, 5_i32,
        6_i32, 7_i32
    );
    let matrix3x3 = Matrix3x3::new(
        1_i32, 2_i32, 3_i32,
        4_i32, 5_i32, 8_i32,
        7_i32, 8_i32, 9_i32
    );
    let expected = Matrix2x3::new(
        28_i32,  34_i32,
        76_i32,  93_i32,
        100_i32, 124_i32
    );
    let result = matrix2x3 * matrix3x3;

    assert_eq!(result, expected);
}

#[test]
fn test_matrix_test_matrix_multiplication2_2x3() {
    let matrix2x3 = Matrix2x3::new(
        2_i32, 3_i32,
        4_i32, 5_i32,
        6_i32, 7_i32
    );
    let matrix3x2 = Matrix3x2::new(
        1_i32, 2_i32, 3_i32,
        4_i32, 5_i32, 8_i32
    );
    let expected = Matrix2x2::new(
        28_i32,  34_i32,
        76_i32,  93_i32
    );
    let result = matrix2x3 * matrix3x2;

    assert_eq!(result, expected);
}

#[test]
fn test_matrix_multiplication3() {
    let matrix2x3 = Matrix2x3::new(
        4_i32, 5_i32,
        6_i32, 7_i32,
        8_i32, 9_i32
    );
    let vector = Vector3::new(9_i32, 6_i32, -12_i32);
    let expected = Vector2::new(-24_i32, -21_i32);
    let result = matrix2x3 * vector;

    assert_eq!(result, expected);
}

#[test]
fn test_matrix_test_matrix_scalar_multiplication_2x3() {
    let matrix2x3 = Matrix2x3::new(
        1_i32, 2_i32,
        3_i32, 4_i32,
        5_i32, 7_i32
    );
    let scalar = 13_i32;
    let expected = Matrix2x3::new(
        13_i32, 26_i32,
        39_i32, 52_i32,
        65_i32, 91_i32
    );
    let result = matrix2x3 * scalar;

    assert_eq!(result, expected);
}

#[test]
fn test_matrix_test_scalar_matrix_multiplication_2x3() {
    let matrix2x3 = Matrix2x3::new(
        1_i32, 2_i32,
        3_i32, 4_i32,
        5_i32, 7_i32
    );
    let scalar = 13_i32;
    let expected = Matrix2x3::new(
        13_i32, 26_i32,
        39_i32, 52_i32,
        65_i32, 91_i32
    );
    let result = scalar * matrix2x3;

    assert_eq!(result, expected);
}

#[test]
fn test_matrix_test_matrix_plus_zero_equals_matrix_2x3() {
    let zero_matrix2x3 = Matrix2x3::zero();
    let matrix = Matrix2x3::new(
        3684_i32, 42746_i32,
        345_i32,  546_i32,
        76_i32,   167_i32
    );

    assert_eq!(matrix + zero_matrix2x3, matrix);
}

#[test]
fn test_matrix_test_zero_plus_matrix_equals_matrix_2x3() {
    let zero_matrix2x3 = Matrix2x3::zero();
    let matrix = Matrix2x3::new(
        3684_i32, 42746_i32,
        345_i32,  546_i32,
        76_i32,   167_i32
    );

    assert_eq!(zero_matrix2x3 + matrix, matrix);
}

#[test]
fn test_matrix_test_addition_2x3() {
    let matrix1 = Matrix2x3::new(
        23_i32,  76_i32,
        89_i32,  34_i32,
        324_i32, 75_i32
    );
    let matrix2 = Matrix2x3::new(
        1_i32,  5_i32,
        9_i32,  13_i32,
        17_i32, 21_i32
    );
    let expected = Matrix2x3::new(
        24_i32,  81_i32,
        98_i32,  47_i32,
        341_i32, 96_i32
    );
    let result = matrix1 + matrix2;

    assert_eq!(result, expected);
}

#[test]
fn test_matrix_test_subtraction_2x3() {
    let matrix1 = Matrix2x3::new(
        3_i32, 6_i32,
        9_i32, 12_i32,
        15_i32, 18_i32

    );
    let matrix2 = Matrix2x3::new(
        1_i32,   15_i32,
        29_i32,  6_i32,
        234_i32, 93_i32,
    );
    let expected = Matrix2x3::new(
         2_i32,  -9_i32,
        -20_i32,  6_i32,
        -219_i32, -75_i32
    );
    let result = matrix1 - matrix2;

    assert_eq!(result, expected);
}

#[test]
fn test_matrix_test_matrix_minus_matrix_is_zero_2x3() {
    let matrix = Matrix2x3::new(
        3_i32,  6_i32,
        9_i32,  12_i32,
        15_i32, 18_i32
    );
    let zero_matrix2x3 = Matrix2x3::zero();

    assert_eq!(matrix - matrix, zero_matrix2x3);
}

#[test]
fn test_matrix_transpose() {
    let matrix = Matrix2x3::new(
        1_i32, 2_i32,
        3_i32, 4_i32,
        5_i32, 6_i32
    );
    let expected = Matrix3x2::new(
        1_i32, 3_i32, 5_i32,
        2_i32, 4_i32, 6_i32
    );
    let result = matrix.transpose();

    assert_eq!(result, expected);
}

#[test]
fn test_matrix_test_construction_from_cols_2x3() {
    let c0 = Vector2::new(1_i32, 2_i32);
    let c1 = Vector2::new(3_i32, 4_i32);
    let c2 = Vector2::new(5_i32, 6_i32);
    let columns = [c0, c1, c2];
    let expected = Matrix2x3::new(
        1_i32, 2_i32,
        3_i32, 4_i32,
        5_i32, 6_i32
    );
    let result = Matrix2x3::from_columns(&columns);

    assert_eq!(result, expected);
}

#[test]
fn test_matrix_test_construction_from_rows_2x3() {
    let r0 = Vector3::new(1_i32, 2_i32, 3_i32);
    let r1 = Vector3::new(4_i32, 5_i32, 6_i32);
    let rows = [r0, r1];
    let expected = Matrix2x3::new(
        1_i32, 4_i32,
        2_i32, 5_i32,
        3_i32, 6_i32
    );
    let result = Matrix2x3::from_rows(&rows);

    assert_eq!(result, expected);
}

#[test]
fn test_matrix_test_matrix_components1_3x2() {
    let matrix = Matrix3x2::new(
        1_i32, 2_i32, 3_i32,
        4_i32, 5_i32, 6_i32
    );

    assert_eq!(matrix[0][0], 1_i32);
    assert_eq!(matrix[0][1], 2_i32);
    assert_eq!(matrix[0][2], 3_i32);
    assert_eq!(matrix[1][0], 4_i32);
    assert_eq!(matrix[1][1], 5_i32);
    assert_eq!(matrix[1][2], 6_i32);
}

#[test]
fn test_matrix_test_matrix_components2_3x2() {
    let matrix = Matrix3x2::new(
        1_i32, 2_i32, 3_i32,
        4_i32, 5_i32, 6_i32
    );

    assert_eq!(matrix.c0.x, matrix[0][0]);
    assert_eq!(matrix.c0.y, matrix[0][1]);
    assert_eq!(matrix.c0.z, matrix[0][2]);
    assert_eq!(matrix.c1.x, matrix[1][0]);
    assert_eq!(matrix.c1.y, matrix[1][1]);
    assert_eq!(matrix.c1.z, matrix[1][2]);
}

#[test]
fn test_matrix_test_matrix_times_identity_equals_matrix_3x2() {
    let matrix = Matrix3x2::new(
        2_i32, 3_i32, 4_i32,
        5_i32, 6_i32, 7_i32
    );
    let identity = Matrix2x2::identity();

    assert_eq!(matrix * identity, matrix);
}

#[test]
fn test_matrix_test_matrix_times_zero_equals_zero_3x2() {
    let matrix = Matrix3x2::new(
        33_i32, 54_i32,  19_i32,
        5_i32,  793_i32, 23_i32
    );
    let zero_matrix2x2 = Matrix2x2::zero();
    let zero_matrix3x2 = Matrix3x2::zero();

    assert_eq!(matrix * zero_matrix2x2, zero_matrix3x2);
}

#[test]
fn test_matrix_test_zero_times_matrix_equals_zero_3x2() {
    let matrix = Matrix3x2::new(
        33_i32, 54_i32,  19_i32,
        5_i32,  234_i32, 98_i32
    );
    let zero = 0_i32;
    let zero_matrix3x2 = Matrix3x2::zero();

    assert_eq!(zero * matrix, zero_matrix3x2);
}

#[test]
fn test_matrix_test_matrix_multiplication1_3x2() {
    let matrix3x2 = Matrix3x2::new(
        2_i32, 3_i32, 4_i32,
        5_i32, 6_i32, 7_i32
    );
    let matrix2x2 = Matrix2x2::new(
        1_i32, 2_i32,
        4_i32, 5_i32,
    );
    let expected = Matrix3x2::new(
        12_i32, 15_i32, 18_i32,
        33_i32, 42_i32, 51_i32
    );
    let result = matrix3x2 * matrix2x2;

    assert_eq!(result, expected);
}

#[test]
fn test_matrix_test_matrix_multiplication2_3x2() {
    let matrix3x2 = Matrix3x2::new(
        2_i32, 3_i32, 4_i32,
        5_i32, 6_i32, 7_i32
    );
    let matrix2x3 = Matrix2x3::new(
        1_i32, 2_i32,
        3_i32, 4_i32,
        5_i32, 8_i32
    );
    let expected = Matrix3x3::new(
        12_i32, 15_i32, 18_i32,
        26_i32, 33_i32, 40_i32,
        50_i32, 63_i32, 76_i32
    );
    let result = matrix3x2 * matrix2x3;

    assert_eq!(result, expected);
}

#[test]
fn test_matrix_test_matrix_multiplication3() {
    let matrix3x2 = Matrix3x2::new(
        4_i32, 5_i32, 6_i32,
        7_i32, 8_i32, 9_i32
    );
    let vector = Vector2::new(9_i32, -6_i32);
    let expected = Vector3::new(-6_i32, -3_i32, 0_i32);
    let result = matrix3x2 * vector;

    assert_eq!(result, expected);
}

#[test]
fn test_matrix_test_matrix_scalar_multiplication_3x2() {
    let matrix3x2 = Matrix3x2::new(
        1_i32, 2_i32, 3_i32,
        4_i32, 5_i32, 7_i32
    );
    let scalar = 13_i32;
    let expected = Matrix3x2::new(
        13_i32, 26_i32, 39_i32,
        52_i32, 65_i32, 91_i32
    );
    let result = matrix3x2 * scalar;

    assert_eq!(result, expected);
}

#[test]
fn test_matrix_test_scalar_matrix_multiplication_3x2() {
    let matrix3x2 = Matrix3x2::new(
        1_i32, 2_i32, 3_i32,
        4_i32, 5_i32, 7_i32
    );
    let scalar = 13_i32;
    let expected = Matrix3x2::new(
        13_i32, 26_i32, 39_i32,
        52_i32, 65_i32, 91_i32
    );
    let result = scalar * matrix3x2;

    assert_eq!(result, expected);
}

#[test]
fn test_matrix_test_matrix_plus_zero_equals_matrix_3x2() {
    let zero_matrix3x2 = Matrix3x2::zero();
    let matrix = Matrix3x2::new(
        3684_i32, 42746_i32, 345_i32,
        546_i32,  76_i32,    167_i32
    );

    assert_eq!(matrix + zero_matrix3x2, matrix);
}

#[test]
fn test_matrix_test_zero_plus_matrix_equals_matrix_3x2() {
    let zero_matrix3x2 = Matrix3x2::zero();
    let matrix = Matrix3x2::new(
        3684_i32, 42746_i32, 345_i32,
        546_i32,  76_i32,    167_i32
    );

    assert_eq!(zero_matrix3x2 + matrix, matrix);
}

#[test]
fn test_matrix_test_addition_3x2() {
    let matrix1 = Matrix3x2::new(
        23_i32, 76_i32,  89_i32,
        34_i32, 324_i32, 75_i32
    );
    let matrix2 = Matrix3x2::new(
        1_i32,  5_i32,  9_i32,
        13_i32, 17_i32, 21_i32
    );
    let expected = Matrix3x2::new(
        24_i32, 81_i32, 98_i32,
        47_i32, 341_i32, 96_i32
    );
    let result = matrix1 + matrix2;

    assert_eq!(result, expected);
}

#[test]
fn test_matrix_test_subtraction_3x2() {
    let matrix1 = Matrix3x2::new(
        3_i32,  6_i32,  9_i32,
        12_i32, 15_i32, 18_i32
    );
    let matrix2 = Matrix3x2::new(
        1_i32, 15_i32,  29_i32,
        6_i32, 234_i32, 93_i32,
    );
    let expected = Matrix3x2::new(
         2_i32, -9_i32,   -20_i32,
         6_i32, -219_i32, -75_i32
    );
    let result = matrix1 - matrix2;

    assert_eq!(result, expected);
}

#[test]
fn test_matrix_test_matrix_minus_matrix_is_zero_3x2() {
    let matrix = Matrix3x2::new(
        3_i32,  6_i32,  9_i32,
        12_i32, 15_i32, 18_i32
    );
    let zero_matrix3x2 = Matrix3x2::zero();

    assert_eq!(matrix - matrix, zero_matrix3x2);
}

#[test]
fn test_matrix_test_matrix_transpose() {
    let matrix = Matrix3x2::new(
        1_i32, 3_i32, 5_i32,
        2_i32, 4_i32, 6_i32
    );
    let expected = Matrix2x3::new(
        1_i32, 2_i32,
        3_i32, 4_i32,
        5_i32, 6_i32
    );
    let result = matrix.transpose();

    assert_eq!(result, expected);
}

#[test]
fn test_matrix_test_construction_from_cols_3x2() {
    let c0 = Vector3::new(1_i32, 2_i32, 3_i32);
    let c1 = Vector3::new(4_i32, 5_i32, 6_i32);
    let columns = [c0, c1];
    let expected = Matrix3x2::new(
        1_i32, 2_i32, 3_i32,
        4_i32, 5_i32, 6_i32
    );
    let result = Matrix3x2::from_columns(&columns);

    assert_eq!(result, expected);
}

#[test]
fn test_matrix_test_construction_from_rows_3x2() {
    let r0 = Vector2::new(1_i32, 2_i32);
    let r1 = Vector2::new(3_i32, 4_i32);
    let r2 = Vector2::new(5_i32, 6_i32);
    let rows = [r0, r1, r2];
    let expected = Matrix3x2::new(
        1_i32, 3_i32, 5_i32,
        2_i32, 4_i32, 6_i32
    );
    let result = Matrix3x2::from_rows(&rows);

    assert_eq!(result, expected);
}

#[test]
fn test_matrix_test_matrix_components1_2x4() {
    let matrix = Matrix2x4::new(
        1_i32, 2_i32,
        3_i32, 4_i32,
        5_i32, 6_i32,
        7_i32, 8_i32
    );

    assert_eq!(matrix[0][0], 1_i32);
    assert_eq!(matrix[0][1], 2_i32);
    assert_eq!(matrix[1][0], 3_i32);
    assert_eq!(matrix[1][1], 4_i32);
    assert_eq!(matrix[2][0], 5_i32);
    assert_eq!(matrix[2][1], 6_i32);
    assert_eq!(matrix[3][0], 7_i32);
    assert_eq!(matrix[3][1], 8_i32);
}

#[test]
fn test_matrix_test_matrix_components2_2x4() {
    let matrix = Matrix2x4::new(
        1_i32, 2_i32,
        3_i32, 4_i32,
        5_i32, 6_i32,
        7_i32, 8_i32
    );

    assert_eq!(matrix.c0.x, matrix[0][0]);
    assert_eq!(matrix.c0.y, matrix[0][1]);
    assert_eq!(matrix.c1.x, matrix[1][0]);
    assert_eq!(matrix.c1.y, matrix[1][1]);
    assert_eq!(matrix.c2.x, matrix[2][0]);
    assert_eq!(matrix.c2.y, matrix[2][1]);
    assert_eq!(matrix.c3.x, matrix[3][0]);
    assert_eq!(matrix.c3.y, matrix[3][1]);
}

#[test]
fn test_matrix_test_matrix_times_identity_equals_matrix_2x4() {
    let matrix = Matrix2x4::new(
        2_i32, 3_i32,
        4_i32, 5_i32,
        6_i32, 7_i32,
        8_i32, 9_i32
    );
    let identity = Matrix4x4::identity();

    assert_eq!(matrix * identity, matrix);
}

#[test]
fn test_matrix_test_matrix_times_zero_equals_zero_2x4() {
    let matrix = Matrix2x4::new(
        33_i32,  54_i32,
        19_i32,  5_i32,
        793_i32, 23_i32,
        49_i32,  11_i32
    );
    let zero_matrix4x4 = Matrix4x4::zero();
    let zero_matrix2x4 = Matrix2x4::zero();

    assert_eq!(matrix * zero_matrix4x4, zero_matrix2x4);
}

#[test]
fn test_zero_matrix_times_matrix_equals_zero() {
    let matrix = Matrix2x4::new(
        33_i32,  54_i32,
        19_i32,  5_i32,
        793_i32, 23_i32,
        49_i32,  11_i32
    );
    let zero_matrix2x2 = Matrix2x2::zero();
    let zero_matrix2x4 = Matrix2x4::zero();

    assert_eq!(zero_matrix2x2 * matrix, zero_matrix2x4);
}

#[test]
fn test_matrix_test_zero_times_matrix_equals_zero_2x4() {
    let matrix = Matrix2x4::new(
        33_i32,  54_i32,
        19_i32,  5_i32,
        234_i32, 98_i32,
        64_i32,  28_i32
    );
    let zero = 0_i32;
    let zero_matrix2x4 = Matrix2x4::zero();

    assert_eq!(zero * matrix, zero_matrix2x4);
}

#[test]
fn test_matrix_test_matrix_multiplication1_2x4() {
    let matrix2x4 = Matrix2x4::new(
        2_i32, 3_i32,
        4_i32, 5_i32,
        6_i32, 7_i32,
        8_i32, 9_i32
    );
    let matrix4x4 = Matrix4x4::new(
        1_i32,  2_i32,  3_i32,  4_i32,
        5_i32,  6_i32,  7_i32,  8_i32,
        9_i32,  10_i32, 11_i32, 12_i32,
        13_i32, 14_i32, 15_i32, 16_i32
    );
    let expected = Matrix2x4::new(
        60_i32,  70_i32,
        140_i32, 166_i32,
        220_i32, 262_i32,
        300_i32, 358_i32
    );
    let result = matrix2x4 * matrix4x4;

    assert_eq!(result, expected);
}

#[test]
fn test_matrix_test_matrix_multiplication2_2x4() {
    let matrix2x4 = Matrix2x4::new(
        4_i32,  5_i32,
        6_i32,  7_i32,
        8_i32,  9_i32,
        10_i32, 11_i32
    );
    let vector = Vector4::new(9_i32, 6_i32, -12_i32, -24_i32);
    let expected = Vector2::new(-264_i32, -285_i32);
    let result = matrix2x4 * vector;

    assert_eq!(result, expected);
}

#[test]
fn test_matrix_test_matrix_multiplication3_2x4() {
    let matrix2x4 = Matrix2x4::new(
        2_i32, 3_i32,
        4_i32, 5_i32,
        6_i32, 7_i32,
        8_i32, 9_i32,
    );
    let vector = Vector4::new(9_i32, -6_i32, 12_i32, 4_i32);
    let expected = Vector2::new(98_i32, 117_i32);
    let result = matrix2x4 * vector;

    assert_eq!(result, expected);
}

#[test]
fn test_matrix_test_matrix_scalar_multiplication_2x4() {
    let matrix2x4 = Matrix2x4::new(
        1_i32, 2_i32,
        3_i32, 4_i32,
        5_i32, 7_i32,
        8_i32, 9_i32
    );
    let scalar = 13_i32;
    let expected = Matrix2x4::new(
        13_i32,  26_i32,
        39_i32,  52_i32,
        65_i32,  91_i32,
        104_i32, 117_i32
    );
    let result = matrix2x4 * scalar;

    assert_eq!(result, expected);
}

#[test]
fn test_matrix_test_scalar_matrix_multiplication_2x4() {
    let matrix2x4 = Matrix2x4::new(
        1_i32, 2_i32,
        3_i32, 4_i32,
        5_i32, 7_i32,
        8_i32, 9_i32
    );
    let scalar = 13_i32;
    let expected = Matrix2x4::new(
        13_i32,  26_i32,
        39_i32,  52_i32,
        65_i32,  91_i32,
        104_i32, 117_i32
    );
    let result = scalar * matrix2x4;

    assert_eq!(result, expected);
}

#[test]
fn test_matrix_test_matrix_plus_zero_equals_matrix_2x4() {
    let zero_matrix2x4 = Matrix2x4::zero();
    let matrix = Matrix2x4::new(
        3684_i32, 42746_i32,
        345_i32,  546_i32,
        76_i32,   167_i32,
        415_i32,  251_i32
    );

    assert_eq!(matrix + zero_matrix2x4, matrix);
}

#[test]
fn test_matrix_test_zero_plus_matrix_equals_matrix_2x4() {
    let zero_matrix2x4 = Matrix2x4::zero();
    let matrix = Matrix2x4::new(
        3684_i32, 42746_i32,
        345_i32,  546_i32,
        76_i32,   167_i32,
        415_i32,  251_i32
    );

    assert_eq!(zero_matrix2x4 + matrix, matrix);
}

#[test]
fn test_matrix_test_addition_2x4() {
    let matrix1 = Matrix2x4::new(
        23_i32,  76_i32,
        89_i32,  34_i32,
        324_i32, 75_i32,
        614_i32, 15_i32
    );
    let matrix2 = Matrix2x4::new(
        1_i32,  5_i32,
        9_i32,  13_i32,
        17_i32, 21_i32,
        87_i32, 41_i32
    );
    let expected = Matrix2x4::new(
        24_i32,  81_i32,
        98_i32,  47_i32,
        341_i32, 96_i32,
        701_i32, 56_i32
    );
    let result = matrix1 + matrix2;

    assert_eq!(result, expected);
}

#[test]
fn test_matrix_test_subtraction_2x4() {
    let matrix1 = Matrix2x4::new(
        3_i32,  6_i32,
        9_i32,  12_i32,
        15_i32, 18_i32,
        21_i32, 24_i32
    );
    let matrix2 = Matrix2x4::new(
        1_i32,   15_i32,
        29_i32,  6_i32,
        234_i32, 93_i32,
        93_i32,  7_i32
    );
    let expected = Matrix2x4::new(
         2_i32,   -9_i32,
        -20_i32,   6_i32,
        -219_i32, -75_i32,
        -72_i32,   17_i32
    );
    let result = matrix1 - matrix2;

    assert_eq!(result, expected);
}

#[test]
fn test_matrix_test_matrix_minus_matrix_is_zero_2x4() {
    let matrix = Matrix2x4::new(
        3_i32,  6_i32,
        9_i32,  12_i32,
        15_i32, 18_i32,
        21_i32, 24_i32
    );
    let zero_matrix2x4 = Matrix2x4::zero();

    assert_eq!(matrix - matrix, zero_matrix2x4);
}

#[test]
fn test_matrix_test_matrix_transpose_2x4() {
    let matrix = Matrix2x4::new(
        1_i32, 2_i32,
        3_i32, 4_i32,
        5_i32, 6_i32,
        7_i32, 8_i32
    );
    let expected = Matrix4x2::new(
        1_i32, 3_i32, 5_i32, 7_i32,
        2_i32, 4_i32, 6_i32, 8_i32
    );
    let result = matrix.transpose();

    assert_eq!(result, expected);
}

#[test]
fn test_matrix_test_construction_from_cols_2x4() {
    let c0 = Vector2::new(1_i32, 2_i32);
    let c1 = Vector2::new(3_i32, 4_i32);
    let c2 = Vector2::new(5_i32, 6_i32);
    let c3 = Vector2::new(7_i32, 8_i32);
    let columns = [c0, c1, c2, c3];
    let expected = Matrix2x4::new(
        1_i32, 2_i32,
        3_i32, 4_i32,
        5_i32, 6_i32,
        7_i32, 8_i32
    );
    let result = Matrix2x4::from_columns(&columns);

    assert_eq!(result, expected);
}

#[test]
fn test_matrix_test_construction_from_rows_2x4() {
    let r0 = Vector4::new(1_i32, 2_i32, 3_i32, 4_i32);
    let r1 = Vector4::new(5_i32, 6_i32, 7_i32, 8_i32);
    let rows = [r0, r1];
    let expected = Matrix2x4::new(
        1_i32, 5_i32,
        2_i32, 6_i32,
        3_i32, 7_i32,
        4_i32, 8_i32
    );
    let result = Matrix2x4::from_rows(&rows);

    assert_eq!(result, expected);
}

#[test]
fn test_matrix_test_matrix_components1_4x2() {
    let matrix = Matrix4x2::new(
        1_i32, 2_i32, 3_i32, 4_i32,
        5_i32, 6_i32, 7_i32, 8_i32
    );

    assert_eq!(matrix[0][0], 1_i32);
    assert_eq!(matrix[0][1], 2_i32);
    assert_eq!(matrix[0][2], 3_i32);
    assert_eq!(matrix[0][3], 4_i32);
    assert_eq!(matrix[1][0], 5_i32);
    assert_eq!(matrix[1][1], 6_i32);
    assert_eq!(matrix[1][2], 7_i32);
    assert_eq!(matrix[1][3], 8_i32);
}

#[test]
fn test_matrix_test_matrix_components2_4x2() {
    let matrix = Matrix4x2::new(
        1_i32, 2_i32, 3_i32, 4_i32,
        5_i32, 6_i32, 7_i32, 8_i32
    );

    assert_eq!(matrix.c0.x, matrix[0][0]);
    assert_eq!(matrix.c0.y, matrix[0][1]);
    assert_eq!(matrix.c0.z, matrix[0][2]);
    assert_eq!(matrix.c0.w, matrix[0][3]);
    assert_eq!(matrix.c1.x, matrix[1][0]);
    assert_eq!(matrix.c1.y, matrix[1][1]);
    assert_eq!(matrix.c1.z, matrix[1][2]);
    assert_eq!(matrix.c1.w, matrix[1][3]);
}

#[test]
fn test_matrix_test_matrix_times_identity_equals_matrix_4x2() {
    let matrix = Matrix4x2::new(
        2_i32, 3_i32, 4_i32, 5_i32,
        6_i32, 7_i32, 8_i32, 9_i32
    );
    let identity = Matrix2x2::identity();

    assert_eq!(matrix * identity, matrix);
}

#[test]
fn test_matrix_test_matrix_times_zero_equals_zero_4x2() {
    let matrix = Matrix4x2::new(
        33_i32, 54_i32,  19_i32, 345_i32,
        5_i32,  793_i32, 23_i32, 324_i32
    );
    let zero_matrix2x2 = Matrix2x2::zero();
    let zero_matrix3x2 = Matrix4x2::zero();

    assert_eq!(matrix * zero_matrix2x2, zero_matrix3x2);
}

#[test]
fn test_matrix_test_zero_times_matrix_equals_zero_4x2() {
    let matrix = Matrix4x2::new(
        33_i32, 54_i32,  19_i32, 29_i32,
        5_i32,  234_i32, 98_i32, 7_i32
    );
    let zero = 0_i32;
    let zero_matrix3x2 = Matrix4x2::zero();

    assert_eq!(zero * matrix, zero_matrix3x2);
}

#[test]
fn test_matrix_test_matrix_multiplication1_4x2() {
    let matrix4x2 = Matrix4x2::new(
        2_i32, 3_i32, 4_i32, 5_i32,
        5_i32, 6_i32, 7_i32, 8_i32
    );
    let matrix2x2 = Matrix2x2::new(
        1_i32, 2_i32,
        4_i32, 5_i32
    );
    let expected = Matrix4x2::new(
        12_i32, 15_i32, 18_i32, 21_i32,
        33_i32, 42_i32, 51_i32, 60_i32
    );
    let result = matrix4x2 * matrix2x2;

    assert_eq!(result, expected);
}

#[test]
fn test_matrix_test_matrix_multiplication2_4x2() {
    let matrix4x2 = Matrix4x2::new(
        2_i32, 3_i32, 4_i32, 5_i32,
        5_i32, 6_i32, 7_i32, 8_i32
    );
    let matrix2x4 = Matrix2x4::new(
        1_i32, 2_i32,
        3_i32, 4_i32,
        5_i32, 8_i32,
        7_i32, 10_i32
    );
    let expected = Matrix4x4::new(
        12_i32, 15_i32, 18_i32, 21_i32,
        26_i32, 33_i32, 40_i32, 47_i32,
        50_i32, 63_i32, 76_i32, 89_i32,
        64_i32, 81_i32, 98_i32, 115_i32
    );
    let result = matrix4x2 * matrix2x4;

    assert_eq!(result, expected);
}

#[test]
fn test_matrix_test_matrix_multiplication3_4x2() {
    let matrix4x2 = Matrix4x2::new(
        4_i32, 5_i32, 6_i32,  7_i32,
        8_i32, 9_i32, 10_i32, 11_i32
    );
    let vector = Vector2::new(9_i32, -6_i32);
    let expected = Vector4::new(-12_i32, -9_i32, -6_i32, -3_i32);
    let result = matrix4x2 * vector;

    assert_eq!(result, expected);
}

#[test]
fn test_matrix_test_matrix_scalar_multiplication_4x2() {
    let matrix4x2 = Matrix4x2::new(
        1_i32, 2_i32, 3_i32, 4_i32,
        4_i32, 5_i32, 7_i32, 8_i32,
    );
    let scalar = 13_i32;
    let expected = Matrix4x2::new(
        13_i32, 26_i32, 39_i32, 52_i32,
        52_i32, 65_i32, 91_i32, 104_i32
    );
    let result = matrix4x2 * scalar;

    assert_eq!(result, expected);
}

#[test]
fn test_matrix_test_scalar_matrix_multiplication_4x2() {
    let matrix4x2 = Matrix4x2::new(
        1_i32, 2_i32, 3_i32, 4_i32,
        4_i32, 5_i32, 7_i32, 8_i32
    );
    let scalar = 13_i32;
    let expected = Matrix4x2::new(
        13_i32, 26_i32, 39_i32, 52_i32,
        52_i32, 65_i32, 91_i32, 104_i32
    );
    let result = scalar * matrix4x2;

    assert_eq!(result, expected);
}

#[test]
fn test_matrix_test_matrix_plus_zero_equals_matrix_4x2() {
    let zero_matrix4x2 = Matrix4x2::zero();
    let matrix = Matrix4x2::new(
        3684_i32, 42746_i32, 345_i32, 456_i32,
        546_i32,  76_i32,    167_i32, 915_i32
    );

    assert_eq!(matrix + zero_matrix4x2, matrix);
}

#[test]
fn test_matrix_test_zero_plus_matrix_equals_matrix_4x2() {
    let zero_matrix4x2 = Matrix4x2::zero();
    let matrix = Matrix4x2::new(
        3684_i32, 42746_i32, 345_i32, 456_i32,
        546_i32,  76_i32,    167_i32, 915_i32
    );

    assert_eq!(zero_matrix4x2 + matrix, matrix);
}

#[test]
fn test_matrix_test_addition_4x2() {
    let matrix1 = Matrix4x2::new(
        23_i32, 76_i32,  89_i32, 11_i32,
        34_i32, 324_i32, 75_i32, 62_i32
    );
    let matrix2 = Matrix4x2::new(
        1_i32,  5_i32,  9_i32,  82_i32,
        13_i32, 17_i32, 21_i32, 6_i32
    );
    let expected = Matrix4x2::new(
        24_i32, 81_i32, 98_i32,  93_i32,
        47_i32, 341_i32, 96_i32, 68_i32
    );
    let result = matrix1 + matrix2;

    assert_eq!(result, expected);
}

#[test]
fn test_matrix_test_subtraction_4x2() {
    let matrix1 = Matrix4x2::new(
        3_i32,  6_i32,  9_i32,  65_i32,
        12_i32, 15_i32, 18_i32, 333_i32
    );
    let matrix2 = Matrix4x2::new(
        1_i32, 15_i32,  29_i32, 27_i32,
        6_i32, 234_i32, 93_i32, 38_i32
    );
    let expected = Matrix4x2::new(
        2_i32, -9_i32,   -20_i32, 38_i32,
        6_i32, -219_i32, -75_i32, 295_i32
    );
    let result = matrix1 - matrix2;

    assert_eq!(result, expected);
}

#[test]
fn test_matrix_test_matrix_minus_matrix_is_zero_4x2() {
    let matrix = Matrix4x2::new(
        3_i32,  6_i32,  9_i32,  12_i32,
        12_i32, 15_i32, 18_i32, 21_i32
    );
    let zero_matrix3x2 = Matrix4x2::zero();

    assert_eq!(matrix - matrix, zero_matrix3x2);
}

#[test]
fn test_transpose() {
    let matrix = Matrix4x2::new(
        1_i32, 2_i32, 3_i32, 4_i32,
        5_i32, 6_i32, 7_i32, 8_i32
    );
    let expected = Matrix2x4::new(
        1_i32, 5_i32,
        2_i32, 6_i32,
        3_i32, 7_i32,
        4_i32, 8_i32
    );
    let result = matrix.transpose();

    assert_eq!(result, expected);
}

#[test]
fn test_matrix_test_construction_from_cols_4x2() {
    let c0 = Vector4::new(1_i32, 2_i32, 3_i32, 4_i32);
    let c1 = Vector4::new(5_i32, 6_i32, 7_i32, 8_i32);
    let columns = [c0, c1];
    let expected = Matrix4x2::new(
        1_i32, 2_i32, 3_i32, 4_i32,
        5_i32, 6_i32, 7_i32, 8_i32
    );
    let result = Matrix4x2::from_columns(&columns);

    assert_eq!(result, expected);
}

#[test]
fn test_matrix_test_construction_from_rows_4x2() {
    let r0 = Vector2::new(1_i32, 2_i32);
    let r1 = Vector2::new(3_i32, 4_i32);
    let r2 = Vector2::new(5_i32, 6_i32);
    let r3 = Vector2::new(7_i32, 8_i32);
    let rows = [r0, r1, r2, r3];
    let expected = Matrix4x2::new(
        1_i32, 3_i32, 5_i32, 7_i32,
        2_i32, 4_i32, 6_i32, 8_i32
    );
    let result = Matrix4x2::from_rows(&rows);

    assert_eq!(result, expected);
}

#[test]
fn test_matrix_test_matrix_components1_3x4() {
    let matrix = Matrix3x4::new(
        1_i32,  2_i32,  3_i32,
        4_i32,  5_i32,  6_i32,
        7_i32,  8_i32,  9_i32,
        10_i32, 11_i32, 12_i32
    );

    assert_eq!(matrix[0][0], 1_i32);
    assert_eq!(matrix[0][1], 2_i32);
    assert_eq!(matrix[0][2], 3_i32);
    assert_eq!(matrix[1][0], 4_i32);
    assert_eq!(matrix[1][1], 5_i32);
    assert_eq!(matrix[1][2], 6_i32);
    assert_eq!(matrix[2][0], 7_i32);
    assert_eq!(matrix[2][1], 8_i32);
    assert_eq!(matrix[2][2], 9_i32);
    assert_eq!(matrix[3][0], 10_i32);
    assert_eq!(matrix[3][1], 11_i32);
    assert_eq!(matrix[3][2], 12_i32);
}

#[test]
fn test_matrix_test_matrix_components2_3x4() {
    let matrix = Matrix3x4::new(
        1_i32,  2_i32,  3_i32,
        4_i32,  5_i32,  6_i32,
        7_i32,  8_i32,  9_i32,
        10_i32, 11_i32, 12_i32
    );

    assert_eq!(matrix.c0.x, matrix[0][0]);
    assert_eq!(matrix.c0.y, matrix[0][1]);
    assert_eq!(matrix.c0.z, matrix[0][2]);
    assert_eq!(matrix.c1.x, matrix[1][0]);
    assert_eq!(matrix.c1.y, matrix[1][1]);
    assert_eq!(matrix.c1.z, matrix[1][2]);
    assert_eq!(matrix.c2.x, matrix[2][0]);
    assert_eq!(matrix.c2.y, matrix[2][1]);
    assert_eq!(matrix.c2.z, matrix[2][2]);
    assert_eq!(matrix.c3.x, matrix[3][0]);
    assert_eq!(matrix.c3.y, matrix[3][1]);
    assert_eq!(matrix.c3.z, matrix[3][2]);
}

#[test]
fn test_matrix_test_matrix_times_identity_equals_matrix_3x4() {
    let matrix = Matrix3x4::new(
        1_i32,  2_i32,  3_i32,
        4_i32,  5_i32,  6_i32,
        7_i32,  8_i32,  9_i32,
        10_i32, 11_i32, 12_i32
    );
    let identity = Matrix4x4::identity();

    assert_eq!(matrix * identity, matrix);
}

#[test]
fn test_matrix_test_matrix_times_zero_equals_zero_3x4() {
    let matrix = Matrix3x4::new(
        33_i32,  54_i32, 234_i32,
        19_i32,  5_i32,  308_i32,
        793_i32, 23_i32, 8_i32,
        49_i32,  11_i32, 27_i32
    );
    let zero_matrix4x4 = Matrix4x4::zero();
    let zero_matrix3x4 = Matrix3x4::zero();

    assert_eq!(matrix * zero_matrix4x4, zero_matrix3x4);
}

#[test]
fn test_matrix_test_zero_matrix_times_matrix_equals_zero() {
    let matrix = Matrix3x4::new(
        33_i32,  54_i32, 234_i32,
        19_i32,  5_i32,  308_i32,
        793_i32, 23_i32, 8_i32,
        49_i32,  11_i32, 27_i32
    );
    let zero_matrix3x3: Matrix3x3<i32> = Matrix3x3::zero();
    let zero_matrix3x4: Matrix3x4<i32> = Matrix3x4::zero();

    assert_eq!(zero_matrix3x3 * matrix, zero_matrix3x4);
}

#[test]
fn test_matrix_test_zero_times_matrix_equals_zero_3x4() {
    let matrix = Matrix3x4::new(
        33_i32,  54_i32, 234_i32,
        19_i32,  5_i32,  308_i32,
        793_i32, 23_i32, 8_i32,
        49_i32,  11_i32, 27_i32
    );
    let zero = 0_i32;
    let zero_matrix3x4 = Matrix3x4::zero();

    assert_eq!(zero * matrix, zero_matrix3x4);
}

#[test]
fn test_matrix_test_matrix_multiplication1_3x4() {
    let matrix3x4 = Matrix3x4::new(
        2_i32,  3_i32,  4_i32,
        5_i32,  6_i32,  7_i32,
        8_i32,  9_i32,  10_i32,
        11_i32, 12_i32, 13_i32
    );
    let matrix4x4 = Matrix4x4::new(
        1_i32,  2_i32,  3_i32,  4_i32,
        5_i32,  6_i32,  7_i32,  8_i32,
        9_i32,  10_i32, 11_i32, 12_i32,
        13_i32, 14_i32, 15_i32, 16_i32
    );
    let expected = Matrix3x4::new(
        80_i32,  90_i32,  100_i32,
        184_i32, 210_i32, 236_i32,
        288_i32, 330_i32, 372_i32,
        392_i32, 450_i32, 508_i32
    );
    let result = matrix3x4 * matrix4x4;

    assert_eq!(result, expected);
}

#[test]
fn test_matrix_test_matrix_multiplication2_3x4() {
    let matrix3x4 = Matrix3x4::new(
        4_i32,  5_i32,  6_i32,
        7_i32,  8_i32,  9_i32,
        10_i32, 11_i32, 12_i32,
        13_i32, 14_i32, 15_i32
    );
    let vector = Vector4::new(9_i32, 6_i32, -12_i32, -24_i32);
    let expected = Vector3::new(-354_i32, -375_i32, -396_i32);
    let result = matrix3x4 * vector;

    assert_eq!(result, expected);
}

#[test]
fn test_matrix_test_matrix_multiplication3_3x4() {
    let matrix3x4 = Matrix3x4::new(
        2_i32,  3_i32,  4_i32,
        5_i32,  6_i32,  7_i32,
        8_i32,  9_i32,  10_i32,
        11_i32, 12_i32, 13_i32
    );
    let matrix4x3 = Matrix4x3::new(
        9_i32, -6_i32,  12_i32, 4_i32,
        35_i32,	96_i32,	27_i32, 4_i32,
        87_i32,	8_i32,  80_i32, 70_i32
    );
    let expected = Matrix3x3::new(
        128_i32,  147_i32,  166_i32,
        810_i32,  972_i32,  1134_i32,
        1624_i32, 1869_i32, 2114_i32
    );
    let result = matrix3x4 * matrix4x3;

    assert_eq!(result, expected);
}

#[test]
fn test_matrix_test_matrix_scalar_multiplication_3x4() {
    let matrix3x4 = Matrix3x4::new(
        1_i32,  2_i32,  3_i32,
        4_i32,  5_i32,  6_i32,
        7_i32,  8_i32,  9_i32,
        10_i32, 11_i32, 12_i32
    );
    let scalar = 13_i32;
    let expected = Matrix3x4::new(
        13_i32,  26_i32,  39_i32,
        52_i32,  65_i32,  78_i32,
        91_i32,  104_i32, 117_i32,
        130_i32, 143_i32, 156_i32
    );
    let result = matrix3x4 * scalar;

    assert_eq!(result, expected);
}

#[test]
fn test_matrix_test_scalar_matrix_multiplication_3x4() {
    let matrix3x4 = Matrix3x4::new(
        1_i32,  2_i32,  3_i32,
        4_i32,  5_i32,  6_i32,
        7_i32,  8_i32,  9_i32,
        10_i32, 11_i32, 12_i32
    );
    let scalar = 13_i32;
    let expected = Matrix3x4::new(
        13_i32,  26_i32,  39_i32,
        52_i32,  65_i32,  78_i32,
        91_i32,  104_i32, 117_i32,
        130_i32, 143_i32, 156_i32
    );
    let result = scalar * matrix3x4;

    assert_eq!(result, expected);
}

#[test]
fn test_matrix_test_matrix_plus_zero_equals_matrix_3x4() {
    let zero_matrix3x4 = Matrix3x4::zero();
    let matrix = Matrix3x4::new(
        3684_i32, 42746_i32, 2389_i32,
        345_i32,  546_i32,   234_i32,
        76_i32,   167_i32,   890_i32,
        415_i32,  251_i32,   2340_i32
    );

    assert_eq!(matrix + zero_matrix3x4, matrix);
}

#[test]
fn test_matrix_test_zero_plus_matrix_equals_matrix_3x4() {
    let zero_matrix3x4 = Matrix3x4::zero();
    let matrix = Matrix3x4::new(
        3684_i32, 42746_i32, 2389_i32,
        345_i32,  546_i32,   234_i32,
        76_i32,   167_i32,   890_i32,
        415_i32,  251_i32,   2340_i32
    );

    assert_eq!(zero_matrix3x4 + matrix, matrix);
}

#[test]
fn test_matrix_test_addition_3x4() {
    let matrix1 = Matrix3x4::new(
        23_i32,  76_i32,  45_i32,
        89_i32,  34_i32, -21_i32,
        324_i32, 75_i32, -204_i32,
        614_i32, 15_i32,  98_i32
    );
    let matrix2 = Matrix3x4::new(
        1_i32,  5_i32,  23_i32,
        9_i32,  13_i32, 80_i32,
        17_i32, 21_i32, 3_i32,
        87_i32, 41_i32, 34_i32
    );
    let expected = Matrix3x4::new(
        24_i32,  81_i32,  68_i32,
        98_i32,  47_i32,  59_i32,
        341_i32, 96_i32, -201_i32,
        701_i32, 56_i32,  132_i32
    );
    let result = matrix1 + matrix2;

    assert_eq!(result, expected);
}

#[test]
fn test_matrix_test_subtraction_3x4() {
    let matrix1 = Matrix3x4::new(
        3_i32,  6_i32,  9_i32,
        9_i32,  12_i32, 12_i32,
        15_i32, 18_i32, 15_i32,
        21_i32, 24_i32, 18_i32
    );
    let matrix2 = Matrix3x4::new(
        1_i32,   15_i32, 10_i32,
        29_i32,  6_i32,  71_i32,
        234_i32, 93_i32, 67_i32,
        93_i32,  7_i32,  91_i32
    );
    let expected = Matrix3x4::new(
         2_i32,   -9_i32,  -1_i32,
        -20_i32,   6_i32,  -59_i32,
        -219_i32, -75_i32, -52_i32,
        -72_i32,   17_i32, -73_i32
    );
    let result = matrix1 - matrix2;

    assert_eq!(result, expected);
}

#[test]
fn test_matrix_test_matrix_minus_matrix_is_zero_3x4() {
    let matrix = Matrix3x4::new(
        3_i32,  6_i32,  9_i32,
        9_i32,  12_i32, 15_i32,
        15_i32, 18_i32, 21_i32,
        21_i32, 24_i32, 27_i32
    );
    let zero_matrix3x4 = Matrix3x4::zero();

    assert_eq!(matrix - matrix, zero_matrix3x4);
}

#[test]
fn test_matrix_test_matrix_transpose_3x4() {
    let matrix = Matrix3x4::new(
        1_i32, 2_i32, 3_i32,
        3_i32, 4_i32, 6_i32,
        5_i32, 6_i32, 9_i32,
        7_i32, 8_i32, 12_i32
    );
    let expected = Matrix4x3::new(
        1_i32, 3_i32, 5_i32, 7_i32,
        2_i32, 4_i32, 6_i32, 8_i32,
        3_i32, 6_i32, 9_i32, 12_i32
    );
    let result = matrix.transpose();

    assert_eq!(result, expected);
}

#[test]
fn test_matrix_test_construction_from_cols_3x4() {
    let c0 = Vector3::new(1_i32,  2_i32,  3_i32);
    let c1 = Vector3::new(4_i32,  5_i32,  6_i32);
    let c2 = Vector3::new(7_i32,  8_i32,  9_i32);
    let c3 = Vector3::new(10_i32, 11_i32, 12_i32);
    let columns = [c0, c1, c2, c3];
    let expected = Matrix3x4::new(
        1_i32,  2_i32,  3_i32,
        4_i32,  5_i32,  6_i32,
        7_i32,  8_i32,  9_i32,
        10_i32, 11_i32, 12_i32
    );
    let result = Matrix3x4::from_columns(&columns);

    assert_eq!(result, expected);
}

#[test]
fn test_matrix_test_construction_from_rows_3x4() {
    let r0 = Vector4::new(1_i32, 2_i32,  3_i32,  4_i32);
    let r1 = Vector4::new(5_i32, 6_i32,  7_i32,  8_i32);
    let r2 = Vector4::new(9_i32, 10_i32, 11_i32, 12_i32);
    let rows = [r0, r1, r2];
    let expected = Matrix3x4::new(
        1_i32, 5_i32, 9_i32,
        2_i32, 6_i32, 10_i32,
        3_i32, 7_i32, 11_i32,
        4_i32, 8_i32, 12_i32
    );
    let result = Matrix3x4::from_rows(&rows);

    assert_eq!(result, expected);
}

#[test]
fn test_matrix_test_matrix_components1_4x3() {
    let matrix = Matrix4x3::new(
        1_i32, 2_i32,  3_i32,  4_i32,
        5_i32, 6_i32,  7_i32,  8_i32,
        9_i32, 10_i32, 11_i32, 12_i32
    );

    assert_eq!(matrix[0][0], 1_i32);
    assert_eq!(matrix[0][1], 2_i32);
    assert_eq!(matrix[0][2], 3_i32);
    assert_eq!(matrix[0][3], 4_i32);
    assert_eq!(matrix[1][0], 5_i32);
    assert_eq!(matrix[1][1], 6_i32);
    assert_eq!(matrix[1][2], 7_i32);
    assert_eq!(matrix[1][3], 8_i32);
    assert_eq!(matrix[2][0], 9_i32);
    assert_eq!(matrix[2][1], 10_i32);
    assert_eq!(matrix[2][2], 11_i32);
    assert_eq!(matrix[2][3], 12_i32);
}

#[test]
fn test_matrix_test_matrix_components2_4x3() {
    let matrix = Matrix4x3::new(
        1_i32, 2_i32,  3_i32,  4_i32,
        5_i32, 6_i32,  7_i32,  8_i32,
        9_i32, 10_i32, 11_i32, 12_i32
    );

    assert_eq!(matrix.c0.x, matrix[0][0]);
    assert_eq!(matrix.c0.y, matrix[0][1]);
    assert_eq!(matrix.c0.z, matrix[0][2]);
    assert_eq!(matrix.c0.w, matrix[0][3]);
    assert_eq!(matrix.c1.x, matrix[1][0]);
    assert_eq!(matrix.c1.y, matrix[1][1]);
    assert_eq!(matrix.c1.z, matrix[1][2]);
    assert_eq!(matrix.c1.w, matrix[1][3]);
    assert_eq!(matrix.c2.x, matrix[2][0]);
    assert_eq!(matrix.c2.y, matrix[2][1]);
    assert_eq!(matrix.c2.z, matrix[2][2]);
    assert_eq!(matrix.c2.w, matrix[2][3]);
}

#[test]
fn test_matrix_test_matrix_times_identity_equals_matrix_4x3() {
    let matrix = Matrix4x3::new(
        2_i32,  3_i32,  4_i32,  5_i32,
        6_i32,  7_i32,  8_i32,  9_i32,
        10_i32, 11_i32, 12_i32, 13_i32
    );
    let identity = Matrix3x3::identity();

    assert_eq!(matrix * identity, matrix);
}

#[test]
fn test_matrix_test_matrix_times_zero_equals_zero_4x3() {
    let matrix = Matrix4x3::new(
        33_i32, 54_i32,  19_i32, 345_i32,
        5_i32,  793_i32, 23_i32, 324_i32,
        23_i32, 98_i32,  84_i32, 89_i32
    );
    let zero_matrix3x3 = Matrix3x3::zero();
    let zero_matrix4x3 = Matrix4x3::zero();

    assert_eq!(matrix * zero_matrix3x3, zero_matrix4x3);
}

#[test]
fn test_matrix_test_zero_times_matrix_equals_zero_4x3() {
    let matrix = Matrix4x3::new(
        33_i32, 54_i32,  19_i32, 29_i32,
        5_i32,  234_i32, 98_i32, 7_i32,
        23_i32, 98_i32,  84_i32, 89_i32
    );
    let zero = 0_i32;
    let zero_matrix4x3 = Matrix4x3::zero();

    assert_eq!(zero * matrix, zero_matrix4x3);
}

#[test]
fn test_matrix_test_matrix_multiplication1_4x3() {
    let matrix4x3 = Matrix4x3::new(
        2_i32, 3_i32,  4_i32,  5_i32,
        5_i32, 6_i32,  7_i32,  8_i32,
        9_i32, 10_i32, 11_i32, 12_i32
    );
    let matrix3x3 = Matrix3x3::new(
        1_i32, 2_i32, 3_i32,
        4_i32, 5_i32, 6_i32,
        7_i32, 8_i32, 9_i32
    );
    let expected = Matrix4x3::new(
        39_i32,  45_i32,  51_i32,  57_i32,
        87_i32,  102_i32, 117_i32, 132_i32,
        135_i32, 159_i32, 183_i32, 207_i32
    );
    let result = matrix4x3 * matrix3x3;

    assert_eq!(result, expected);
}

#[test]
fn test_matrix_test_matrix_multiplication2_4x3() {
    let matrix4x3 = Matrix4x3::new(
        2_i32, 3_i32, 4_i32,  5_i32,
        5_i32, 6_i32, 7_i32,  8_i32,
        8_i32, 9_i32, 10_i32, 11_i32
    );
    let matrix3x4 = Matrix3x4::new(
        1_i32,  2_i32,  3_i32,
        4_i32,  5_i32,  6_i32,
        7_i32,  8_i32,  9_i32,
        10_i32, 11_i32, 12_i32
    );
    let expected = Matrix4x4::new(
        36_i32,  42_i32,  48_i32,  54_i32,
        81_i32,  96_i32,  111_i32, 126_i32,
        126_i32, 150_i32, 174_i32, 198_i32,
        171_i32, 204_i32, 237_i32, 270_i32
    );
    let result = matrix4x3 * matrix3x4;

    assert_eq!(result, expected);
}

#[test]
fn test_matrix_test_matrix_multiplication3_4x3() {
    let matrix4x3 = Matrix4x3::new(
        4_i32,  5_i32,  6_i32,  7_i32,
        8_i32,  9_i32,  10_i32, 11_i32,
        12_i32, 13_i32, 14_i32, 15_i32
    );
    let vector = Vector3::new(9_i32, -6_i32, 34_i32);
    let expected = Vector4::new(396_i32, 433_i32, 470_i32, 507_i32);
    let result = matrix4x3 * vector;

    assert_eq!(result, expected);
}

#[test]
fn test_matrix_test_matrix_scalar_multiplication_4x3() {
    let matrix4x3 = Matrix4x3::new(
        1_i32, 2_i32,  3_i32,  4_i32,
        4_i32, 5_i32,  7_i32,  8_i32,
        9_i32, 10_i32, 11_i32, 12_i32
    );
    let scalar = 13_i32;
    let expected = Matrix4x3::new(
        13_i32,  26_i32,  39_i32,  52_i32,
        52_i32,  65_i32,  91_i32,  104_i32,
        117_i32, 130_i32, 143_i32, 156_i32
    );
    let result = matrix4x3 * scalar;

    assert_eq!(result, expected);
}

#[test]
fn test_matrix_test_scalar_matrix_multiplication_4x3() {
    let matrix4x3 = Matrix4x3::new(
        1_i32, 2_i32,  3_i32,  4_i32,
        4_i32, 5_i32,  7_i32,  8_i32,
        9_i32, 10_i32, 11_i32, 12_i32
    );
    let scalar = 13_i32;
    let expected = Matrix4x3::new(
        13_i32,  26_i32,  39_i32,  52_i32,
        52_i32,  65_i32,  91_i32,  104_i32,
        117_i32, 130_i32, 143_i32, 156_i32
    );
    let result = scalar * matrix4x3;

    assert_eq!(result, expected);
}

#[test]
fn test_matrix_test_matrix_plus_zero_equals_matrix_4x3() {
    let zero_matrix4x3 = Matrix4x3::zero();
    let matrix = Matrix4x3::new(
        3684_i32, 42746_i32, 345_i32, 456_i32,
        546_i32,  76_i32,    167_i32, 915_i32,
        320_i32,  2430_i32,  894_i32, 324_i32
    );

    assert_eq!(matrix + zero_matrix4x3, matrix);
}

#[test]
fn test_matrix_test_zero_plus_matrix_equals_matrix_4x3() {
    let zero_matrix4x3 = Matrix4x3::zero();
    let matrix = Matrix4x3::new(
        3684_i32, 42746_i32, 345_i32, 456_i32,
        546_i32,  76_i32,    167_i32, 915_i32,
        320_i32,  2430_i32,  894_i32, 324_i32
    );

    assert_eq!(zero_matrix4x3 + matrix, matrix);
}

#[test]
fn test_matrix_test_addition_4x3() {
    let matrix1 = Matrix4x3::new(
        23_i32, 76_i32,  89_i32, 11_i32,
        34_i32, 324_i32, 75_i32, 62_i32,
        88_i32, 61_i32,  45_i32, 16_i32
    );
    let matrix2 = Matrix4x3::new(
        1_i32,  5_i32,  9_i32,  82_i32,
        13_i32, 17_i32, 21_i32, 6_i32,
        29_i32, 91_i32, 64_i32, 43_i32
    );
    let expected = Matrix4x3::new(
        24_i32,  81_i32,  98_i32,  93_i32,
        47_i32,  341_i32, 96_i32,  68_i32,
        117_i32, 152_i32, 109_i32, 59_i32
    );
    let result = matrix1 + matrix2;

    assert_eq!(result, expected);
}

#[test]
fn test_matrix_test_subtraction_4x3() {
    let matrix1 = Matrix4x3::new(
        3_i32,  6_i32,  9_i32,  65_i32,
        12_i32, 15_i32, 18_i32, 333_i32,
        28_i32, 71_i32, 4_i32,  92_i32
    );
    let matrix2 = Matrix4x3::new(
        1_i32, 15_i32,  29_i32, 27_i32,
        6_i32, 234_i32, 93_i32, 38_i32,
        74_i32, 97_i32, 10_i32, 100_i32
    );
    let expected = Matrix4x3::new(
         2_i32,  -9_i32,   -20_i32,  38_i32,
         6_i32,  -219_i32, -75_i32,  295_i32,
        -46_i32, -26_i32,  -6_i32,  -8_i32
    );
    let result = matrix1 - matrix2;

    assert_eq!(result, expected);
}

#[test]
fn test_matrix_test_matrix_minus_matrix_is_zero_4x3() {
    let matrix = Matrix4x3::new(
        3_i32,  6_i32,  9_i32,  12_i32,
        12_i32, 15_i32, 18_i32, 21_i32,
        34_i32, 17_i32, 8_i32,  84_i32
    );
    let zero_matrix4x3 = Matrix4x3::zero();

    assert_eq!(matrix - matrix, zero_matrix4x3);
}

#[test]
fn test_matrix_test_transpose() {
    let matrix = Matrix4x3::new(
        1_i32, 2_i32,  3_i32,  4_i32,
        5_i32, 6_i32,  7_i32,  8_i32,
        9_i32, 10_i32, 11_i32, 12_i32
    );
    let expected = Matrix3x4::new(
        1_i32, 5_i32, 9_i32,
        2_i32, 6_i32, 10_i32,
        3_i32, 7_i32, 11_i32,
        4_i32, 8_i32, 12_i32
    );
    let result = matrix.transpose();

    assert_eq!(result, expected);
}

#[test]
fn test_matrix_test_construction_from_cols_4x3() {
    let c0 = Vector4::new(1_i32, 2_i32,  3_i32,  4_i32);
    let c1 = Vector4::new(5_i32, 6_i32,  7_i32,  8_i32);
    let c2 = Vector4::new(9_i32, 10_i32, 11_i32, 12_i32);
    let columns = [c0, c1, c2];
    let expected = Matrix4x3::new(
        1_i32, 2_i32,  3_i32,  4_i32,
        5_i32, 6_i32,  7_i32,  8_i32,
        9_i32, 10_i32, 11_i32, 12_i32
    );
    let result = Matrix4x3::from_columns(&columns);

    assert_eq!(result, expected);
}

#[test]
fn test_matrix_test_construction_from_rows_4x3() {
    let r0 = Vector3::new(1_i32,  2_i32,  3_i32);
    let r1 = Vector3::new(4_i32,  5_i32,  6_i32);
    let r2 = Vector3::new(7_i32,  8_i32,  9_i32);
    let r3 = Vector3::new(10_i32, 11_i32, 12_i32);
    let rows = [r0, r1, r2, r3];
    let expected = Matrix4x3::new(
        1_i32, 4_i32, 7_i32, 10_i32,
        2_i32, 5_i32, 8_i32, 11_i32,
        3_i32, 6_i32, 9_i32, 12_i32
    );
    let result = Matrix4x3::from_rows(&rows);

    assert_eq!(result, expected);
}
