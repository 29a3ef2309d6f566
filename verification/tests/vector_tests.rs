use cglinalg::scalar::{Scalar, ScalarFloat, ScalarSigned};
use cglinalg::vector::{Vector1, Vector2, Vector3, Vector4};

/// A single-precision number as a scalar of the library.
#[derive(Clone, Copy, Debug, PartialEq, PartialOrd, Default)]
struct F32(f32);

impl Scalar for F32 {
    fn zero_spec() -> Self {
        F32(0_f32)
    }

    fn one_spec() -> Self {
        F32(1_f32)
    }

    fn can_add(self, _rhs: Self) -> bool {
        true
    }

    fn plus(self, rhs: Self) -> Self {
        F32(self.0 + rhs.0)
    }

    fn can_sub(self, _rhs: Self) -> bool {
        true
    }

    fn minus(self, rhs: Self) -> Self {
        F32(self.0 - rhs.0)
    }

    fn can_mul(self, _rhs: Self) -> bool {
        true
    }

    fn times(self, rhs: Self) -> Self {
        F32(self.0 * rhs.0)
    }

    fn can_div(self, _rhs: Self) -> bool {
        true
    }

    fn over(self, rhs: Self) -> Self {
        F32(self.0 / rhs.0)
    }

    fn can_rem(self, _rhs: Self) -> bool {
        true
    }

    fn modulo(self, rhs: Self) -> Self {
        F32(self.0 % rhs.0)
    }

    fn same(self, rhs: Self) -> bool {
        self.0 == rhs.0
    }

    fn less(self, rhs: Self) -> bool {
        self.0 < rhs.0
    }

    fn zero() -> Self {
        F32(0_f32)
    }

    fn one() -> Self {
        F32(1_f32)
    }

    fn add(self, rhs: Self) -> Self {
        F32(self.0 + rhs.0)
    }

    fn sub(self, rhs: Self) -> Self {
        F32(self.0 - rhs.0)
    }

    fn mul(self, rhs: Self) -> Self {
        F32(self.0 * rhs.0)
    }

    fn div(self, rhs: Self) -> Self {
        F32(self.0 / rhs.0)
    }

    fn rem(self, rhs: Self) -> Self {
        F32(self.0 % rhs.0)
    }

    fn equals(self, rhs: Self) -> bool {
        self.0 == rhs.0
    }

    fn less_than(self, rhs: Self) -> bool {
        self.0 < rhs.0
    }
}

impl ScalarSigned for F32 {
    fn can_neg(self) -> bool {
        true
    }

    fn negated(self) -> Self {
        F32(-self.0)
    }

    fn neg(self) -> Self {
        F32(-self.0)
    }
}

impl ScalarFloat for F32 {
    fn root(self) -> Self {
        F32(self.0.sqrt())
    }

    fn sine(self) -> Self {
        F32(self.0.sin())
    }

    fn cosine(self) -> Self {
        F32(self.0.cos())
    }

    fn tangent(self) -> Self {
        F32(self.0.tan())
    }

    fn sqrt(self) -> Self {
        F32(self.0.sqrt())
    }

    fn sin(self) -> Self {
        F32(self.0.sin())
    }

    fn cos(self) -> Self {
        F32(self.0.cos())
    }

    fn tan(self) -> Self {
        F32(self.0.tan())
    }
}

impl std::ops::Add for F32 {
    type Output = F32;

    fn add(self, rhs: F32) -> F32 {
        F32(self.0 + rhs.0)
    }
}

impl std::ops::Sub for F32 {
    type Output = F32;

    fn sub(self, rhs: F32) -> F32 {
        F32(self.0 - rhs.0)
    }
}

impl std::ops::Mul for F32 {
    type Output = F32;

    fn mul(self, rhs: F32) -> F32 {
        F32(self.0 * rhs.0)
    }
}

impl std::ops::Div for F32 {
    type Output = F32;

    fn div(self, rhs: F32) -> F32 {
        F32(self.0 / rhs.0)
    }
}

impl std::ops::Neg for F32 {
    type Output = F32;

    fn neg(self) -> F32 {
        F32(-self.0)
    }
}

impl std::ops::Mul<Vector1<F32>> for F32 {
    type Output = Vector1<F32>;

    fn mul(self, other: Vector1<F32>) -> Vector1<F32> {
        other.scale_left(self)
    }
}

impl std::ops::Mul<Vector2<F32>> for F32 {
    type Output = Vector2<F32>;

    fn mul(self, other: Vector2<F32>) -> Vector2<F32> {
        other.scale_left(self)
    }
}

impl std::ops::Mul<Vector3<F32>> for F32 {
    type Output = Vector3<F32>;

    fn mul(self, other: Vector3<F32>) -> Vector3<F32> {
        other.scale_left(self)
    }
}

impl std::ops::Mul<Vector4<F32>> for F32 {
    type Output = Vector4<F32>;

    fn mul(self, other: Vector4<F32>) -> Vector4<F32> {
        other.scale_left(self)
    }
}

struct TestCase1 {
    c: F32,
    v1: Vector1<F32>,
    v2: Vector1<F32>,
}

fn test_cases1() -> Vec<TestCase1> {
    vec![
        TestCase1 { c: F32(802.3435169), v1: Vector1::from(F32(-23.43)), v2: Vector1::from(F32(426.1)) },
        TestCase1 { c: F32(33.249539), v1: Vector1::from(F32(27.6189)), v2: Vector1::from(F32(258.083)) },
        TestCase1 { c: F32(7.04217), v1: Vector1::from(F32(0.0)), v2: Vector1::from(F32(0.0)) },
    ]
}

struct TestCase2 {
    c: F32,
    v1: Vector2<F32>,
    v2: Vector2<F32>,
}

fn test_cases2() -> Vec<TestCase2> {
    vec![
        TestCase2 { c: F32(802.3435169), v1: Vector2::from((F32(80.0), F32(43.569))), v2: Vector2::from((F32(6.741), F32(23.5724))) },
        TestCase2 { c: F32(33.249539), v1: Vector2::from((F32(27.6189), F32(4.2219))), v2: Vector2::from((F32(258.083), F32(42.17))) },
        TestCase2 { c: F32(7.04217), v1: Vector2::from((F32(70.0), F32(49.0))), v2: Vector2::from((F32(89.9138), F32(427.46894))) },
        TestCase2 { c: F32(61.891390), v1: Vector2::from((F32(8827.1983), F32(56.31))), v2: Vector2::from((F32(89.0), F32(936.5))) },
    ]
}

struct TestCase3 {
    c: F32,
    x: Vector3<F32>,
    y: Vector3<F32>,
}

fn test_cases3() -> Vec<TestCase3> {
    vec![
        TestCase3 {
            c: F32(802.3435169),
            x: Vector3::from((F32(80.0), F32(23.43), F32(43.569))),
            y: Vector3::from((F32(6.741), F32(426.1), F32(23.5724))),
        },
        TestCase3 {
            c: F32(33.249539),
            x: Vector3::from((F32(27.6189), F32(13.90), F32(4.2219))),
            y: Vector3::from((F32(258.083), F32(31.70), F32(42.17))),
        },
        TestCase3 {
            c: F32(7.04217),
            x: Vector3::from((F32(70.0), F32(49.0), F32(95.0))),
            y: Vector3::from((F32(89.9138), F32(36.84), F32(427.46894))),
        },
        TestCase3 {
            c: F32(61.891390),
            x: Vector3::from((F32(8827.1983), F32(89.5049494), F32(56.31))),
            y: Vector3::from((F32(89.0), F32(72.0), F32(936.5))),
        },
    ]
}

struct TestCase4 {
    c: F32,
    v1: Vector4<F32>,
    v2: Vector4<F32>,
}

fn test_cases4() -> Vec<TestCase4> {
    vec![
        TestCase4 {
            c: F32(802.3435169),
            v1: Vector4::from((F32(80.0), F32(23.43), F32(43.569), F32(69.9093))),
            v2: Vector4::from((F32(6.741), F32(426.1), F32(23.5724), F32(85567.75976))),
        },
        TestCase4 {
            c: F32(33.249539),
            v1: Vector4::from((F32(27.6189), F32(13.90), F32(4.2219), F32(91.11955))),
            v2: Vector4::from((F32(258.083), F32(31.70), F32(42.17), F32(8438.2376))),
        },
        TestCase4 {
            c: F32(7.04217),
            v1: Vector4::from((F32(70.0), F32(49.0), F32(95.0), F32(508.5602759))),
            v2: Vector4::from((F32(89.9138), F32(36.84), F32(427.46894), F32(0.5796180917))),
        },
        TestCase4 {
            c: F32(61.891390),
            v1: Vector4::from((F32(8827.1983), F32(89.5049494), F32(56.31), F32(0.2888633714))),
            v2: Vector4::from((F32(89.0), F32(72.0), F32(936.5), F32(0.2888633714))),
        },
    ]
}

#[test]
fn addition() {
    test_cases1().iter().for_each(|test| {
        let expected = Vector1::from(test.v1.x + test.v2.x);
        let result = test.v1 + test.v2;
        assert_eq!(result, expected);
    });
}

#[test]
fn subtraction() {
    test_cases1().iter().for_each(|test| {
        let expected = Vector1::from(test.v1.x + test.v2.x);
        let result = test.v1 + test.v2;
        assert_eq!(result, expected);
    });
}

#[test]
fn scalar_multiplication() {
    test_cases1().iter().for_each(|test| {
        let expected = Vector1::from(test.c * test.v1.x);
        let result = test.v1 * test.c;
        assert_eq!(result, expected);
    });
}

#[test]
fn scalar_division() {
    test_cases1().iter().for_each(|test| {
        let expected = Vector1::from(test.v1.x / test.c);
        let result = test.v1 / test.c;
        assert_eq!(result, expected);
    });
}

#[test]
#[should_panic]
fn out_of_bounds_array_access() {
    let v = Vector1::new(F32(1_f32));
    assert_eq!(v[1], v[1]);
}

#[test]
#[should_panic]
fn vector_out_of_bounds_array_access() {
    let v = Vector2::new(F32(1_f32), F32(2_f32));
    assert_eq!(v[2], v[2]);
}

#[test]
fn test_addition() {
    test_cases2().iter().for_each(|test| {
        let expected = Vector2::from((test.v1.x + test.v2.x, test.v1.y + test.v2.y));
        let result = test.v1 + test.v2;
        assert_eq!(result, expected);
    });
}

#[test]
fn vector_test_addition() {
    test_cases3().iter().for_each(|test| {
        let expected = Vector3::from((test.x.x + test.y.x, test.x.y + test.y.y, test.x.z + test.y.z));
        let result = test.x + test.y;
        assert_eq!(result, expected);
    });
    test_cases4().iter().for_each(|test| {
        let expected = Vector4::from((
            test.v1.x + test.v2.x, test.v1.y + test.v2.y,
            test.v1.z + test.v2.z, test.v1.w + test.v2.w
        ));
        let result = test.v1 + test.v2;
        assert_eq!(result, expected);
    });
}

#[test]
fn test_subtraction() {
    test_cases2().iter().for_each(|test| {
        let expected = Vector2::from((test.v1.x - test.v2.x, test.v1.y - test.v2.y));
        let result = test.v1 - test.v2;
        assert_eq!(result, expected);
    });
}

#[test]
fn vector_test_subtraction() {
    test_cases3().iter().for_each(|test| {
        let expected = Vector3::from((test.x.x - test.y.x, test.x.y - test.y.y, test.x.z - test.y.z));
        let result = test.x - test.y;
        assert_eq!(result, expected);
    });
    test_cases4().iter().for_each(|test| {
        let expected = Vector4::from((
            test.v1.x - test.v2.x, test.v1.y - test.v2.y,
            test.v1.z - test.v2.z, test.v1.w - test.v2.w
        ));
        let result = test.v1 - test.v2;
        assert_eq!(result, expected);
    });
}

#[test]
fn test_scalar_multiplication() {
    test_cases2().iter().for_each(|test| {
        let expected = Vector2::from((test.c * test.v1.x, test.c * test.v1.y));
        let result = test.v1 * test.c;
        assert_eq!(result, expected);
    });
}

#[test]
fn vector_test_scalar_multiplication() {
    test_cases3().iter().for_each(|test| {
        let expected = Vector3::from((test.c * test.x.x, test.c * test.x.y, test.c * test.x.z));
        let result = test.x * test.c;
        assert_eq!(result, expected);
    });
    test_cases4().iter().for_each(|test| {
        let expected = Vector4::from((
            test.c * test.v1.x, test.c * test.v1.y, test.c * test.v1.z, test.c * test.v1.w
        ));
        let result = test.v1 * test.c;
        assert_eq!(result, expected);
    });
}

#[test]
fn test_scalar_division() {
    test_cases2().iter().for_each(|test| {
        let expected = Vector2::from((test.v1.x / test.c, test.v1.y / test.c));
        let result = test.v1 / test.c;
        assert_eq!(result, expected);
    });
}

#[test]
fn vector_test_scalar_division() {
    test_cases3().iter().for_each(|test| {
        let expected = Vector3::from((test.x.x / test.c, test.x.y / test.c, test.x.z / test.c));
        let result = test.x / test.c;
        assert_eq!(result, expected);
    });
    test_cases4().iter().for_each(|test| {
        let expected = Vector4::from((
            test.v1.x / test.c, test.v1.y / test.c, test.v1.z / test.c, test.v1.w / test.c
        ));
        let result = test.v1 / test.c;
        assert_eq!(result, expected);
    });
}

#[test]
fn vector_times_zero_equals_zero() {
    let v = Vector1::new(F32(1_f32));
    assert_eq!(v * F32(0_f32), Vector1::zero());
    let v = Vector2::new(F32(1_f32), F32(2_f32));
    assert_eq!(v * F32(0_f32), Vector2::zero());
}

#[test]
fn vector_vector_times_zero_equals_zero() {
    let v = Vector3::new(F32(1_f32), F32(2_f32), F32(3_f32));
    assert_eq!(v * F32(0_f32), Vector3::zero());
    let v = Vector4::new(F32(1_f32), F32(2_f32), F32(3_f32), F32(4_f32));
    assert_eq!(v * F32(0_f32), Vector4::zero());
}

#[test]
fn zero_times_vector_equals_zero() {
    let v = Vector1::new(F32(1_f32));
    assert_eq!(F32(0_f32) * v, Vector1::zero());
    let v = Vector2::new(F32(1_f32), F32(2_f32));
    assert_eq!(F32(0_f32) * v, Vector2::zero());
}

#[test]
fn vector_zero_times_vector_equals_zero() {
    let v = Vector3::new(F32(1_f32), F32(2_f32), F32(3_f32));
    assert_eq!(F32(0_f32) * v, Vector3::zero());
    let v = Vector4::new(F32(1_f32), F32(2_f32), F32(3_f32), F32(4_f32));
    assert_eq!(F32(0_f32) * v, Vector4::zero());
}

#[test]
fn test_as_ref() {
    let v: Vector1<i32> = Vector1::new(1);
    let v_ref: &[i32; 1] = &v.to_array();
    assert_eq!(v_ref, &[1]);
    let v: Vector2<i32> = Vector2::new(1, 2);
    let v_ref: &[i32; 2] = &v.to_array();
    assert_eq!(v_ref, &[1, 2]);
}

#[test]
fn vector_test_as_ref() {
    let v: Vector3<i32> = Vector3::new(1, 2, 3);
    let v_ref: &[i32; 3] = &v.to_array();
    assert_eq!(v_ref, &[1, 2, 3]);
    let v: Vector4<i32> = Vector4::new(1, 2, 3, 4);
    let v_ref: &[i32; 4] = &v.to_array();
    assert_eq!(v_ref, &[1, 2, 3, 4]);
}

#[test]
fn vector_test_as_mut() {
    let mut v: Vector1<i32> = Vector1::new(1);
    v.set(0, 5);
    assert_eq!(v.x, 5);
    let mut v: Vector2<i32> = Vector2::new(1, 2);
    v.set(0, 5);
    assert_eq!(v.x, 5);
    let mut v: Vector3<i32> = Vector3::new(1, 2, 3);
    v.set(2, 5);
    assert_eq!(v.z, 5);
    let mut v: Vector4<i32> = Vector4::new(1, 2, 3, 4);
    v.set(2, 5);
    assert_eq!(v.z, 5);
}

#[test]
fn test_indexes_and_variables() {
    let v = Vector1::new(1);
    assert_eq!(v[0], v.x);
    let v = Vector2::new(1, 2);
    assert_eq!(v[0], v.x);
    assert_eq!(v[1], v.y);
}

#[test]
fn vector_test_indexes_and_variables() {
    let v = Vector3::new(1, 2, 3);
    assert_eq!(v[0], v.x);
    assert_eq!(v[1], v.y);
    assert_eq!(v[2], v.z);
    let v = Vector4::new(1, 2, 3, 4);
    assert_eq!(v[0], v.x);
    assert_eq!(v[1], v.y);
    assert_eq!(v[2], v.z);
    assert_eq!(v[3], v.w);
}

#[test]
fn test_vector_addition_over_integers_commutative() {
    let v = Vector1::new(2);
    let w = Vector1::new(3);
    assert_eq!(v + w, w + v);
    let v = Vector2::new(2, 3);
    let w = Vector2::new(4, 5);
    assert_eq!(v + w, w + v);
}

#[test]
fn vector_test_vector_addition_over_integers_commutative() {
    let v = Vector3::new(1, 2, 3);
    let w = Vector3::new(4, 5, 6);
    assert_eq!(v + w, w + v);
    let v = Vector4::new(1, 2, 3, 4);
    let w = Vector4::new(5, 6, 7, 8);
    assert_eq!(v + w, w + v);
}

#[test]
fn test_negative_zero_equals_positive_zero() {
    let zero: Vector1<F32> = Vector1::zero();
    assert_eq!(zero, -zero);
    let zero: Vector2<F32> = Vector2::zero();
    assert_eq!(zero, -zero);
}

#[test]
fn vector_test_negative_zero_equals_positive_zero() {
    let zero: Vector3<F32> = Vector3::zero();
    assert_eq!(zero, -zero);
    let zero: Vector4<F32> = Vector4::zero();
    assert_eq!(zero, -zero);
}

#[test]
fn test_zero_vector_zero_magnitude() {
    let zero: Vector1<F32> = Vector1::zero();
    assert_eq!(zero.magnitude(), F32(0_f32));
    let zero: Vector2<F32> = Vector2::zero();
    assert_eq!(zero.magnitude(), F32(0_f32));
}

#[test]
fn vector_test_zero_vector_zero_magnitude() {
    let zero: Vector3<F32> = Vector3::zero();
    assert_eq!(zero.magnitude(), F32(0_f32));
    let zero: Vector4<F32> = Vector4::zero();
    assert_eq!(zero.magnitude(), F32(0_f32));
}

#[test]
fn test_vector_index_matches_component() {
    let v = Vector1::new(1);
    assert_eq!(v.x, v[0]);
    let v = Vector2::new(1, 2);
    assert_eq!(v.x, v[0]);
    assert_eq!(v.y, v[1]);
}

#[test]
fn vector_test_vector_index_matches_component() {
    let v = Vector3::new(1, 2, 3);
    assert_eq!(v.x, v[0]);
    assert_eq!(v.y, v[1]);
    assert_eq!(v.z, v[2]);
    let v = Vector4::new(1, 2, 3, 4);
    assert_eq!(v.x, v[0]);
    assert_eq!(v.y, v[1]);
    assert_eq!(v.z, v[2]);
    assert_eq!(v.w, v[3]);
}
