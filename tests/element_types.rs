use linalg::{dot, mul_transpose_mat, Matrix, Vector};

#[test]
fn signed_sum_and_dot() {
    let a: Vector<i32> = Vector::from_vec(vec![-5, 3, 10, -1]);
    let b: Vector<i32> = Vector::from_vec(vec![2, -2, 1, 7]);
    assert_eq!(a.sum(), 7);
    assert_eq!(dot(&a, &b).unwrap(), -10 - 6 + 10 - 7);
}

#[test]
fn narrow_types_wrap() {
    let a: Vector<u8> = Vector::from_vec(vec![200, 100]);
    assert_eq!(a.sum(), 44);
    assert_eq!(a.add_scalar(100).to_vec(), vec![44, 200]);
    let b: Vector<i8> = Vector::from_vec(vec![127, -128]);
    assert_eq!(b.add_scalar(1).to_vec(), vec![-128, -127]);
    assert_eq!(b.sub_scalar(1).to_vec(), vec![126, 127]);
    let c: Vector<i16> = Vector::from_vec(vec![300, -300]);
    assert_eq!(c.squared().to_vec(), vec![90000i32 as i16, 90000i32 as i16]);
}

#[test]
fn signed_division_truncates_towards_zero() {
    let a: Vector<i64> = Vector::from_vec(vec![7, -7, 7, -7]);
    let b: Vector<i64> = Vector::from_vec(vec![2, 2, -2, -2]);
    assert_eq!(a.div_vec(&b).unwrap().to_vec(), vec![3, -3, -3, 3]);
    assert_eq!(a.div_scalar(3).to_vec(), vec![2, -2, 2, -2]);
}

#[test]
fn other_types_equality_and_products() {
    let a: Vector<u64> = Vector::from_vec(vec![1, 2, 3, 4]);
    let m: Matrix<u64> = Matrix::from_vec(vec![1, 0, 0, 0, 2, 0, 0, 0, 3, 1, 0, 0], 4, 3);
    assert_eq!(a.mul_mat(&m).unwrap(), Vector::from_vec(vec![5u64, 4, 9]));
    let t: Matrix<u64> = Matrix::from_vec(vec![1, 0, 0, 1, 0, 2, 0, 0, 0, 0, 3, 0], 3, 4);
    assert_eq!(mul_transpose_mat(&a, &t).unwrap().to_vec(), vec![5, 4, 9]);
    let x: Matrix<i16> = Matrix::from_vec(vec![1, -2, 3, -4], 2, 2);
    let y: Matrix<i16> = Matrix::from_vec(vec![-1, 0, 0, -1], 2, 2);
    assert_eq!(x.mul_mat(&y).unwrap().to_vec(), vec![-1, 2, -3, 4]);
    assert_ne!(x, y);
    assert_eq!(x, x.clone());
    let u: Vector<u16> = Vector::from_vec(vec![1, 2]);
    assert_ne!(u, Vector::from_vec(vec![1u16, 2, 3]));
}
