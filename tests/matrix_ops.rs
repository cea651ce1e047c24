use linalg::{mul_column_row, mul_transpose_mat, Matrix, ShapeError, Vector};

type TestType = u32;

#[test]
fn mat_eq() {
    let a: Matrix<TestType> = Matrix::from_vec(vec![
        0x0, 0x1, 0x2,
        0x3, 0x4, 0x5,
        0x6, 0x7, 0x8,
        0x9, 0xA, 0xB
    ], 4, 3);

    let b: Matrix<TestType> = Matrix::from_vec(vec![
        0x0, 0x1, 0x2,
        0x3, 0x4, 0x5,
        0x6, 0x7, 0x8,
        0x9, 0xA, 0xC
    ], 4, 3);

    let c: Matrix<TestType> = Matrix::from_vec(vec![
        0x0, 0x1, 0x2, 0x3,
        0x4, 0x5, 0x6, 0x7,
        0x8, 0x9, 0xA, 0xB
    ], 3, 4);

    let d: Matrix<TestType> = Matrix::from_vec(vec![
        0x0, 0x1, 0x2,
        0x3, 0x4, 0x5,
        0x6, 0x7, 0x8,
        0x9, 0xA, 0xB
    ], 4, 3);

    assert_eq!(a, a);
    assert_eq!(b, b);

    assert_ne!(a, c);
    assert_ne!(c, a);

    assert_ne!(a, b);
    assert_ne!(b, a);

    assert_eq!(a, d);
    assert_eq!(d, a);
}

#[test]
fn vec_mat_mul() {
    let a: Vector<TestType> = Vector::from_vec(vec![1, 2, 3, 4]);
    let b: Vector<TestType> = Vector::from_vec(vec![5, 4, 9]);
    let m: Matrix<TestType> = Matrix::from_vec(vec![
        1, 0, 0,
        0, 2, 0,
        0, 0, 3,
        1, 0, 0
    ], 4, 3);

    let p: Vector<TestType> = a.mul_mat(&m).unwrap();
    assert_eq!(p, b);
}

#[test]
fn mat_mat_mul() {
    let a: Matrix<TestType> = Matrix::from_vec(vec![
        1, 2, 3,
        4, 5, 6,
    ], 2, 3);

    let b: Matrix<TestType> = Matrix::from_vec(vec![
        7, 8,
        9, 10,
        11, 12
    ], 3, 2);

    let c: Matrix<TestType> = Matrix::from_vec(vec![
        58, 64,
        139, 154
    ], 2, 2);

    assert_eq!(c, a.mul_mat(&b).unwrap());
}

#[test]
fn vec_transpose_mat_mul() {
    let a: Vector<TestType> = Vector::from_vec(vec![1, 2, 3, 4]);
    let b: Vector<TestType> = Vector::from_vec(vec![5, 4, 9]);
    let m: Matrix<TestType> = Matrix::from_vec(vec![
        1, 0, 0, 1,
        0, 2, 0, 0,
        0, 0, 3, 0
    ], 3, 4);

    let p = mul_transpose_mat(&a, &m).unwrap();
    assert_eq!(p, b);
}

#[test]
fn save_load_mat() {
    let a: Matrix<TestType> = Matrix::from_vec(vec![
        0x01_23_45_67, 0x89_AB_CD_EF, 0x13_57_9B_DF,
        0xFE_DC_BA_98, 0x76_54_32_10, 0x02_46_8A_CE
    ], 2, 3);
    let bytes = a.to_bytes();

    let (b, _) = Matrix::<TestType>::from_bytes(&bytes, 0).unwrap();

    assert_eq!(a, b);
}

#[test]
fn mat_clone() {
    let a: Matrix<TestType> = Matrix::from_vec((0..200).collect(), 10, 20);
    let b: Matrix<TestType> = a.clone();

    assert_eq!(a, b);
}

#[test]
fn mat_identity_product_is_no_op() {
    let a: Matrix<u32> = Matrix::from_vec(vec![1, 2, 3, 4, 5, 6], 2, 3);
    let i3: Matrix<u32> = Matrix::from_vec(vec![1, 0, 0, 0, 1, 0, 0, 0, 1], 3, 3);
    let i2: Matrix<u32> = Matrix::from_vec(vec![1, 0, 0, 1], 2, 2);
    assert_eq!(a.mul_mat(&i3).unwrap(), a);
    assert_eq!(i2.mul_mat(&a).unwrap(), a);
}

#[test]
fn mat_shape_mismatch_is_reported() {
    let a: Matrix<u32> = Matrix::from_vec(vec![1, 2, 3, 4, 5, 6], 2, 3);
    let b: Matrix<u32> = Matrix::from_vec(vec![1, 2, 3, 4], 2, 2);
    let e = ShapeError::DimensionMismatch { left_rows: 2, left_cols: 3, right_rows: 2, right_cols: 2 };
    assert_eq!(a.mul_mat(&b).unwrap_err(), e);
    assert_eq!(a.add_mat(&b).unwrap_err(), e);
    assert_eq!(a.sub_mat(&b).unwrap_err(), e);
    let mut c = a.clone();
    assert_eq!(c.add_assign_mat(&b).unwrap_err(), e);
    assert_eq!(c, a);
}

#[test]
fn mat_elementwise_and_scalar() {
    let a: Matrix<u32> = Matrix::from_vec(vec![1, 2, 3, 4], 2, 2);
    let b: Matrix<u32> = Matrix::from_vec(vec![10, 20, 30, 40], 2, 2);
    assert_eq!(a.add_mat(&b).unwrap().to_vec(), vec![11, 22, 33, 44]);
    assert_eq!(b.sub_mat(&a).unwrap().to_vec(), vec![9, 18, 27, 36]);
    assert_eq!(a.mul_scalar(3).to_vec(), vec![3, 6, 9, 12]);
    assert_eq!(b.div_scalar(10).to_vec(), vec![1, 2, 3, 4]);
    let mut c = a.clone();
    c.add_assign_mat(&b).unwrap();
    assert_eq!(c.to_vec(), vec![11, 22, 33, 44]);
    c.sub_assign_mat(&a).unwrap();
    assert_eq!(c, b);
    c.mul_assign_scalar(2);
    assert_eq!(c.to_vec(), vec![20, 40, 60, 80]);
    assert_eq!(c.len(), (2, 2));
    assert_eq!(c.get_row_count(), 2);
    assert_eq!(c.get_col_count(), 2);
}

#[test]
fn mat_column_times_row() {
    let c: Vector<u32> = Vector::from_vec(vec![1, 2]);
    let r: Vector<u32> = Vector::from_vec(vec![3, 4, 5]);
    let m = mul_column_row(&c, &r);
    assert_eq!(m.len(), (2, 3));
    assert_eq!(m.to_vec(), vec![3, 4, 5, 6, 8, 10]);
}

#[test]
fn mat_constructors() {
    let m: Matrix<u32> = Matrix::new(9, 2, 2);
    assert_eq!(m.to_vec(), vec![9, 9, 9, 9]);
    let g: Matrix<u32> = Matrix::generate(|i| i as u32 + 1, 2, 3);
    assert_eq!(g.to_vec(), vec![1, 2, 3, 4, 5, 6]);
    let u = Matrix::<u32>::uninitialized(3, 2);
    assert_eq!(u.len(), (3, 2));
}

#[test]
fn mat_bytes_layout() {
    let a: Matrix<u32> = Matrix::from_vec(vec![7, 8], 1, 2);
    let bytes = a.to_bytes();
    assert_eq!(bytes.len(), 24 + 8);
    assert_eq!(&bytes[8..24], &[1, 0, 0, 0, 0, 0, 0, 0, 2, 0, 0, 0, 0, 0, 0, 0]);
    let mut long = bytes.clone();
    long.extend_from_slice(&[0, 0, 0, 0, 5]);
    let (m, used) = Matrix::<u32>::from_bytes(&long, 0).unwrap();
    assert_eq!(m, a);
    assert_eq!(used, 32);
    let mut huge = bytes.clone();
    huge[15] = 0xFF;
    assert_eq!(
        Matrix::<u32>::from_bytes(&huge, 0).unwrap_err(),
        linalg::layout::FormatError::Truncated
    );
    let mut short = bytes.clone();
    short.pop();
    assert_eq!(
        Matrix::<u32>::from_bytes(&short, 0).unwrap_err(),
        linalg::layout::FormatError::Truncated
    );
    let mut two = bytes.clone();
    two.extend(bytes.clone());
    let (m2, used2) = Matrix::<u32>::from_bytes(&two, 32).unwrap();
    assert_eq!((m2, used2), (a.clone(), 32));
}
