use linalg::layout::FormatError;
use linalg::{dot, Matrix, ShapeError, Vector};

type TestType = u32;

#[test]
fn vec_eq() {
    let a: Vector<TestType> = Vector::from_vec(vec![1, 2, 3, 4]);
    let b: Vector<TestType> = Vector::from_vec(vec![1, 2, 3, 5]);
    let c: Vector<TestType> = Vector::from_vec(vec![1, 2, 3]);
    let d: Vector<TestType> = Vector::from_vec(vec![1, 2, 3, 4]);

    assert_eq!(a, a);
    assert_eq!(b, b);

    assert_ne!(a, c);
    assert_ne!(c, a);

    assert_ne!(a, b);
    assert_ne!(b, a);

    assert_eq!(a, d);
    assert_eq!(d, a);
}

#[test]
fn vec_sum() {
    for size in &[1, 2, 8, 16, 64, 128, 971] {
        let rng = 0..*size;

        let a: TestType = rng.clone().sum();
        let b: TestType = Vector::from_vec(rng.collect()).sum();

        assert_eq!(a, b);
    }
}

#[test]
fn vec_vec_dot() {
    let rng_a = 1..971;
    let rng_b = (3..973).rev();

    let a: TestType = rng_a.clone().zip(rng_b.clone()).map(|(a, b)| a * b).sum();

    let b: TestType = dot(&Vector::from_vec(rng_a.collect()), &Vector::from_vec(rng_b.collect())).unwrap();

    assert_eq!(a, b);
}

#[test]
fn vec_add() {
    let a: Vector<TestType> = Vector::from_vec(vec![1, 2, 3, 4]);
    let r: Vector<TestType> = Vector::from_vec(vec![2, 4, 6, 8]);

    let s = a.add_vec(&a).unwrap();

    assert_eq!(r, s);
}

#[test]
fn vec_mul_scl() {
    let a: Vector<TestType> = Vector::from_vec(vec![1, 2, 3, 4]);
    let r: Vector<TestType> = Vector::from_vec(vec![2, 4, 6, 8]);

    let p: Vector<TestType> = a.mul_scalar(2);

    assert_eq!(r, p);
}

#[test]
fn save_load_vec() {
    let a: Vector<TestType> =
        Vector::from_vec(vec![0x01_23_45_67, 0x89_AB_CD_EF, 0xFE_DC_BA_98, 0x76_54_32_10]);
    let bytes = a.to_bytes();

    let (b, _) = Vector::<TestType>::from_bytes(&bytes, 0).unwrap();

    assert_eq!(a, b);
}

#[test]
fn vec_clone() {
    let a: Vector<TestType> = Vector::from_vec(vec![1, 2, 3, 4]);
    let b: Vector<TestType> = Vector::from_vec(vec![1, 2, 3, 5]);
    let c = a.clone();

    assert_eq!(a, c);
    assert_ne!(a, b);
}

#[test]
fn vec_add_scl() {
    let a: Vector<TestType> = Vector::from_vec((0..100).collect());
    let b: Vector<TestType> = Vector::from_vec((0..100).map(|x| x + 10).collect());

    assert_eq!(a.add_scalar(10), b);
}

#[test]
fn vec_sub_scl() {
    let a: Vector<TestType> = Vector::from_vec((10..110).collect());
    let b: Vector<TestType> = Vector::from_vec((10..110).map(|x| x - 10).collect());

    assert_eq!(a.sub_scalar(10), b);
}

#[test]
fn vec_squared() {
    let a: Vector<TestType> = Vector::from_vec((0..100).collect());
    let b: Vector<TestType> = Vector::from_vec((0..100).map(|x| x * x).collect());

    assert_eq!(a.squared(), b);
}

#[test]
fn vec_add_then_sub_gives_back_left_operand() {
    let a: Vector<u32> = Vector::from_vec(vec![0, 7, u32::MAX, 123_456_789]);
    let b: Vector<u32> = Vector::from_vec(vec![5, u32::MAX, 2, 4_000_000_000]);
    let s = a.add_vec(&b).unwrap();
    assert_eq!(s.sub_vec(&b).unwrap(), a);
    assert_eq!(s, b.add_vec(&a).unwrap());
    assert_eq!(s.to_vec(), vec![5, 6, 1, 4_123_456_789u64 as u32]);
}

#[test]
fn vec_ops_wrap_like_device_uint() {
    let a: Vector<u32> = Vector::from_vec(vec![u32::MAX, 0]);
    assert_eq!(a.add_scalar(1).to_vec(), vec![0, 1]);
    assert_eq!(a.sub_scalar(1).to_vec(), vec![u32::MAX - 1, u32::MAX]);
    assert_eq!(a.mul_scalar(2).to_vec(), vec![u32::MAX - 1, 0]);
}

#[test]
fn vec_elementwise_mul_and_div() {
    let a: Vector<u32> = Vector::from_vec(vec![12, 7, 9]);
    let b: Vector<u32> = Vector::from_vec(vec![3, 2, 10]);
    assert_eq!(a.mul_vec(&b).unwrap().to_vec(), vec![36, 14, 90]);
    assert_eq!(a.div_vec(&b).unwrap().to_vec(), vec![4, 3, 0]);
    assert_eq!(a.div_scalar(2).to_vec(), vec![6, 3, 4]);
}

#[test]
fn vec_assign_variants() {
    let b: Vector<u32> = Vector::from_vec(vec![1, 2, 3]);
    let mut a: Vector<u32> = Vector::from_vec(vec![10, 20, 30]);
    a.add_assign_vec(&b).unwrap();
    assert_eq!(a.to_vec(), vec![11, 22, 33]);
    a.sub_assign_vec(&b).unwrap();
    assert_eq!(a.to_vec(), vec![10, 20, 30]);
    a.mul_assign_vec(&b).unwrap();
    assert_eq!(a.to_vec(), vec![10, 40, 90]);
    a.div_assign_vec(&b).unwrap();
    assert_eq!(a.to_vec(), vec![10, 20, 30]);
    a.mul_assign_scalar(3);
    assert_eq!(a.to_vec(), vec![30, 60, 90]);
    a.div_assign_scalar(30);
    assert_eq!(a.to_vec(), vec![1, 2, 3]);
}

#[test]
fn vec_length_mismatch_is_reported() {
    let a: Vector<u32> = Vector::from_vec(vec![1, 2, 3]);
    let b: Vector<u32> = Vector::from_vec(vec![1, 2]);
    let e = ShapeError::LengthMismatch { expected: 3, found: 2 };
    assert_eq!(a.add_vec(&b).unwrap_err(), e);
    assert_eq!(a.sub_vec(&b).unwrap_err(), e);
    assert_eq!(a.mul_vec(&b).unwrap_err(), e);
    assert_eq!(dot(&a, &b).unwrap_err(), e);
    let mut c = a.clone();
    assert_eq!(c.add_assign_vec(&b).unwrap_err(), e);
    assert_eq!(c, a);
}

#[test]
fn vec_sum_of_empty_and_wrapping() {
    let e: Vector<u32> = Vector::from_vec(vec![]);
    assert_eq!(e.sum(), 0);
    let w: Vector<u32> = Vector::from_vec(vec![u32::MAX, 2]);
    assert_eq!(w.sum(), 1);
}

#[test]
fn vec_sum_with_small_launches() {
    let v: Vector<u32> = Vector::from_vec((1..=100).collect());
    for preferred in [1usize, 3, 7, 256, 1000] {
        let params = linalg::KernelParams::from_preferred_size(preferred);
        assert_eq!(v.sum_with(params), 5050);
    }
}

#[test]
fn vec_dot_exact_value() {
    let a: Vector<u32> = Vector::from_vec(vec![1, 2, 3]);
    let b: Vector<u32> = Vector::from_vec(vec![4, 5, 6]);
    assert_eq!(dot(&a, &b).unwrap(), 32);
}

#[test]
fn vec_constructors() {
    let v: Vector<u32> = Vector::new(7, 3);
    assert_eq!(v.to_vec(), vec![7, 7, 7]);
    assert_eq!(v.len(), 3);
    let g: Vector<u32> = Vector::generate(|i| (i * i) as u32, 4);
    assert_eq!(g.to_vec(), vec![0, 1, 4, 9]);
    let u = Vector::<u32>::uninitialized(2);
    assert_eq!(u.len(), 2);
}

#[test]
fn vec_bytes_layout_and_errors() {
    let a: Vector<u32> = Vector::from_vec(vec![0x0102_0304]);
    let bytes = a.to_bytes();
    assert_eq!(
        bytes,
        vec![4, 0, 0, 0, 0, 0, 0, 0, 1, 0, 0, 0, 0, 0, 0, 0, 4, 3, 2, 1]
    );
    let mut short = bytes.clone();
    short.pop();
    assert_eq!(Vector::<u32>::from_bytes(&short, 0).unwrap_err(), FormatError::Truncated);
    let mut long = bytes.clone();
    long.push(0);
    let (v, used) = Vector::<u32>::from_bytes(&long, 0).unwrap();
    assert_eq!((v, used), (a.clone(), 20));
    let mut wide = bytes.clone();
    wide[0] = 8;
    assert_eq!(
        Vector::<u32>::from_bytes(&wide, 0).unwrap_err(),
        FormatError::ElementSizeMismatch { found: 8 }
    );
    let swapped = vec![0, 0, 0, 0, 0, 0, 0, 4];
    assert_eq!(
        Vector::<u32>::from_bytes(&swapped, 0).unwrap_err(),
        FormatError::ElementSizeMismatch { found: 4u64 << 56 }
    );
    assert_eq!(Vector::<u32>::from_bytes(&vec![4, 0], 0).unwrap_err(), FormatError::Truncated);
}

#[test]
fn vec_times_matrix_length_mismatch() {
    let a: Vector<u32> = Vector::from_vec(vec![1, 2]);
    let m: Matrix<u32> = Matrix::from_vec(vec![1, 2, 3, 4, 5, 6], 3, 2);
    assert_eq!(a.mul_mat(&m).unwrap_err(), ShapeError::LengthMismatch { expected: 3, found: 2 });
    assert_eq!(linalg::mul_transpose_mat(&a, &m).unwrap().to_vec(), vec![5, 11, 17]);
}

#[test]
fn vec_records_follow_one_another() {
    let a: Vector<u32> = Vector::from_vec(vec![1, 2, 3]);
    let b: Vector<u32> = Vector::from_vec(vec![40]);
    let mut bytes = a.to_bytes();
    bytes.extend(b.to_bytes());
    let (x, used) = Vector::<u32>::from_bytes(&bytes, 0).unwrap();
    assert_eq!(x, a);
    assert_eq!(used, 28);
    let (y, used2) = Vector::<u32>::from_bytes(&bytes, used).unwrap();
    assert_eq!(y, b);
    assert_eq!(used + used2, bytes.len());
    assert_eq!(Vector::<u32>::from_bytes(&bytes, bytes.len()).unwrap_err(), FormatError::Truncated);
    let header_says_one = vec![4, 0, 0, 0, 0, 0, 0, 0, 1, 0, 0, 0, 0, 0, 0, 0, 9, 0, 0, 0, 7];
    let (z, used3) = Vector::<u32>::from_bytes(&header_says_one, 0).unwrap();
    assert_eq!(z.to_vec(), vec![9]);
    assert_eq!(used3, 20);
}
