//! The vector container and its operations, each one launch of a kernel over
//! the vector's elements.
use vstd::prelude::*;

use crate::elementwise::{
    all_defined, all_defined_scalar, equal_elements, scalar_op, with_scalar, with_scalar_in_place, zip_op, zip_with,
    zip_with_in_place, BinaryOp,
};
use crate::error::ShapeError;
use crate::launch::{KernelParams, MAX_WORK_GROUP_SIZE};
use crate::matrix::Matrix;
use crate::product::{vec_mat_cells, vec_mat_product, vec_transpose_product};
use crate::element::Element;
use crate::reduce::{products, reduce, total, values};

verus! {

/// A vector of elements in one buffer, as many as its length.
#[derive(Debug)]
pub struct Vector<T> {
    data: Vec<T>,
}

impl<T> View for Vector<T> {
    type V = Seq<T>;

    closed spec fn view(&self) -> Seq<T> {
        self.data@
    }
}

/// The outcome of an elementwise operation on vectors `a` and `b`: `op` on
/// each pair of elements, or a length mismatch.
pub open spec fn zipped<T: Element>(r: Result<Vector<T>, ShapeError>, op: BinaryOp, a: Seq<T>, b: Seq<T>) -> bool {
    match r {
        Ok(v) => a.len() == b.len() && v@ == zip_op(op, a, b),
        Err(e) => a.len() != b.len() && e == (ShapeError::LengthMismatch {
            expected: a.len() as usize,
            found: b.len() as usize,
        }),
    }
}

/// The outcome of an in-place elementwise operation that turned `before`
/// into `after` with right operand `b`.
pub open spec fn zipped_in_place<T: Element>(
    r: Result<(), ShapeError>,
    op: BinaryOp,
    before: Seq<T>,
    after: Seq<T>,
    b: Seq<T>,
) -> bool {
    match r {
        Ok(()) => before.len() == b.len() && after == zip_op(op, before, b),
        Err(e) => before.len() != b.len() && after == before && e == (ShapeError::LengthMismatch {
            expected: before.len() as usize,
            found: b.len() as usize,
        }),
    }
}

impl<T: Copy> Vector<T> {
    /// A vector of `size` copies of `default_val`.
    pub fn new(default_val: T, size: usize) -> (r: Vector<T>)
        ensures
            r@ == Seq::new(size as nat, |i: int| default_val),
    {
        let mut data: Vec<T> = Vec::with_capacity(size);
        let mut i: usize = 0;
        while i < size
            invariant
                i <= size,
                data.len() == i,
                forall|j: int| 0 <= j < i ==> data[j] == default_val,
            decreases size - i,
        {
            data.push(default_val);
            i = i + 1;
        }
        assert(data@ =~= Seq::new(size as nat, |i: int| default_val));
        Vector { data }
    }

    /// A vector of `size` elements, element `i` written by the work item
    /// `fill(i)`.
    pub fn generate<F: Fn(usize) -> T>(fill: F, size: usize) -> (r: Vector<T>)
        requires
            forall|i: usize| i < size ==> fill.requires((i,)),
        ensures
            r@.len() == size,
            forall|i: int| 0 <= i < size ==> fill.ensures((i as usize,), #[trigger] r@[i]),
    {
        let mut data: Vec<T> = Vec::with_capacity(size);
        let mut i: usize = 0;
        while i < size
            invariant
                i <= size,
                data.len() == i,
                forall|i: usize| i < size ==> fill.requires((i,)),
                forall|j: int| 0 <= j < i ==> fill.ensures((j as usize,), #[trigger] data@[j]),
            decreases size - i,
        {
            let x = fill(i);
            data.push(x);
            i = i + 1;
        }
        Vector { data }
    }

    /// A vector holding the elements of `v`.
    pub fn from_vec(v: Vec<T>) -> (r: Vector<T>)
        ensures
            r@ == v@,
    {
        Vector { data: v }
    }

    /// The elements, copied out.
    pub fn to_vec(&self) -> (r: Vec<T>)
        ensures
            r@ == self@,
    {
        let mut r: Vec<T> = Vec::with_capacity(self.data.len());
        let mut i: usize = 0;
        while i < self.data.len()
            invariant
                i <= self.data.len(),
                r.len() == i,
                forall|j: int| 0 <= j < i ==> r[j] == self.data[j],
            decreases self.data.len() - i,
        {
            r.push(self.data[i]);
            i = i + 1;
        }
        assert(r@ =~= self.data@);
        r
    }

    /// The number of elements.
    pub fn len(&self) -> (r: usize)
        ensures
            r == self@.len(),
    {
        self.data.len()
    }

    pub(crate) fn buffer(&self) -> (r: &Vec<T>)
        ensures
            r@ == self@,
    {
        &self.data
    }
}

impl<T: Element> Vector<T> {
    /// A vector of `size` elements, meant as the destination of the next
    /// launch; its elements start out zero.
    pub fn uninitialized(size: usize) -> (r: Vector<T>)
        ensures
            r@ == Seq::new(size as nat, |i: int| T::wrap(0)),
    {
        Vector::new(T::zero(), size)
    }

    fn zip(&self, other: &Vector<T>, op: BinaryOp) -> (r: Result<Vector<T>, ShapeError>)
        requires
            all_defined(op, self@, other@),
        ensures
            zipped(r, op, self@, other@),
    {
        if self.data.len() != other.data.len() {
            return Err(ShapeError::LengthMismatch { expected: self.data.len(), found: other.data.len() });
        }
        Ok(Vector { data: zip_with(op, &self.data, &other.data) })
    }

    fn zip_assign(&mut self, other: &Vector<T>, op: BinaryOp) -> (r: Result<(), ShapeError>)
        requires
            all_defined(op, old(self)@, other@),
        ensures
            zipped_in_place(r, op, old(self)@, final(self)@, other@),
    {
        if self.data.len() != other.data.len() {
            return Err(ShapeError::LengthMismatch { expected: self.data.len(), found: other.data.len() });
        }
        zip_with_in_place(op, &mut self.data, &other.data);
        Ok(())
    }

    /// Elementwise sum, wrapping.
    pub fn add_vec(&self, other: &Vector<T>) -> (r: Result<Vector<T>, ShapeError>)
        ensures
            zipped(r, BinaryOp::Add, self@, other@),
    {
        self.zip(other, BinaryOp::Add)
    }

    /// Elementwise difference, wrapping.
    pub fn sub_vec(&self, other: &Vector<T>) -> (r: Result<Vector<T>, ShapeError>)
        ensures
            zipped(r, BinaryOp::Sub, self@, other@),
    {
        self.zip(other, BinaryOp::Sub)
    }

    /// Elementwise product, wrapping.
    pub fn mul_vec(&self, other: &Vector<T>) -> (r: Result<Vector<T>, ShapeError>)
        ensures
            zipped(r, BinaryOp::Mul, self@, other@),
    {
        self.zip(other, BinaryOp::Mul)
    }

    /// Elementwise quotient. Every element of `other` must be nonzero.
    pub fn div_vec(&self, other: &Vector<T>) -> (r: Result<Vector<T>, ShapeError>)
        requires
            all_defined(BinaryOp::Div, self@, other@),
        ensures
            zipped(r, BinaryOp::Div, self@, other@),
    {
        self.zip(other, BinaryOp::Div)
    }

    /// Adds `other` into `self`, elementwise.
    pub fn add_assign_vec(&mut self, other: &Vector<T>) -> (r: Result<(), ShapeError>)
        ensures
            zipped_in_place(r, BinaryOp::Add, old(self)@, final(self)@, other@),
    {
        self.zip_assign(other, BinaryOp::Add)
    }

    /// Subtracts `other` from `self`, elementwise.
    pub fn sub_assign_vec(&mut self, other: &Vector<T>) -> (r: Result<(), ShapeError>)
        ensures
            zipped_in_place(r, BinaryOp::Sub, old(self)@, final(self)@, other@),
    {
        self.zip_assign(other, BinaryOp::Sub)
    }

    /// Multiplies `self` by `other`, elementwise.
    pub fn mul_assign_vec(&mut self, other: &Vector<T>) -> (r: Result<(), ShapeError>)
        ensures
            zipped_in_place(r, BinaryOp::Mul, old(self)@, final(self)@, other@),
    {
        self.zip_assign(other, BinaryOp::Mul)
    }

    /// Divides `self` by `other`, elementwise.
    pub fn div_assign_vec(&mut self, other: &Vector<T>) -> (r: Result<(), ShapeError>)
        requires
            all_defined(BinaryOp::Div, self@, other@),
        ensures
            zipped_in_place(r, BinaryOp::Div, old(self)@, final(self)@, other@),
    {
        self.zip_assign(other, BinaryOp::Div)
    }

    /// Each element plus `scalar`, wrapping.
    pub fn add_scalar(&self, scalar: T) -> (r: Vector<T>)
        ensures
            r@ == scalar_op(BinaryOp::Add, self@, scalar),
    {
        Vector { data: with_scalar(BinaryOp::Add, &self.data, scalar) }
    }

    /// Each element minus `scalar`, wrapping.
    pub fn sub_scalar(&self, scalar: T) -> (r: Vector<T>)
        ensures
            r@ == scalar_op(BinaryOp::Sub, self@, scalar),
    {
        Vector { data: with_scalar(BinaryOp::Sub, &self.data, scalar) }
    }

    /// Each element times `scalar`, wrapping.
    pub fn mul_scalar(&self, scalar: T) -> (r: Vector<T>)
        ensures
            r@ == scalar_op(BinaryOp::Mul, self@, scalar),
    {
        Vector { data: with_scalar(BinaryOp::Mul, &self.data, scalar) }
    }

    /// Each element divided by `scalar`, which must be nonzero.
    pub fn div_scalar(&self, scalar: T) -> (r: Vector<T>)
        requires
            all_defined_scalar(BinaryOp::Div, self@, scalar),
        ensures
            r@ == scalar_op(BinaryOp::Div, self@, scalar),
    {
        Vector { data: with_scalar(BinaryOp::Div, &self.data, scalar) }
    }

    /// Multiplies every element by `scalar`, in place.
    pub fn mul_assign_scalar(&mut self, scalar: T)
        ensures
            final(self)@ == scalar_op(BinaryOp::Mul, old(self)@, scalar),
    {
        with_scalar_in_place(BinaryOp::Mul, &mut self.data, scalar);
    }

    /// Divides every element by `scalar`, which must be nonzero, in place.
    pub fn div_assign_scalar(&mut self, scalar: T)
        requires
            all_defined_scalar(BinaryOp::Div, old(self)@, scalar),
        ensures
            final(self)@ == scalar_op(BinaryOp::Div, old(self)@, scalar),
    {
        with_scalar_in_place(BinaryOp::Div, &mut self.data, scalar);
    }

    /// Each element times itself, wrapping.
    pub fn squared(&self) -> (r: Vector<T>)
        ensures
            r@ == zip_op(BinaryOp::Mul, self@, self@),
    {
        Vector { data: zip_with(BinaryOp::Mul, &self.data, &self.data) }
    }

    /// The sum of the elements, wrapping, by the two-stage reduction with
    /// the launch geometry `params`.
    pub fn sum_with(&self, params: KernelParams) -> (r: T)
        requires
            params.wf(),
        ensures
            r == T::wrap(total(values(self@))),
    {
        reduce(&self.data, None, params)
    }

    /// The sum of the elements, wrapping, by the two-stage reduction with the
    /// widest work groups.
    pub fn sum(&self) -> (r: T)
        ensures
            r == T::wrap(total(values(self@))),
    {
        self.sum_with(KernelParams::from_preferred_size(MAX_WORK_GROUP_SIZE))
    }

    /// The row vector `self` times the matrix `m`: one element per column of
    /// `m`. The length must equal the row count of `m`.
    pub fn mul_mat(&self, m: &Matrix<T>) -> (r: Result<Vector<T>, ShapeError>)
        ensures
            match r {
                Ok(v) => self@.len() == m.rows() && v@ == vec_mat_product(self@, m@, m.rows(), m.cols()),
                Err(e) => self@.len() != m.rows() && e == (ShapeError::LengthMismatch {
                    expected: m.rows() as usize,
                    found: self@.len() as usize,
                }),
            },
    {
        let buf = m.buffer();
        if self.data.len() != m.get_row_count() {
            return Err(ShapeError::LengthMismatch { expected: m.get_row_count(), found: self.data.len() });
        }
        Ok(Vector { data: vec_mat_cells(&self.data, buf, m.get_row_count(), m.get_col_count(), false) })
    }
}

/// The dot product of `a` and `b`, wrapping, by the two-stage reduction with
/// the launch geometry `params`; the products are formed inside the kernel.
pub fn dot_with<T: Element>(a: &Vector<T>, b: &Vector<T>, params: KernelParams) -> (r: Result<T, ShapeError>)
    requires
        params.wf(),
    ensures
        match r {
            Ok(x) => a@.len() == b@.len() && x == T::wrap(total(products(a@, b@))),
            Err(e) => a@.len() != b@.len() && e == (ShapeError::LengthMismatch {
                expected: a@.len() as usize,
                found: b@.len() as usize,
            }),
        },
{
    if a.data.len() != b.data.len() {
        return Err(ShapeError::LengthMismatch { expected: a.data.len(), found: b.data.len() });
    }
    Ok(reduce(&a.data, Some(&b.data), params))
}

/// The dot product of `a` and `b`, wrapping, with the widest work groups.
pub fn dot<T: Element>(a: &Vector<T>, b: &Vector<T>) -> (r: Result<T, ShapeError>)
    ensures
        match r {
            Ok(x) => a@.len() == b@.len() && x == T::wrap(total(products(a@, b@))),
            Err(e) => a@.len() != b@.len() && e == (ShapeError::LengthMismatch {
                expected: a@.len() as usize,
                found: b@.len() as usize,
            }),
        },
{
    dot_with(a, b, KernelParams::from_preferred_size(MAX_WORK_GROUP_SIZE))
}

/// The row vector `vector` times the transpose of `m`, without forming the
/// transpose: one element per row of `m`. The length must equal the column
/// count of `m`.
pub fn mul_transpose_mat<T: Element>(vector: &Vector<T>, m: &Matrix<T>) -> (r: Result<Vector<T>, ShapeError>)
    ensures
        match r {
            Ok(v) => vector@.len() == m.cols() && v@ == vec_transpose_product(vector@, m@, m.rows(), m.cols()),
            Err(e) => vector@.len() != m.cols() && e == (ShapeError::LengthMismatch {
                expected: m.cols() as usize,
                found: vector@.len() as usize,
            }),
        },
{
    let buf = m.buffer();
    if vector.data.len() != m.get_col_count() {
        return Err(ShapeError::LengthMismatch { expected: m.get_col_count(), found: vector.data.len() });
    }
    Ok(Vector { data: vec_mat_cells(&vector.data, buf, m.get_row_count(), m.get_col_count(), true) })
}

impl<T: Copy> Clone for Vector<T> {
    /// A copy in a buffer of its own.
    fn clone(&self) -> (r: Self)
        ensures
            r@ == self@,
    {
        Vector { data: self.to_vec() }
    }
}

impl<T: Element> PartialEq for Vector<T> {
    /// Unequal lengths compare unequal before any launch; otherwise the
    /// equality kernel decides.
    fn eq(&self, other: &Vector<T>) -> (r: bool) {
        if self.data.len() != other.data.len() {
            return false;
        }
        equal_elements(&self.data, &other.data)
    }
}

impl<T: Element> vstd::std_specs::cmp::PartialEqSpecImpl for Vector<T> {
    open spec fn obeys_eq_spec() -> bool {
        true
    }

    open spec fn eq_spec(&self, other: &Vector<T>) -> bool {
        self@ == other@
    }
}

} // verus!
