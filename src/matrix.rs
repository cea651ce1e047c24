//! The matrix container: a vector of `row_count * col_count` elements in
//! row-major order, with its shape.
use vstd::prelude::*;

use crate::element::Element;
use crate::elementwise::{all_defined_scalar, scalar_op, zip_op, BinaryOp};
use crate::error::ShapeError;
use crate::product::{mat_mul_cells, mat_product};
use crate::vector::Vector;

verus! {

/// A `row_count` by `col_count` matrix, stored row by row.
#[derive(Debug)]
pub struct Matrix<T> {
    data: Vector<T>,
    row_count: usize,
    col_count: usize,
}

impl<T> View for Matrix<T> {
    type V = Seq<T>;

    /// The elements, row by row.
    closed spec fn view(&self) -> Seq<T> {
        self.data@
    }
}

/// The outcome of an elementwise operation on matrices `a` and `b`: `op` on
/// each pair of elements, or a shape mismatch.
pub open spec fn zipped_mat<T: Element>(r: Result<Matrix<T>, ShapeError>, op: BinaryOp, a: Matrix<T>, b: Matrix<T>) -> bool {
    match r {
        Ok(m) => a.rows() == b.rows() && a.cols() == b.cols() && m.rows() == a.rows() && m.cols() == a.cols()
            && m@ == zip_op(op, a@, b@),
        Err(e) => (a.rows() != b.rows() || a.cols() != b.cols()) && e == a.mismatch(b),
    }
}

/// The outcome of an in-place elementwise operation on matrices that turned
/// `before` into `after` with right operand `b`.
pub open spec fn zipped_mat_in_place<T: Element>(
    r: Result<(), ShapeError>,
    op: BinaryOp,
    before: Matrix<T>,
    after: Matrix<T>,
    b: Matrix<T>,
) -> bool {
    &&& after.rows() == before.rows()
    &&& after.cols() == before.cols()
    &&& match r {
        Ok(()) => before.rows() == b.rows() && before.cols() == b.cols() && after@ == zip_op(op, before@, b@),
        Err(e) => (before.rows() != b.rows() || before.cols() != b.cols()) && after@ == before@ && e
            == before.mismatch(b),
    }
}

impl<T> Matrix<T> {
    #[verifier::type_invariant]
    spec fn shape_holds(self) -> bool {
        self.data@.len() == self.row_count * self.col_count
    }

    pub closed spec fn rows(&self) -> nat {
        self.row_count as nat
    }

    pub closed spec fn cols(&self) -> nat {
        self.col_count as nat
    }

    /// The dimensions are machine-sized.
    pub proof fn lemma_dims_fit(&self)
        ensures
            self.rows() <= usize::MAX,
            self.cols() <= usize::MAX,
    {
    }

    /// The error that reports the shapes of `self` and `other`.
    pub open spec fn mismatch(&self, other: Matrix<T>) -> ShapeError {
        ShapeError::DimensionMismatch {
            left_rows: self.rows() as usize,
            left_cols: self.cols() as usize,
            right_rows: other.rows() as usize,
            right_cols: other.cols() as usize,
        }
    }
}

impl<T: Copy> Matrix<T> {
    /// A `row_count` by `col_count` matrix with every element `default_value`.
    pub fn new(default_value: T, row_count: usize, col_count: usize) -> (r: Matrix<T>)
        requires
            row_count * col_count <= usize::MAX,
        ensures
            r.rows() == row_count,
            r.cols() == col_count,
            r@ == Seq::new((row_count * col_count) as nat, |i: int| default_value),
    {
        Matrix { data: Vector::new(default_value, row_count * col_count), row_count, col_count }
    }

    /// The `row_count` by `col_count` matrix whose rows follow one another
    /// in `v`.
    pub fn from_vec(v: Vec<T>, row_count: usize, col_count: usize) -> (r: Matrix<T>)
        requires
            v.len() == row_count * col_count,
        ensures
            r.rows() == row_count,
            r.cols() == col_count,
            r@ == v@,
    {
        Matrix { data: Vector::from_vec(v), row_count, col_count }
    }

    /// A `row_count` by `col_count` matrix, the element at flat index `i`
    /// (row `i / col_count`, column `i % col_count`) written by `fill(i)`.
    pub fn generate<F: Fn(usize) -> T>(fill: F, row_count: usize, col_count: usize) -> (r: Matrix<T>)
        requires
            row_count * col_count <= usize::MAX,
            forall|i: usize| i < row_count * col_count ==> fill.requires((i,)),
        ensures
            r.rows() == row_count,
            r.cols() == col_count,
            r@.len() == row_count * col_count,
            forall|i: int| 0 <= i < row_count * col_count ==> fill.ensures((i as usize,), #[trigger] r@[i]),
    {
        Matrix { data: Vector::generate(fill, row_count * col_count), row_count, col_count }
    }

    /// The shape: row count and column count.
    pub fn len(&self) -> (r: (usize, usize))
        ensures
            r == (self.rows() as usize, self.cols() as usize),
            self@.len() == self.rows() * self.cols(),
    {
        proof {
            use_type_invariant(self);
        }
        (self.row_count, self.col_count)
    }

    pub fn get_row_count(&self) -> (r: usize)
        ensures
            r == self.rows(),
    {
        self.row_count
    }

    pub fn get_col_count(&self) -> (r: usize)
        ensures
            r == self.cols(),
    {
        self.col_count
    }

    /// The elements, row by row, copied out.
    pub fn to_vec(&self) -> (r: Vec<T>)
        ensures
            r@ == self@,
    {
        self.data.to_vec()
    }

    pub(crate) fn buffer(&self) -> (r: &Vec<T>)
        ensures
            r@ == self@,
            r@.len() == self.rows() * self.cols(),
    {
        proof {
            use_type_invariant(self);
        }
        self.data.buffer()
    }
}

impl<T: Element> Matrix<T> {
    /// A `row_count` by `col_count` matrix meant as the destination of the
    /// next launch; its elements start out zero.
    pub fn uninitialized(row_count: usize, col_count: usize) -> (r: Matrix<T>)
        requires
            row_count * col_count <= usize::MAX,
        ensures
            r.rows() == row_count,
            r.cols() == col_count,
            r@ == Seq::new((row_count * col_count) as nat, |i: int| T::wrap(0)),
    {
        Matrix::new(T::zero(), row_count, col_count)
    }

    fn zip(&self, other: &Matrix<T>, op: BinaryOp) -> (r: Result<Matrix<T>, ShapeError>)
        requires
            op != BinaryOp::Div,
        ensures
            zipped_mat(r, op, *self, *other),
    {
        proof {
            use_type_invariant(self);
            use_type_invariant(other);
        }
        if self.row_count != other.row_count || self.col_count != other.col_count {
            return Err(
                ShapeError::DimensionMismatch {
                    left_rows: self.row_count,
                    left_cols: self.col_count,
                    right_rows: other.row_count,
                    right_cols: other.col_count,
                },
            );
        }
        let data = match op {
            BinaryOp::Add => self.data.add_vec(&other.data),
            BinaryOp::Sub => self.data.sub_vec(&other.data),
            BinaryOp::Mul => self.data.mul_vec(&other.data),
            BinaryOp::Div => self.data.div_vec(&other.data),
        };
        match data {
            Ok(data) => Ok(Matrix { data, row_count: self.row_count, col_count: self.col_count }),
            Err(e) => Err(e),
        }
    }

    /// Elementwise sum, wrapping; the shapes must agree.
    pub fn add_mat(&self, other: &Matrix<T>) -> (r: Result<Matrix<T>, ShapeError>)
        ensures
            zipped_mat(r, BinaryOp::Add, *self, *other),
    {
        self.zip(other, BinaryOp::Add)
    }

    /// Elementwise difference, wrapping; the shapes must agree.
    pub fn sub_mat(&self, other: &Matrix<T>) -> (r: Result<Matrix<T>, ShapeError>)
        ensures
            zipped_mat(r, BinaryOp::Sub, *self, *other),
    {
        self.zip(other, BinaryOp::Sub)
    }

    /// Elementwise product, wrapping; the shapes must agree.
    pub fn elem_mul(&self, other: &Matrix<T>) -> (r: Result<Matrix<T>, ShapeError>)
        ensures
            zipped_mat(r, BinaryOp::Mul, *self, *other),
    {
        self.zip(other, BinaryOp::Mul)
    }

    /// Adds `other` into `self`, elementwise; the shapes must agree.
    pub fn add_assign_mat(&mut self, other: &Matrix<T>) -> (r: Result<(), ShapeError>)
        ensures
            zipped_mat_in_place(r, BinaryOp::Add, *old(self), *final(self), *other),
    {
        proof {
            use_type_invariant(&*self);
            use_type_invariant(other);
        }
        if self.row_count != other.row_count || self.col_count != other.col_count {
            return Err(
                ShapeError::DimensionMismatch {
                    left_rows: self.row_count,
                    left_cols: self.col_count,
                    right_rows: other.row_count,
                    right_cols: other.col_count,
                },
            );
        }
        match self.data.add_vec(&other.data) {
            Ok(data) => {
                *self = Matrix { data, row_count: self.row_count, col_count: self.col_count };
                Ok(())
            },
            Err(e) => Err(e),
        }
    }

    /// Subtracts `other` from `self`, elementwise; the shapes must agree.
    pub fn sub_assign_mat(&mut self, other: &Matrix<T>) -> (r: Result<(), ShapeError>)
        ensures
            zipped_mat_in_place(r, BinaryOp::Sub, *old(self), *final(self), *other),
    {
        proof {
            use_type_invariant(&*self);
            use_type_invariant(other);
        }
        if self.row_count != other.row_count || self.col_count != other.col_count {
            return Err(
                ShapeError::DimensionMismatch {
                    left_rows: self.row_count,
                    left_cols: self.col_count,
                    right_rows: other.row_count,
                    right_cols: other.col_count,
                },
            );
        }
        match self.data.sub_vec(&other.data) {
            Ok(data) => {
                *self = Matrix { data, row_count: self.row_count, col_count: self.col_count };
                Ok(())
            },
            Err(e) => Err(e),
        }
    }

    /// Each element times `scalar`, wrapping.
    pub fn mul_scalar(&self, scalar: T) -> (r: Matrix<T>)
        ensures
            r.rows() == self.rows(),
            r.cols() == self.cols(),
            r@ == scalar_op(BinaryOp::Mul, self@, scalar),
    {
        proof {
            use_type_invariant(self);
        }
        Matrix { data: self.data.mul_scalar(scalar), row_count: self.row_count, col_count: self.col_count }
    }

    /// Multiplies every element by `scalar`, in place.
    pub fn mul_assign_scalar(&mut self, scalar: T)
        ensures
            final(self).rows() == old(self).rows(),
            final(self).cols() == old(self).cols(),
            final(self)@ == scalar_op(BinaryOp::Mul, old(self)@, scalar),
    {
        proof {
            use_type_invariant(&*self);
        }
        let data = self.data.mul_scalar(scalar);
        *self = Matrix { data, row_count: self.row_count, col_count: self.col_count };
    }

    /// Each element divided by `scalar`, which must be nonzero.
    pub fn div_scalar(&self, scalar: T) -> (r: Matrix<T>)
        requires
            all_defined_scalar(BinaryOp::Div, self@, scalar),
        ensures
            r.rows() == self.rows(),
            r.cols() == self.cols(),
            r@ == scalar_op(BinaryOp::Div, self@, scalar),
    {
        proof {
            use_type_invariant(self);
        }
        Matrix { data: self.data.div_scalar(scalar), row_count: self.row_count, col_count: self.col_count }
    }

    /// The matrix product `self * other`, one work item per cell of the
    /// result. The column count of `self` must equal the row count of
    /// `other`.
    pub fn mul_mat(&self, other: &Matrix<T>) -> (r: Result<Matrix<T>, ShapeError>)
        requires
            self.cols() == other.rows() ==> self.rows() * other.cols() <= usize::MAX,
        ensures
            match r {
                Ok(m) => self.cols() == other.rows() && m.rows() == self.rows() && m.cols() == other.cols()
                    && m@ == mat_product(self@, other@, self.rows(), self.cols(), other.cols()),
                Err(e) => self.cols() != other.rows() && e == self.mismatch(*other),
            },
    {
        proof {
            use_type_invariant(self);
            use_type_invariant(other);
        }
        if self.col_count != other.row_count {
            return Err(
                ShapeError::DimensionMismatch {
                    left_rows: self.row_count,
                    left_cols: self.col_count,
                    right_rows: other.row_count,
                    right_cols: other.col_count,
                },
            );
        }
        let cells = mat_mul_cells(
            self.data.buffer(),
            other.data.buffer(),
            self.row_count,
            self.col_count,
            other.col_count,
        );
        proof {
            assert(cells@.len() == self.row_count * other.col_count);
        }
        Ok(Matrix { data: Vector::from_vec(cells), row_count: self.row_count, col_count: other.col_count })
    }
}

/// The product of `column`, taken as a one-column matrix, and `row`, taken
/// as a one-row matrix: `column.len()` rows of `row.len()` columns.
pub fn mul_column_row<T: Element>(column: &Vector<T>, row: &Vector<T>) -> (r: Matrix<T>)
    requires
        column@.len() * row@.len() <= usize::MAX,
    ensures
        r.rows() == column@.len(),
        r.cols() == row@.len(),
        r@ == mat_product(column@, row@, column@.len(), 1, row@.len()),
{
    let n = column.len();
    let m = row.len();
    let cells = mat_mul_cells(column.buffer(), row.buffer(), n, 1, m);
    Matrix { data: Vector::from_vec(cells), row_count: n, col_count: m }
}

impl<T: Copy> Clone for Matrix<T> {
    /// A copy in a buffer of its own.
    fn clone(&self) -> (r: Self)
        ensures
            r.rows() == self.rows(),
            r.cols() == self.cols(),
            r@ == self@,
    {
        proof {
            use_type_invariant(self);
        }
        Matrix { data: self.data.clone(), row_count: self.row_count, col_count: self.col_count }
    }
}

impl<T: Element> PartialEq for Matrix<T> {
    /// Equal shapes and equal elements.
    fn eq(&self, other: &Matrix<T>) -> (r: bool) {
        self.row_count == other.row_count && self.col_count == other.col_count && self.data == other.data
    }
}

impl<T: Element> vstd::std_specs::cmp::PartialEqSpecImpl for Matrix<T> {
    open spec fn obeys_eq_spec() -> bool {
        true
    }

    open spec fn eq_spec(&self, other: &Matrix<T>) -> bool {
        self.rows() == other.rows() && self.cols() == other.cols() && self@ == other@
    }
}

} // verus!
