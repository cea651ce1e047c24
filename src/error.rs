use vstd::prelude::*;

verus! {

/// Operands whose shapes do not fit the operation; nothing is launched.
#[derive(Clone, Copy, Debug, PartialEq, Eq, Structural)]
pub enum ShapeError {
    /// A length differs from the one the operation needs: that of the left
    /// operand, or the matrix dimension a vector has to match.
    LengthMismatch { expected: usize, found: usize },
    /// The shapes of two matrices do not fit: the rows and columns of each.
    DimensionMismatch { left_rows: usize, left_cols: usize, right_rows: usize, right_cols: usize },
}

} // verus!
