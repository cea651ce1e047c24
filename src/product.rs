//! The matrix product kernels. Buffers are flat, so every work item is handed
//! the shape scalars it needs to find its operands in row-major storage, and
//! computes one output element as a sequential dot product.
use vstd::prelude::*;

use crate::element::{lemma_wrap_add, Element};

verus! {

/// `sum(t < k) a[a_off + t * a_step] * b[b_off + t * b_step]`.
pub open spec fn strided_dot<T: Element>(
    a: Seq<T>,
    a_off: int,
    a_step: int,
    b: Seq<T>,
    b_off: int,
    b_step: int,
    k: nat,
) -> int
    decreases k,
{
    if k == 0 {
        0
    } else {
        strided_dot(a, a_off, a_step, b, b_off, b_step, (k - 1) as nat) + a[a_off + (k - 1) * a_step].value()
            * b[b_off + (k - 1) * b_step].value()
    }
}

/// The index of the `t`-th element of a slice that starts at `off`, `step`
/// elements apart.
pub open spec fn slice_index(off: int, step: int, t: int) -> int {
    off + t * step
}

/// The product of `a`, `rows` by `inner`, and `b`, `inner` by `cols`, both
/// row-major, as a row-major `rows` by `cols` sequence, wrapped to `T`.
pub open spec fn mat_product<T: Element>(a: Seq<T>, b: Seq<T>, rows: nat, inner: nat, cols: nat) -> Seq<T> {
    Seq::new(
        rows * cols,
        |i: int| T::wrap(strided_dot(a, (i / cols as int) * inner, 1, b, i % cols as int, cols as int, inner)),
    )
}

/// The row vector `v` times the `rows` by `cols` matrix `m`.
pub open spec fn vec_mat_product<T: Element>(v: Seq<T>, m: Seq<T>, rows: nat, cols: nat) -> Seq<T> {
    Seq::new(cols, |j: int| T::wrap(strided_dot(v, 0, 1, m, j, cols as int, rows)))
}

/// The row vector `v` times the transpose of the `rows` by `cols` matrix `m`.
pub open spec fn vec_transpose_product<T: Element>(v: Seq<T>, m: Seq<T>, rows: nat, cols: nat) -> Seq<T> {
    Seq::new(rows, |j: int| T::wrap(strided_dot(v, 0, 1, m, j * cols, 1, cols)))
}

/// One work item of the product kernels: the dot product of `k` elements of
/// `a` from `a_off` on, `a_step` apart, with `k` elements of `b` from `b_off`
/// on, `b_step` apart.
pub fn strided_dot_value<T: Element>(
    a: &Vec<T>,
    a_off: usize,
    a_step: usize,
    b: &Vec<T>,
    b_off: usize,
    b_step: usize,
    k: usize,
) -> (r: T)
    requires
        forall|t: int| 0 <= t < k ==> #[trigger] slice_index(a_off as int, a_step as int, t) < a.len(),
        forall|t: int| 0 <= t < k ==> #[trigger] slice_index(b_off as int, b_step as int, t) < b.len(),
    ensures
        r == T::wrap(strided_dot(a@, a_off as int, a_step as int, b@, b_off as int, b_step as int, k as nat)),
{
    let mut acc: T = T::zero();
    let mut t: usize = 0;
    while t < k
        invariant
            t <= k,
            forall|t: int| 0 <= t < k ==> #[trigger] slice_index(a_off as int, a_step as int, t) < a.len(),
            forall|t: int| 0 <= t < k ==> #[trigger] slice_index(b_off as int, b_step as int, t) < b.len(),
            acc == T::wrap(strided_dot(a@, a_off as int, a_step as int, b@, b_off as int, b_step as int, t as nat)),
        decreases k - t,
    {
        assert(slice_index(a_off as int, a_step as int, t as int) < a.len());
        assert(slice_index(b_off as int, b_step as int, t as int) < b.len());
        let x = a[a_off + t * a_step];
        let y = b[b_off + t * b_step];
        let p = x.wrapping_product(y);
        proof {
            lemma_wrap_add::<T>(strided_dot(a@, a_off as int, a_step as int, b@, b_off as int, b_step as int, t as nat),
                x.value() * y.value(),
            );
        }
        acc = acc.wrapping_sum(p);
        t = t + 1;
    }
    acc
}

/// Launches one work item per cell of the `rows` by `cols` product of `a`,
/// `rows` by `inner`, and `b`, `inner` by `cols`.
pub fn mat_mul_cells<T: Element>(a: &Vec<T>, b: &Vec<T>, rows: usize, inner: usize, cols: usize) -> (r: Vec<T>)
    requires
        a.len() == rows * inner,
        b.len() == inner * cols,
        rows * cols <= usize::MAX,
    ensures
        r@ == mat_product(a@, b@, rows as nat, inner as nat, cols as nat),
{
    let cells = rows * cols;
    let mut r: Vec<T> = Vec::with_capacity(cells);
    let mut i: usize = 0;
    while i < cells
        invariant
            a.len() == rows * inner,
            b.len() == inner * cols,
            cells == rows * cols,
            i <= cells,
            r.len() == i,
            forall|j: int|
                0 <= j < i ==> r[j] == T::wrap(
                    strided_dot(a@, (j / cols as int) * inner, 1, b@, j % cols as int, cols as int, inner as nat),
                ),
        decreases cells - i,
    {
        let row = i / cols;
        let col = i % cols;
        proof {
            assert(row < rows && col < cols) by (nonlinear_arith)
                requires
                    i < rows * cols,
                    row == i / cols,
                    col == i % cols,
            ;
            assert(row * inner <= rows * inner) by (nonlinear_arith)
                requires
                    row < rows,
            ;
            assert forall|t: int| 0 <= t < inner implies #[trigger] slice_index(row * inner, 1, t) < a.len() by {
                assert(row * inner + t < rows * inner) by (nonlinear_arith)
                    requires
                        row < rows,
                        0 <= t < inner,
                ;
            }
            assert forall|t: int| 0 <= t < inner implies #[trigger] slice_index(col as int, cols as int, t) < b.len() by {
                assert(col + t * cols < inner * cols) by (nonlinear_arith)
                    requires
                        col < cols,
                        0 <= t < inner,
                ;
            }
        }
        let x = strided_dot_value(a, row * inner, 1, b, col, cols, inner);
        r.push(x);
        i = i + 1;
    }
    assert(r@ =~= mat_product(a@, b@, rows as nat, inner as nat, cols as nat));
    r
}

/// Launches one work item per element of the row vector `v` times the
/// `rows` by `cols` matrix `m`, or, with `transposed`, times its transpose.
/// The same kernel serves both: only the strides it is handed differ.
pub fn vec_mat_cells<T: Element>(v: &Vec<T>, m: &Vec<T>, rows: usize, cols: usize, transposed: bool) -> (r: Vec<T>)
    requires
        m.len() == rows * cols,
        v.len() == if transposed { cols } else { rows },
    ensures
        r@ == if transposed {
            vec_transpose_product(v@, m@, rows as nat, cols as nat)
        } else {
            vec_mat_product(v@, m@, rows as nat, cols as nat)
        },
{
    let (n, row_step, col_step, k) = if transposed {
        (rows, cols, 1usize, cols)
    } else {
        (cols, 1usize, cols, rows)
    };
    let mut r: Vec<T> = Vec::with_capacity(n);
    let mut j: usize = 0;
    while j < n
        invariant
            m.len() == rows * cols,
            v.len() == k,
            transposed ==> n == rows && row_step == cols && col_step == 1 && k == cols,
            !transposed ==> n == cols && row_step == 1 && col_step == cols && k == rows,
            j <= n,
            r.len() == j,
            forall|i: int|
                0 <= i < j ==> r[i] == T::wrap(
                    strided_dot(v@, 0, 1, m@, i * row_step, col_step as int, k as nat),
                ),
        decreases n - j,
    {
        proof {
            assert forall|t: int| 0 <= t < k implies #[trigger] slice_index(j * row_step, col_step as int, t) < m.len() by {
                if transposed {
                    assert(j * cols + t * 1 < rows * cols) by (nonlinear_arith)
                        requires
                            j < rows,
                            0 <= t < cols,
                    ;
                } else {
                    assert(j * 1 + t * cols < rows * cols) by (nonlinear_arith)
                        requires
                            j < cols,
                            0 <= t < rows,
                    ;
                }
            }
            assert forall|t: int| 0 <= t < k implies #[trigger] slice_index(0, 1, t) < v.len() by {}
            if transposed {
                assert(j * cols <= rows * cols) by (nonlinear_arith)
                    requires
                        j < rows,
                ;
            }
        }
        let x = strided_dot_value(v, 0, 1, m, j * row_step, col_step, k);
        r.push(x);
        j = j + 1;
    }
    if transposed {
        assert(r@ =~= vec_transpose_product(v@, m@, rows as nat, cols as nat));
    } else {
        assert(r@ =~= vec_mat_product(v@, m@, rows as nat, cols as nat));
    }
    r
}

} // verus!
