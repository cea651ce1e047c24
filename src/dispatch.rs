//! How each operation becomes a kernel launch: the kernel it runs, the
//! arguments it binds in order, and the launch geometry. A device back end
//! binds the arguments as listed and enqueues the launch.
use vstd::prelude::*;

use crate::elementwise::BinaryOp;
use crate::error::ShapeError;
use crate::launch::KernelParams;

verus! {

/// The buffer an argument binds.
#[derive(Clone, Copy, Debug, PartialEq, Eq, Structural)]
pub enum BufferRole {
    /// The destination the kernel writes (`C`).
    Dest,
    /// The left, or only, operand (`A`).
    Left,
    /// The right operand (`B`).
    Right,
    /// The per-work-group partial results of a reduction.
    Partials,
}

/// One argument of a kernel launch.
#[derive(Clone, Copy, Debug, PartialEq, Eq, Structural)]
pub enum KernelArg {
    /// A device buffer.
    Buffer(BufferRole),
    /// The scalar right operand of the operation.
    Operand,
    /// A shape scalar: a count the flat buffers do not carry.
    Shape(i32),
    /// Work-group local scratch space of this many elements.
    Local(usize),
}

/// A kernel launch: the operation's kernel name without the type prefix,
/// the arguments in order, the number of work items, and the work group size
/// where the launch fixes one.
pub struct Launch {
    pub kernel: &'static str,
    pub args: Vec<KernelArg>,
    pub global_size: usize,
    pub local_size: Option<usize>,
}

/// The name of the elementwise kernel of `op`: on two vectors or on a vector
/// and a scalar, into a fresh destination or in place.
pub open spec fn zip_kernel_name(op: BinaryOp, scalar: bool, in_place: bool) -> Seq<char> {
    match (op, scalar, in_place) {
        (BinaryOp::Add, false, false) => "add_vec_vec"@,
        (BinaryOp::Sub, false, false) => "sub_vec_vec"@,
        (BinaryOp::Mul, false, false) => "mul_vec_vec"@,
        (BinaryOp::Div, false, false) => "div_vec_vec"@,
        (BinaryOp::Add, false, true) => "add_assign_vec_vec"@,
        (BinaryOp::Sub, false, true) => "sub_assign_vec_vec"@,
        (BinaryOp::Mul, false, true) => "mul_assign_vec_vec"@,
        (BinaryOp::Div, false, true) => "div_assign_vec_vec"@,
        (BinaryOp::Add, true, _) => "add_vec_scl"@,
        (BinaryOp::Sub, true, _) => "sub_vec_scl"@,
        (BinaryOp::Mul, true, false) => "mul_vec_scl"@,
        (BinaryOp::Div, true, false) => "div_vec_scl"@,
        (BinaryOp::Mul, true, true) => "mul_assign_vec_scl"@,
        (BinaryOp::Div, true, true) => "div_assign_vec_scl"@,
    }
}

/// Whether the template has an in-place form of the scalar kernel of `op`.
pub open spec fn has_kernel(op: BinaryOp, scalar: bool, in_place: bool) -> bool {
    !(scalar && in_place && (op == BinaryOp::Add || op == BinaryOp::Sub))
}

/// The arguments of an elementwise kernel: the destination, the left
/// operand unless the destination is the left operand, then the right
/// operand, a buffer or the scalar.
pub open spec fn zip_args(scalar: bool, in_place: bool) -> Seq<KernelArg> {
    (if in_place {
        seq![KernelArg::Buffer(BufferRole::Dest)]
    } else {
        seq![KernelArg::Buffer(BufferRole::Dest), KernelArg::Buffer(BufferRole::Left)]
    }) + if scalar {
        seq![KernelArg::Operand]
    } else {
        seq![KernelArg::Buffer(BufferRole::Right)]
    }
}

/// The launch of the elementwise kernel of `op` over a left operand of
/// `left_len` elements and a right operand of `right_len` elements, or, with
/// none, a scalar. Lengths that differ launch nothing.
pub fn zip_launch(op: BinaryOp, in_place: bool, left_len: usize, right_len: Option<usize>) -> (r: Result<
    Launch,
    ShapeError,
>)
    requires
        has_kernel(op, right_len is None, in_place),
    ensures
        match r {
            Ok(l) => (right_len matches Some(m) ==> m == left_len) && l.kernel@ == zip_kernel_name(
                op,
                right_len is None,
                in_place,
            ) && l.args@ == zip_args(right_len is None, in_place) && l.global_size == left_len
                && l.local_size is None,
            Err(e) => right_len matches Some(m) && m != left_len && e == (ShapeError::LengthMismatch {
                expected: left_len,
                found: m,
            }),
        },
{
    if let Some(m) = right_len {
        if m != left_len {
            return Err(ShapeError::LengthMismatch { expected: left_len, found: m });
        }
    }
    let scalar = right_len.is_none();
    let kernel = match (op, scalar, in_place) {
        (BinaryOp::Add, false, false) => "add_vec_vec",
        (BinaryOp::Sub, false, false) => "sub_vec_vec",
        (BinaryOp::Mul, false, false) => "mul_vec_vec",
        (BinaryOp::Div, false, false) => "div_vec_vec",
        (BinaryOp::Add, false, true) => "add_assign_vec_vec",
        (BinaryOp::Sub, false, true) => "sub_assign_vec_vec",
        (BinaryOp::Mul, false, true) => "mul_assign_vec_vec",
        (BinaryOp::Div, false, true) => "div_assign_vec_vec",
        (BinaryOp::Add, true, _) => "add_vec_scl",
        (BinaryOp::Sub, true, _) => "sub_vec_scl",
        (BinaryOp::Mul, true, false) => "mul_vec_scl",
        (BinaryOp::Div, true, false) => "div_vec_scl",
        (BinaryOp::Mul, true, true) => "mul_assign_vec_scl",
        (BinaryOp::Div, true, true) => "div_assign_vec_scl",
    };
    let mut args: Vec<KernelArg> = Vec::new();
    args.push(KernelArg::Buffer(BufferRole::Dest));
    if !in_place {
        args.push(KernelArg::Buffer(BufferRole::Left));
    }
    if scalar {
        args.push(KernelArg::Operand);
    } else {
        args.push(KernelArg::Buffer(BufferRole::Right));
    }
    assert(args@ =~= zip_args(scalar, in_place));
    Ok(Launch { kernel, args, global_size: left_len, local_size: None })
}

/// The launch of the equality kernel over two operands of `left_len` and
/// `right_len` elements; the destination is the one-byte flag. Operands of
/// different lengths are unequal without a launch.
pub fn eq_launch(left_len: usize, right_len: usize) -> (r: Option<Launch>)
    ensures
        r is None <==> left_len != right_len,
        r matches Some(l) ==> l.kernel@ == "eq_vec"@ && l.args@ == seq![
            KernelArg::Buffer(BufferRole::Dest),
            KernelArg::Buffer(BufferRole::Left),
            KernelArg::Buffer(BufferRole::Right),
        ] && l.global_size == left_len && l.local_size is None,
{
    if left_len != right_len {
        return None;
    }
    let args = vec![
        KernelArg::Buffer(BufferRole::Dest),
        KernelArg::Buffer(BufferRole::Left),
        KernelArg::Buffer(BufferRole::Right),
    ];
    assert(args@ =~= seq![
        KernelArg::Buffer(BufferRole::Dest),
        KernelArg::Buffer(BufferRole::Left),
        KernelArg::Buffer(BufferRole::Right),
    ]);
    Some(Launch { kernel: "eq_vec", args, global_size: left_len, local_size: None })
}

/// The arguments of the reduction kernel.
pub open spec fn reduce_args(dot: bool, len: usize, params: KernelParams) -> Seq<KernelArg> {
    (if dot {
        seq![KernelArg::Buffer(BufferRole::Left), KernelArg::Buffer(BufferRole::Right)]
    } else {
        seq![KernelArg::Buffer(BufferRole::Left)]
    }) + seq![
        KernelArg::Buffer(BufferRole::Partials),
        KernelArg::Local(params.work_group_size),
        KernelArg::Shape(len as i32),
    ]
}

/// The launch of the reduction kernel over `len` elements: the sum of one
/// operand, or, given the length of a second, their dot product. Every work
/// group writes one of `params.work_group_count` partial results. Lengths
/// that differ launch nothing.
pub fn reduce_launch(len: usize, right_len: Option<usize>, params: KernelParams) -> (r: Result<
    Launch,
    ShapeError,
>)
    requires
        len <= i32::MAX,
    ensures
        match r {
            Ok(l) => (right_len matches Some(m) ==> m == len) && l.kernel@ == (if right_len is Some {
                "dot_vec_vec"@
            } else {
                "sum_vec"@
            }) && l.args@ == reduce_args(right_len is Some, len, params) && l.global_size
                == params.global_work_size && l.local_size == Some(params.work_group_size),
            Err(e) => right_len matches Some(m) && m != len && e == (ShapeError::LengthMismatch {
                expected: len,
                found: m,
            }),
        },
{
    if let Some(m) = right_len {
        if m != len {
            return Err(ShapeError::LengthMismatch { expected: len, found: m });
        }
    }
    let dot = right_len.is_some();
    let mut args: Vec<KernelArg> = Vec::new();
    args.push(KernelArg::Buffer(BufferRole::Left));
    if dot {
        args.push(KernelArg::Buffer(BufferRole::Right));
    }
    args.push(KernelArg::Buffer(BufferRole::Partials));
    args.push(KernelArg::Local(params.work_group_size));
    args.push(KernelArg::Shape(len as i32));
    assert(args@ =~= reduce_args(dot, len, params));
    Ok(
        Launch {
            kernel: if dot {
                "dot_vec_vec"
            } else {
                "sum_vec"
            },
            args,
            global_size: params.global_work_size,
            local_size: Some(params.work_group_size),
        },
    )
}

/// The launch of the product of an `a_rows` by `a_cols` matrix and a
/// `b_rows` by `b_cols` matrix: one work item per cell of the result, told
/// the column counts of the result and of the left operand. Shapes that do
/// not fit launch nothing.
pub fn mat_mul_launch(a_rows: usize, a_cols: usize, b_rows: usize, b_cols: usize) -> (r: Result<
    Launch,
    ShapeError,
>)
    requires
        a_cols == b_rows ==> a_rows * b_cols <= usize::MAX && a_cols <= i32::MAX && b_cols <= i32::MAX,
    ensures
        match r {
            Ok(l) => a_cols == b_rows && l.kernel@ == "mul_mat_mat"@ && l.args@ == seq![
                KernelArg::Buffer(BufferRole::Dest),
                KernelArg::Buffer(BufferRole::Left),
                KernelArg::Buffer(BufferRole::Right),
                KernelArg::Shape(b_cols as i32),
                KernelArg::Shape(a_cols as i32),
            ] && l.global_size == a_rows * b_cols && l.local_size is None,
            Err(e) => a_cols != b_rows && e == (ShapeError::DimensionMismatch {
                left_rows: a_rows,
                left_cols: a_cols,
                right_rows: b_rows,
                right_cols: b_cols,
            }),
        },
{
    if a_cols != b_rows {
        return Err(
            ShapeError::DimensionMismatch {
                left_rows: a_rows,
                left_cols: a_cols,
                right_rows: b_rows,
                right_cols: b_cols,
            },
        );
    }
    let args = vec![
        KernelArg::Buffer(BufferRole::Dest),
        KernelArg::Buffer(BufferRole::Left),
        KernelArg::Buffer(BufferRole::Right),
        KernelArg::Shape(b_cols as i32),
        KernelArg::Shape(a_cols as i32),
    ];
    assert(args@ =~= seq![
        KernelArg::Buffer(BufferRole::Dest),
        KernelArg::Buffer(BufferRole::Left),
        KernelArg::Buffer(BufferRole::Right),
        KernelArg::Shape(b_cols as i32),
        KernelArg::Shape(a_cols as i32),
    ]);
    Ok(Launch { kernel: "mul_mat_mat", args, global_size: a_rows * b_cols, local_size: None })
}

/// The launch of a row vector of `len` elements times a `rows` by `cols`
/// matrix, or with `transposed` times its transpose: one work item per
/// element of the result, told the matrix's column count and the vector's
/// length. A length that does not fit launches nothing.
pub fn vec_mat_launch(len: usize, rows: usize, cols: usize, transposed: bool) -> (r: Result<
    Launch,
    ShapeError,
>)
    requires
        rows <= i32::MAX,
        cols <= i32::MAX,
    ensures
        match r {
            Ok(l) => len == (if transposed {
                cols
            } else {
                rows
            }) && l.kernel@ == (if transposed {
                "mul_vec_transpose_mat"@
            } else {
                "mul_vec_mat"@
            }) && l.args@ == seq![
                KernelArg::Buffer(BufferRole::Dest),
                KernelArg::Buffer(BufferRole::Left),
                KernelArg::Buffer(BufferRole::Right),
                KernelArg::Shape(cols as i32),
                KernelArg::Shape(len as i32),
            ] && l.global_size == (if transposed {
                rows
            } else {
                cols
            }) && l.local_size is None,
            Err(e) => len != (if transposed {
                cols
            } else {
                rows
            }) && e == (ShapeError::LengthMismatch {
                expected: if transposed {
                    cols
                } else {
                    rows
                },
                found: len,
            }),
        },
{
    let (kernel, expected, global) = if transposed {
        ("mul_vec_transpose_mat", cols, rows)
    } else {
        ("mul_vec_mat", rows, cols)
    };
    if len != expected {
        return Err(ShapeError::LengthMismatch { expected, found: len });
    }
    let args = vec![
        KernelArg::Buffer(BufferRole::Dest),
        KernelArg::Buffer(BufferRole::Left),
        KernelArg::Buffer(BufferRole::Right),
        KernelArg::Shape(cols as i32),
        KernelArg::Shape(len as i32),
    ];
    assert(args@ =~= seq![
        KernelArg::Buffer(BufferRole::Dest),
        KernelArg::Buffer(BufferRole::Left),
        KernelArg::Buffer(BufferRole::Right),
        KernelArg::Shape(cols as i32),
        KernelArg::Shape(len as i32),
    ]);
    Ok(Launch { kernel, args, global_size: global, local_size: None })
}

} // verus!
