//! Dense vector and matrix arithmetic laid out for a data-parallel compute
//! device: the containers, the launch geometry, the kernel programs, and the
//! work-item algorithms (strided reduction, matrix products, equality flag)
//! with their mathematical contracts.

pub mod cache;
pub mod dispatch;
pub mod element;
pub mod elementwise;
pub mod error;
pub mod laws;
pub mod launch;
pub mod layout;
pub mod matrix;
pub mod product;
pub mod reduce;
pub mod source;
pub mod traits;
pub mod util;
pub mod vector;

pub use error::ShapeError;
pub use launch::{DeviceKind, KernelParams};
pub use matrix::{mul_column_row, Matrix};
pub use traits::{Param, Parameter};
pub use util::{abs, are_close};
pub use vector::{dot, mul_transpose_mat, Vector};
