//! The source of the kernel program built for each element type: a
//! preprocessor symbol for the type, the shared kernel template with the
//! type's name put in for its placeholder, and any extra kernel source.
use vstd::prelude::*;

use crate::traits::Param;

verus! {

/// The placeholder that stands for the device element type in
/// `KERNEL_TEMPLATE`.
pub const TYPE_TOKEN: &'static str = "{T}";

/// The kernels every program holds, named `<type>_<operation>`. Buffers are
/// flat: `C` is the destination, `A` and `B` the operands, and shape scalars
/// locate rows and columns.
pub const KERNEL_TEMPLATE: &'static str = "\
__kernel void {T}_add_vec_vec(__global {T}* C, __global const {T}* A, __global const {T}* B) \
{ size_t i = get_global_id(0); C[i] = A[i] + B[i]; }
__kernel void {T}_sub_vec_vec(__global {T}* C, __global const {T}* A, __global const {T}* B) \
{ size_t i = get_global_id(0); C[i] = A[i] - B[i]; }
__kernel void {T}_mul_vec_vec(__global {T}* C, __global const {T}* A, __global const {T}* B) \
{ size_t i = get_global_id(0); C[i] = A[i] * B[i]; }
__kernel void {T}_div_vec_vec(__global {T}* C, __global const {T}* A, __global const {T}* B) \
{ size_t i = get_global_id(0); C[i] = A[i] / B[i]; }
__kernel void {T}_add_assign_vec_vec(__global {T}* C, __global const {T}* B) \
{ size_t i = get_global_id(0); C[i] += B[i]; }
__kernel void {T}_sub_assign_vec_vec(__global {T}* C, __global const {T}* B) \
{ size_t i = get_global_id(0); C[i] -= B[i]; }
__kernel void {T}_mul_assign_vec_vec(__global {T}* C, __global const {T}* B) \
{ size_t i = get_global_id(0); C[i] *= B[i]; }
__kernel void {T}_div_assign_vec_vec(__global {T}* C, __global const {T}* B) \
{ size_t i = get_global_id(0); C[i] /= B[i]; }
__kernel void {T}_add_vec_scl(__global {T}* C, __global const {T}* A, {T} B) \
{ size_t i = get_global_id(0); C[i] = A[i] + B; }
__kernel void {T}_sub_vec_scl(__global {T}* C, __global const {T}* A, {T} B) \
{ size_t i = get_global_id(0); C[i] = A[i] - B; }
__kernel void {T}_mul_vec_scl(__global {T}* C, __global const {T}* A, {T} B) \
{ size_t i = get_global_id(0); C[i] = A[i] * B; }
__kernel void {T}_div_vec_scl(__global {T}* C, __global const {T}* A, {T} B) \
{ size_t i = get_global_id(0); C[i] = A[i] / B; }
__kernel void {T}_mul_assign_vec_scl(__global {T}* C, {T} B) \
{ size_t i = get_global_id(0); C[i] *= B; }
__kernel void {T}_div_assign_vec_scl(__global {T}* C, {T} B) \
{ size_t i = get_global_id(0); C[i] /= B; }
__kernel void {T}_eq_vec(__global uchar* C, __global const {T}* A, __global const {T}* B) \
{ size_t i = get_global_id(0); if (A[i] != B[i]) { C[0] = 0; } }
__kernel void {T}_sum_vec(__global const {T}* data, __global {T}* results, __local {T}* part, int count) \
{ size_t g = get_global_id(0); size_t l = get_local_id(0); {T} acc = 0; \
for (size_t i = g; i < (size_t)count; i += get_global_size(0)) { acc += data[i]; } \
part[l] = acc; barrier(CLK_LOCAL_MEM_FENCE); \
if (l == 0) { {T} p = 0; for (size_t k = 0; k < get_local_size(0); k++) { p += part[k]; } \
results[get_group_id(0)] = p; } }
__kernel void {T}_dot_vec_vec(__global const {T}* a, __global const {T}* b, __global {T}* results, \
__local {T}* part, int count) \
{ size_t g = get_global_id(0); size_t l = get_local_id(0); {T} acc = 0; \
for (size_t i = g; i < (size_t)count; i += get_global_size(0)) { acc += a[i] * b[i]; } \
part[l] = acc; barrier(CLK_LOCAL_MEM_FENCE); \
if (l == 0) { {T} p = 0; for (size_t k = 0; k < get_local_size(0); k++) { p += part[k]; } \
results[get_group_id(0)] = p; } }
__kernel void {T}_mul_mat_mat(__global {T}* C, __global const {T}* A, __global const {T}* B, \
int C_col_count, int A_col_count) \
{ size_t i = get_global_id(0); size_t r = i / C_col_count; size_t c = i % C_col_count; {T} acc = 0; \
for (int t = 0; t < A_col_count; t++) { acc += A[r * A_col_count + t] * B[t * C_col_count + c]; } \
C[i] = acc; }
__kernel void {T}_mul_vec_mat(__global {T}* C, __global const {T}* A, __global const {T}* B, \
int B_col_count, int A_len) \
{ size_t j = get_global_id(0); {T} acc = 0; \
for (int t = 0; t < A_len; t++) { acc += A[t] * B[t * B_col_count + j]; } C[j] = acc; }
__kernel void {T}_mul_vec_transpose_mat(__global {T}* C, __global const {T}* A, __global const {T}* B, \
int B_col_count, int A_len) \
{ size_t j = get_global_id(0); {T} acc = 0; \
for (int t = 0; t < A_len; t++) { acc += A[t] * B[j * B_col_count + t]; } C[j] = acc; }
";

/// `s` with every match of `from` replaced by `to`: matches are taken from
/// left to right and do not overlap; an empty `from` matches before every
/// character and at the end.
pub open spec fn replaced(s: Seq<char>, from: Seq<char>, to: Seq<char>) -> Seq<char>
    decreases s.len(),
{
    if from.len() == 0 {
        if s.len() == 0 {
            to
        } else {
            to + seq![s[0]] + replaced(s.skip(1), from, to)
        }
    } else if s.len() < from.len() {
        s
    } else if s.take(from.len() as int) == from {
        to + replaced(s.skip(from.len() as int), from, to)
    } else {
        seq![s[0]] + replaced(s.skip(1), from, to)
    }
}

/// Relies on `str::replace`: a new string with every match of `from` in `s`
/// replaced by `to`, matches found left to right without overlap.
#[verifier::external_body]
fn replace_all(s: &str, from: &str, to: &str) -> (r: String)
    ensures
        r@ == replaced(s@, from@, to@),
{
    s.replace(from, to)
}

/// The name of kernel `op` in a program whose kernels carry `prefix`.
pub fn kernel_name(prefix: &str, op: &str) -> (r: String)
    ensures
        r@ == prefix@ + "_"@ + op@,
{
    let mut r = String::from_str(prefix);
    r.append("_");
    r.append(op);
    r
}

/// A program source: the definition of `symbol`, the kernels in `body`,
/// then `extra`, each on lines of its own.
pub fn assemble_source(symbol: &str, body: &str, extra: &str) -> (r: String)
    ensures
        r@ == "#define "@ + symbol@ + "\n"@ + body@ + "\n"@ + extra@,
{
    let mut r = String::from_str("#define ");
    r.append(symbol);
    r.append("\n");
    r.append(body);
    r.append("\n");
    r.append(extra);
    r
}

/// The source of the program for element type `T`: its symbol defined, the
/// template with its device type name put in, and `extra`, which may be
/// empty.
pub fn generate_kernel_source<T: Param>(extra: &str) -> (r: String)
    ensures
        r@ == "#define "@ + T::type_symbol() + "\n"@ + replaced(KERNEL_TEMPLATE@, TYPE_TOKEN@, T::device_type())
            + "\n"@ + extra@,
{
    let body = replace_all(KERNEL_TEMPLATE, TYPE_TOKEN, T::type_to_str());
    assemble_source(T::type_define(), body.as_str(), extra)
}

} // verus!
