use linalg::cache::ProgramCache;
use linalg::dispatch::{eq_launch, mat_mul_launch, reduce_launch, vec_mat_launch, zip_launch, BufferRole, KernelArg};
use linalg::elementwise::BinaryOp;
use linalg::layout::{read_u64, write_u64, FormatError};
use linalg::reduce::{combine_partials, reduce};
use linalg::launch::{select_device, MAX_WORK_GROUP_SIZE, WORK_GROUP_COUNT};
use linalg::source::{assemble_source, kernel_name, generate_kernel_source};
use linalg::{ShapeError, abs, are_close, DeviceKind, KernelParams, Param, Parameter};

#[test]
fn launch_geometry_is_clamped() {
    let p = KernelParams::from_preferred_size(32);
    assert_eq!(p.work_group_size, 32);
    assert_eq!(p.work_group_count, WORK_GROUP_COUNT);
    assert_eq!(p.global_work_size, 32 * WORK_GROUP_COUNT);
    let q = KernelParams::from_preferred_size(4096);
    assert_eq!(q.work_group_size, MAX_WORK_GROUP_SIZE);
    assert_eq!(q.global_work_size, MAX_WORK_GROUP_SIZE * WORK_GROUP_COUNT);
}

#[test]
fn device_selection_prefers_accelerators() {
    assert_eq!(select_device(&vec![DeviceKind::General, DeviceKind::General, DeviceKind::Accelerator, DeviceKind::Accelerator]), Some(2));
    assert_eq!(select_device(&vec![DeviceKind::General, DeviceKind::General]), Some(0));
    assert_eq!(select_device(&vec![]), None);
}

#[test]
fn type_binding_names() {
    assert_eq!(<u32 as Parameter>::type_to_str(), "uint");
    assert_eq!(<i8 as Parameter>::type_to_str(), "char");
    assert_eq!(<i64 as Param>::ocl_type_name(), "long");
    assert_eq!(<u16 as Param>::type_define(), "IS_USHORT");
    assert_ne!(<u32 as Param>::type_tag(), <i32 as Param>::type_tag());
}

#[test]
fn kernel_names_carry_the_type_prefix() {
    assert_eq!(kernel_name("float", "add_vec_vec"), "float_add_vec_vec");
    assert_eq!(kernel_name(<i32 as Param>::ocl_type_name(), "mul_mat_mat"), "int_mul_mat_mat");
}

#[test]
fn generate_kernel_source_substitutes_the_type() {
    let src = generate_kernel_source::<u32>("__kernel void extra() {}");
    assert!(src.starts_with("#define IS_UINT\n"));
    assert!(src.contains("__kernel void uint_add_vec_vec(__global uint* C"));
    assert!(src.contains("uint_mul_vec_transpose_mat"));
    assert!(!src.contains("{T}"));
    assert!(src.ends_with("\n__kernel void extra() {}"));
    assert_eq!(assemble_source("IS_INT", "body", ""), "#define IS_INT\nbody\n");
}

#[test]
fn program_cache_builds_once_per_type() {
    let mut cache: ProgramCache<String> = ProgramCache::new();
    let tag = <u32 as Param>::type_tag();
    assert!(cache.lookup(tag).is_none());
    cache.insert(tag, generate_kernel_source::<u32>(""));
    assert!(cache.lookup(tag).unwrap().contains("uint_sum_vec"));
    assert!(cache.lookup(<i32 as Param>::type_tag()).is_none());
}

#[test]
fn closeness_helpers() {
    assert_eq!(abs(-5), 5);
    assert_eq!(abs(7), 7);
    assert!(are_close(10, 12, 3));
    assert!(!are_close(10, 13, 3));
    assert!(are_close(i32::MIN, i32::MIN, 1));
}

#[test]
fn partial_results_combine_wrapping() {
    assert_eq!(combine_partials(&vec![1, 2, 3, 4]), 10);
    assert_eq!(combine_partials(&vec![u32::MAX, 5]), 4);
    assert_eq!(combine_partials::<u32>(&vec![]), 0);
}

#[test]
fn reduce_with_explicit_geometry() {
    let a: Vec<u32> = (1..=10).collect();
    let b: Vec<u32> = vec![2; 10];
    let p = KernelParams::from_preferred_size(3);
    assert_eq!(reduce(&a, None, p), 55);
    assert_eq!(reduce(&a, Some(&b), p), 110);
}

#[test]
fn u64_fields_are_little_endian() {
    let mut out = vec![9u8];
    write_u64(&mut out, 0x0102_0304_0506_0708);
    assert_eq!(out, vec![9, 8, 7, 6, 5, 4, 3, 2, 1]);
    assert_eq!(read_u64(&out, 1), Ok(0x0102_0304_0506_0708));
    assert_eq!(read_u64(&out, 2), Err(FormatError::Truncated));
    assert_eq!(read_u64(&out, 100), Err(FormatError::Truncated));
}

#[test]
fn launches_bind_arguments_by_role() {
    let z = zip_launch(BinaryOp::Add, false, 5, Some(5)).unwrap();
    assert_eq!(z.kernel, "add_vec_vec");
    assert_eq!(
        z.args,
        vec![
            KernelArg::Buffer(BufferRole::Dest),
            KernelArg::Buffer(BufferRole::Left),
            KernelArg::Buffer(BufferRole::Right)
        ]
    );
    assert_eq!(z.global_size, 5);
    assert_eq!(
        zip_launch(BinaryOp::Add, false, 5, Some(4)).err(),
        Some(ShapeError::LengthMismatch { expected: 5, found: 4 })
    );
    let s = zip_launch(BinaryOp::Mul, true, 3, None).unwrap();
    assert_eq!(s.kernel, "mul_assign_vec_scl");
    assert_eq!(s.args, vec![KernelArg::Buffer(BufferRole::Dest), KernelArg::Operand]);
    let p = KernelParams::from_preferred_size(16);
    let r = reduce_launch(970, Some(970), p).unwrap();
    assert_eq!(r.kernel, "dot_vec_vec");
    assert_eq!(r.args.len(), 5);
    assert_eq!(r.args[4], KernelArg::Shape(970));
    assert_eq!(r.global_size, 16 * WORK_GROUP_COUNT);
    assert_eq!(r.local_size, Some(16));
    assert_eq!(reduce_launch(970, None, p).unwrap().kernel, "sum_vec");
    assert!(reduce_launch(970, Some(3), p).is_err());
    let m = mat_mul_launch(2, 3, 3, 4).unwrap();
    assert_eq!(m.global_size, 8);
    assert_eq!(m.args[3], KernelArg::Shape(4));
    assert_eq!(m.args[4], KernelArg::Shape(3));
    assert_eq!(
        mat_mul_launch(2, 1, 0, 2).err(),
        Some(ShapeError::DimensionMismatch { left_rows: 2, left_cols: 1, right_rows: 0, right_cols: 2 })
    );
    let t = vec_mat_launch(4, 3, 4, true).unwrap();
    assert_eq!(t.kernel, "mul_vec_transpose_mat");
    assert_eq!(t.global_size, 3);
    assert_eq!(
        vec_mat_launch(4, 3, 4, false).err(),
        Some(ShapeError::LengthMismatch { expected: 3, found: 4 })
    );
    assert_eq!(eq_launch(7, 7).unwrap().kernel, "eq_vec");
    assert!(eq_launch(7, 6).is_none());
}
