//! The binding of host element types to their device-side names.
use vstd::prelude::*;

verus! {

/// An element type with a device-side counterpart.
pub trait Parameter: Copy {
    /// The name of the device type.
    spec fn device_type() -> Seq<char>;

    /// The name of the device type, as kernel source spells it.
    fn type_to_str() -> (r: &'static str)
        ensures
            r@ == Self::device_type(),
    ;
}

/// An element type for which a kernel program is built: it names the
/// program's kernels and enables the type's conditional code.
pub trait Param: Parameter {
    /// The prefix of every kernel name in the type's program: the device type
    /// name.
    fn ocl_type_name() -> (r: &'static str)
        ensures
            r@ == Self::device_type(),
    ;

    /// The preprocessor symbol defined in the type's program.
    spec fn type_symbol() -> Seq<char>;

    fn type_define() -> (r: &'static str)
        ensures
            r@ == Self::type_symbol(),
    ;

    /// The key of the type's program in a program cache, distinct for every
    /// type.
    spec fn tag() -> u8;

    fn type_tag() -> (r: u8)
        ensures
            r == Self::tag(),
    ;
}

impl Parameter for u8 {
    open spec fn device_type() -> Seq<char> {
        "uchar"@
    }

    fn type_to_str() -> (r: &'static str) {
        "uchar"
    }
}

impl Param for u8 {
    fn ocl_type_name() -> (r: &'static str) {
        "uchar"
    }

    open spec fn type_symbol() -> Seq<char> {
        "IS_UCHAR"@
    }

    fn type_define() -> (r: &'static str) {
        "IS_UCHAR"
    }

    open spec fn tag() -> u8 {
        0
    }

    fn type_tag() -> (r: u8) {
        0
    }
}

impl Parameter for i8 {
    open spec fn device_type() -> Seq<char> {
        "char"@
    }

    fn type_to_str() -> (r: &'static str) {
        "char"
    }
}

impl Param for i8 {
    fn ocl_type_name() -> (r: &'static str) {
        "char"
    }

    open spec fn type_symbol() -> Seq<char> {
        "IS_CHAR"@
    }

    fn type_define() -> (r: &'static str) {
        "IS_CHAR"
    }

    open spec fn tag() -> u8 {
        1
    }

    fn type_tag() -> (r: u8) {
        1
    }
}

impl Parameter for u16 {
    open spec fn device_type() -> Seq<char> {
        "ushort"@
    }

    fn type_to_str() -> (r: &'static str) {
        "ushort"
    }
}

impl Param for u16 {
    fn ocl_type_name() -> (r: &'static str) {
        "ushort"
    }

    open spec fn type_symbol() -> Seq<char> {
        "IS_USHORT"@
    }

    fn type_define() -> (r: &'static str) {
        "IS_USHORT"
    }

    open spec fn tag() -> u8 {
        2
    }

    fn type_tag() -> (r: u8) {
        2
    }
}

impl Parameter for i16 {
    open spec fn device_type() -> Seq<char> {
        "short"@
    }

    fn type_to_str() -> (r: &'static str) {
        "short"
    }
}

impl Param for i16 {
    fn ocl_type_name() -> (r: &'static str) {
        "short"
    }

    open spec fn type_symbol() -> Seq<char> {
        "IS_SHORT"@
    }

    fn type_define() -> (r: &'static str) {
        "IS_SHORT"
    }

    open spec fn tag() -> u8 {
        3
    }

    fn type_tag() -> (r: u8) {
        3
    }
}

impl Parameter for u32 {
    open spec fn device_type() -> Seq<char> {
        "uint"@
    }

    fn type_to_str() -> (r: &'static str) {
        "uint"
    }
}

impl Param for u32 {
    fn ocl_type_name() -> (r: &'static str) {
        "uint"
    }

    open spec fn type_symbol() -> Seq<char> {
        "IS_UINT"@
    }

    fn type_define() -> (r: &'static str) {
        "IS_UINT"
    }

    open spec fn tag() -> u8 {
        4
    }

    fn type_tag() -> (r: u8) {
        4
    }
}

impl Parameter for i32 {
    open spec fn device_type() -> Seq<char> {
        "int"@
    }

    fn type_to_str() -> (r: &'static str) {
        "int"
    }
}

impl Param for i32 {
    fn ocl_type_name() -> (r: &'static str) {
        "int"
    }

    open spec fn type_symbol() -> Seq<char> {
        "IS_INT"@
    }

    fn type_define() -> (r: &'static str) {
        "IS_INT"
    }

    open spec fn tag() -> u8 {
        5
    }

    fn type_tag() -> (r: u8) {
        5
    }
}

impl Parameter for u64 {
    open spec fn device_type() -> Seq<char> {
        "ulong"@
    }

    fn type_to_str() -> (r: &'static str) {
        "ulong"
    }
}

impl Param for u64 {
    fn ocl_type_name() -> (r: &'static str) {
        "ulong"
    }

    open spec fn type_symbol() -> Seq<char> {
        "IS_ULONG"@
    }

    fn type_define() -> (r: &'static str) {
        "IS_ULONG"
    }

    open spec fn tag() -> u8 {
        6
    }

    fn type_tag() -> (r: u8) {
        6
    }
}

impl Parameter for i64 {
    open spec fn device_type() -> Seq<char> {
        "long"@
    }

    fn type_to_str() -> (r: &'static str) {
        "long"
    }
}

impl Param for i64 {
    fn ocl_type_name() -> (r: &'static str) {
        "long"
    }

    open spec fn type_symbol() -> Seq<char> {
        "IS_LONG"@
    }

    fn type_define() -> (r: &'static str) {
        "IS_LONG"
    }

    open spec fn tag() -> u8 {
        7
    }

    fn type_tag() -> (r: u8) {
        7
    }
}

} // verus!
