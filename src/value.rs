use vstd::prelude::*;

verus! {

/// A typed guest value as it crosses the host boundary.
///
/// Floating-point values are carried by their IEEE-754 bit patterns.
#[derive(Clone, Copy, Debug, PartialEq, Eq, Structural)]
pub enum WasmVal {
    I32(i32),
    I64(i64),
    F32(u32),
    F64(u64),
    V128(i128),
}

} // verus!
