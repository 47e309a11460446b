use vstd::prelude::*;

verus! {

/// Trap code handed to the guest when a host future resolves to an error.
pub const HOST_FUTURE_TRAP: u8 = 64;

/// The failures the linker reports.
#[derive(Clone, Debug, PartialEq, Eq)]
pub enum LinkerError {
    LoaderCreate,
    ValidatorCreate,
    ModuleCreate,
    ValidationFailed,
    FuncTypeCreate,
    FuncCreate,
    FuncType,
    InstanceNotFoundFunc(String),
    InstanceNotFoundMem(String),
    MemoryOutOfBounds,
    HostTrap(u8),
    TopLevelError,
}

} // verus!
