//! The error model: one error type for everything that can go wrong between
//! a caller, the native engine and a match handler.

use vstd::prelude::*;

verus! {

/// The native engine's status for a call that succeeded.
pub const HS_SUCCESS: i32 = 0;

/// A parameter passed to the native engine was invalid.
pub const HS_INVALID: i32 = -1;

/// The native engine could not allocate memory.
pub const HS_NOMEM: i32 = -2;

/// The native engine stopped scanning because the match callback asked it to.
pub const HS_SCAN_TERMINATED: i32 = -3;

/// The pattern compiler failed.
pub const HS_COMPILER_ERROR: i32 = -4;

/// The database was built by another version of the native engine.
pub const HS_DB_VERSION_ERROR: i32 = -5;

/// The database was built for another platform.
pub const HS_DB_PLATFORM_ERROR: i32 = -6;

/// The database was built for another mode of operation.
pub const HS_DB_MODE_ERROR: i32 = -7;

/// A parameter was not correctly aligned.
pub const HS_BAD_ALIGN: i32 = -8;

/// The allocator returned memory that was not suitably aligned.
pub const HS_BAD_ALLOC: i32 = -9;

/// The scratch workspace was already in use.
pub const HS_SCRATCH_IN_USE: i32 = -10;

/// The native engine does not support this processor.
pub const HS_ARCH_ERROR: i32 = -11;

/// A buffer handed to the native engine was too small.
pub const HS_INSUFFICIENT_SPACE: i32 = -12;

/// The native engine failed for a reason it cannot name.
pub const HS_UNKNOWN_ERROR: i32 = -13;

/// The failure statuses of the native engine, by name.
#[derive(Clone, Copy, Debug, PartialEq, Eq)]
pub enum HyperscanErrorCode {
    Invalid,
    Nomem,
    ScanTerminated,
    CompilerError,
    DbVersionError,
    DbPlatformError,
    DbModeError,
    BadAlign,
    BadAlloc,
    ScratchInUse,
    ArchError,
    InsufficientSpace,
    UnknownError,
}

impl HyperscanErrorCode {
    /// The name of a native status. A status the engine does not define
    /// reads as `UnknownError`.
    pub open spec fn of(status: i32) -> HyperscanErrorCode {
        if status == HS_INVALID {
            HyperscanErrorCode::Invalid
        } else if status == HS_NOMEM {
            HyperscanErrorCode::Nomem
        } else if status == HS_SCAN_TERMINATED {
            HyperscanErrorCode::ScanTerminated
        } else if status == HS_COMPILER_ERROR {
            HyperscanErrorCode::CompilerError
        } else if status == HS_DB_VERSION_ERROR {
            HyperscanErrorCode::DbVersionError
        } else if status == HS_DB_PLATFORM_ERROR {
            HyperscanErrorCode::DbPlatformError
        } else if status == HS_DB_MODE_ERROR {
            HyperscanErrorCode::DbModeError
        } else if status == HS_BAD_ALIGN {
            HyperscanErrorCode::BadAlign
        } else if status == HS_BAD_ALLOC {
            HyperscanErrorCode::BadAlloc
        } else if status == HS_SCRATCH_IN_USE {
            HyperscanErrorCode::ScratchInUse
        } else if status == HS_ARCH_ERROR {
            HyperscanErrorCode::ArchError
        } else if status == HS_INSUFFICIENT_SPACE {
            HyperscanErrorCode::InsufficientSpace
        } else {
            HyperscanErrorCode::UnknownError
        }
    }

    /// The native status that the engine itself uses for a name.
    pub open spec fn status(self) -> i32 {
        match self {
            HyperscanErrorCode::Invalid => HS_INVALID,
            HyperscanErrorCode::Nomem => HS_NOMEM,
            HyperscanErrorCode::ScanTerminated => HS_SCAN_TERMINATED,
            HyperscanErrorCode::CompilerError => HS_COMPILER_ERROR,
            HyperscanErrorCode::DbVersionError => HS_DB_VERSION_ERROR,
            HyperscanErrorCode::DbPlatformError => HS_DB_PLATFORM_ERROR,
            HyperscanErrorCode::DbModeError => HS_DB_MODE_ERROR,
            HyperscanErrorCode::BadAlign => HS_BAD_ALIGN,
            HyperscanErrorCode::BadAlloc => HS_BAD_ALLOC,
            HyperscanErrorCode::ScratchInUse => HS_SCRATCH_IN_USE,
            HyperscanErrorCode::ArchError => HS_ARCH_ERROR,
            HyperscanErrorCode::InsufficientSpace => HS_INSUFFICIENT_SPACE,
            HyperscanErrorCode::UnknownError => HS_UNKNOWN_ERROR,
        }
    }

    /// Names a native status.
    pub fn from_status(status: i32) -> (code: HyperscanErrorCode)
        ensures
            code == HyperscanErrorCode::of(status),
    {
        if status == HS_INVALID {
            HyperscanErrorCode::Invalid
        } else if status == HS_NOMEM {
            HyperscanErrorCode::Nomem
        } else if status == HS_SCAN_TERMINATED {
            HyperscanErrorCode::ScanTerminated
        } else if status == HS_COMPILER_ERROR {
            HyperscanErrorCode::CompilerError
        } else if status == HS_DB_VERSION_ERROR {
            HyperscanErrorCode::DbVersionError
        } else if status == HS_DB_PLATFORM_ERROR {
            HyperscanErrorCode::DbPlatformError
        } else if status == HS_DB_MODE_ERROR {
            HyperscanErrorCode::DbModeError
        } else if status == HS_BAD_ALIGN {
            HyperscanErrorCode::BadAlign
        } else if status == HS_BAD_ALLOC {
            HyperscanErrorCode::BadAlloc
        } else if status == HS_SCRATCH_IN_USE {
            HyperscanErrorCode::ScratchInUse
        } else if status == HS_ARCH_ERROR {
            HyperscanErrorCode::ArchError
        } else if status == HS_INSUFFICIENT_SPACE {
            HyperscanErrorCode::InsufficientSpace
        } else {
            HyperscanErrorCode::UnknownError
        }
    }
}

/// The diagnostic that the native compiler leaves behind when it rejects a
/// pattern set: its text, and the position of the pattern at fault, negative
/// where no single pattern is.
#[derive(Clone, Debug, PartialEq, Eq)]
pub struct CompileError {
    pub message: String,
    pub expression: i32,
}

/// Everything that can go wrong, in one type. `E` is whatever a match handler
/// fails with; this library hands such a value on and never looks inside.
#[derive(Clone, Debug, PartialEq, Eq)]
pub enum Error<E> {
    /// A pattern expression holds a zero byte, at this position.
    MalformedInput(usize),
    /// The native engine returned this failure status from a call other than
    /// a compilation.
    EngineStatus(HyperscanErrorCode, i32),
    /// The native compiler rejected the pattern set, with this text, for the
    /// pattern at this position (negative: for no single pattern).
    CompileFailed(String, i32),
    /// The match handler failed with this value.
    HandlerFailed(E),
}

impl<E> Error<E> {
    /// The error for a diagnostic of the native compiler.
    pub open spec fn of_compile_error(diagnostic: CompileError) -> Error<E> {
        Error::CompileFailed(diagnostic.message, diagnostic.expression)
    }

    /// Turns a diagnostic of the native compiler into an error.
    pub fn from_compile_error(diagnostic: CompileError) -> (error: Error<E>)
        ensures
            error == Error::<E>::of_compile_error(diagnostic),
    {
        Error::CompileFailed(diagnostic.message, diagnostic.expression)
    }
}

/// What a native status means for the call that returned it.
pub open spec fn status_result<E>(status: i32) -> Result<(), Error<E>> {
    if status == HS_SUCCESS {
        Ok(())
    } else {
        Err(Error::EngineStatus(HyperscanErrorCode::of(status), status))
    }
}

/// Checks the status that a native call returned: success is `Ok`, every
/// other status is an `EngineStatus` error that carries the status and its
/// name.
pub fn as_result<E>(status: i32) -> (result: Result<(), Error<E>>)
    ensures
        result == status_result::<E>(status),
{
    if status == HS_SUCCESS {
        Ok(())
    } else {
        Err(Error::EngineStatus(HyperscanErrorCode::from_status(status), status))
    }
}

/// The names and the failure statuses of the native engine correspond one to
/// one: a name's status reads back as that name, and a failure status that
/// the engine defines is the status of its name.
pub proof fn lemma_status_names_correspond(code: HyperscanErrorCode, status: i32)
    ensures
        HyperscanErrorCode::of(code.status()) == code,
        HS_UNKNOWN_ERROR <= status <= HS_INVALID ==> HyperscanErrorCode::of(status).status()
            == status,
        HS_UNKNOWN_ERROR <= code.status() <= HS_INVALID,
{
}

} // verus!
