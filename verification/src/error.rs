use vstd::prelude::*;

verus! {

/// The four ways an operation of this library can fail, by what the caller can do about it.
#[derive(Debug, Clone, Copy, PartialEq, Eq, Structural)]
pub enum ErrorKind {
    /// The plugin reported an error; its message is handed on verbatim.
    RuntimeError,
    /// The plugin broke its own calling convention: a handle that must not be null was null,
    /// or an entry point is absent from the function table.
    AbiContractViolation,
    /// The caller handed in something malformed; nothing was sent to the plugin.
    CallerPrecondition,
    /// The plugin reported a tag outside the set this library knows.
    UnrecognizedVariant,
}

/// Every failure the library reports.
#[derive(Debug, Clone, PartialEq, Eq)]
pub enum Error {
    /// A plugin call returned an error handle; `msg` is the text the plugin gave for it.
    PjrtError { msg: String },
    /// A handle or pointer that the plugin guarantees to be non-null was null.
    NullPointer,
    /// The named entry point is absent from the plugin's function table.
    NullFunctionPointer(&'static str),
    /// A memory layout record carried a type tag that is neither tiled nor strided.
    InvalidMemoryLayoutType(u32),
    /// A named value record carried an unknown type tag.
    InvalidNamedValueType(u32),
    /// An element type tag outside the known set.
    InvalidPrimitiveType(u32),
    /// A program format name that is not one of the known formats; it carries
    /// the bytes of the name.
    InvalidProgramFormat(Vec<u8>),
    /// Exactly one of the two tiling fields of a tiled layout is present.
    PartialTiling,
    /// The per-device argument lists do not all have the same length.
    ArgumentCountMismatch { device: usize, expected: usize, found: usize },
    /// No per-device argument list was supplied at all.
    NoDevices,
}

impl Error {
    /// The class of failure that this error belongs to.
    pub open spec fn spec_kind(self) -> ErrorKind {
        match self {
            Error::PjrtError { .. } => ErrorKind::RuntimeError,
            Error::NullPointer => ErrorKind::AbiContractViolation,
            Error::NullFunctionPointer(_) => ErrorKind::AbiContractViolation,
            Error::InvalidMemoryLayoutType(_) => ErrorKind::UnrecognizedVariant,
            Error::InvalidNamedValueType(_) => ErrorKind::UnrecognizedVariant,
            Error::InvalidPrimitiveType(_) => ErrorKind::UnrecognizedVariant,
            Error::InvalidProgramFormat(_) => ErrorKind::UnrecognizedVariant,
            Error::PartialTiling => ErrorKind::CallerPrecondition,
            Error::ArgumentCountMismatch { .. } => ErrorKind::CallerPrecondition,
            Error::NoDevices => ErrorKind::CallerPrecondition,
        }
    }

    /// Classifies the error.
    pub fn kind(&self) -> (k: ErrorKind)
        ensures
            k == self.spec_kind(),
    {
        match self {
            Error::PjrtError { .. } => ErrorKind::RuntimeError,
            Error::NullPointer => ErrorKind::AbiContractViolation,
            Error::NullFunctionPointer(_) => ErrorKind::AbiContractViolation,
            Error::InvalidMemoryLayoutType(_) => ErrorKind::UnrecognizedVariant,
            Error::InvalidNamedValueType(_) => ErrorKind::UnrecognizedVariant,
            Error::InvalidPrimitiveType(_) => ErrorKind::UnrecognizedVariant,
            Error::InvalidProgramFormat(_) => ErrorKind::UnrecognizedVariant,
            Error::PartialTiling => ErrorKind::CallerPrecondition,
            Error::ArgumentCountMismatch { .. } => ErrorKind::CallerPrecondition,
            Error::NoDevices => ErrorKind::CallerPrecondition,
        }
    }

    /// Whether the caller may carry on after this error. Only a broken calling
    /// convention is fatal.
    pub fn is_recoverable(&self) -> (b: bool)
        ensures
            b == (self.spec_kind() != ErrorKind::AbiContractViolation),
    {
        match self.kind() {
            ErrorKind::AbiContractViolation => false,
            _ => true,
        }
    }
}

} // verus!
