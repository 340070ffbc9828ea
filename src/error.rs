use vstd::prelude::*;

verus! {

/// Failure classes reported by every fallible operation of the library.
#[derive(Debug, Clone, Copy, PartialEq, Eq, Structural)]
pub enum Error {
    /// The transport or a system call failed.
    IOError,
    /// A lookup by name or by predicate found nothing, or a collection was empty.
    NoneError,
    /// A size, count or tag did not fit the target integer width or range.
    OutOfRangeError,
    /// A name supplied by the kernel was not valid UTF-8 text.
    StringConversionError,
    /// The requested combination is not supported by this layer.
    UnsupportedError,
    /// An operation was attempted before its prerequisite state existed.
    UninitializedError,
}

} // verus!
