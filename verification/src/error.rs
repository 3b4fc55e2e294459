//! The closed set of failures that blob handling can report.
use core::num::TryFromIntError;
use vstd::prelude::*;
use vstd::std_specs::convert::FromSpecImpl;

verus! {

/// Why an operation on a blob failed.
#[derive(Debug, Clone, Copy)]
pub enum Error {
    /// The native layer reported this status; it is kept as it came.
    Raw(i32),
    /// A declared or requested size does not fit the integer type it is
    /// needed in.
    TryFromInt(TryFromIntError),
    /// The bytes are too few to hold a header, or the header declares more
    /// bytes than are present.
    Invalid,
}

impl From<TryFromIntError> for Error {
    fn from(e: TryFromIntError) -> (r: Self) {
        Error::TryFromInt(e)
    }
}

impl FromSpecImpl<TryFromIntError> for Error {
    open spec fn obeys_from_spec() -> bool {
        true
    }

    open spec fn from_spec(e: TryFromIntError) -> Self {
        Error::TryFromInt(e)
    }
}

} // verus!
