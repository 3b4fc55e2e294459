//! Native return values read as results.
use crate::error::Error;
use vstd::prelude::*;

verus! {

/// Reads a native return value that is a size unless it is an error:
/// a negative value is an error code, anything else is the size.
pub fn wrap_usize(code: i32) -> (r: Result<usize, Error>)
    ensures
        code >= 0 ==> r == Ok::<usize, Error>(code as usize),
        code < 0 ==> r == Err::<usize, Error>(Error::Raw(code)),
{
    match usize::try_from(code) {
        Ok(n) => Ok(n),
        Err(_) => Err(Error::Raw(code)),
    }
}

/// Reads a native status: zero is success, every other value is an error
/// code and is kept as it came.
pub fn wrap_unit(code: i32) -> (r: Result<(), Error>)
    ensures
        code == 0 ==> r == Ok::<(), Error>(()),
        code != 0 ==> r == Err::<(), Error>(Error::Raw(code)),
{
    if code == 0 {
        Ok(())
    } else {
        Err(Error::Raw(code))
    }
}

} // verus!
