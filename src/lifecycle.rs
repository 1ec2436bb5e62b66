use vstd::prelude::*;
use crate::value::{Error, ErrorKind};

verus! {

/// The outcome of starting the runtime, from the status it reported: any
/// non-zero status is a failure.
pub fn initialize_outcome(status: i32) -> (r: Result<(), Error>)
    ensures
        r == (if status == 0 {
            Ok::<(), Error>(())
        } else {
            Err(Error(ErrorKind::InitializationFailed))
        }),
{
    if status != 0 {
        Err(Error(ErrorKind::InitializationFailed))
    } else {
        Ok(())
    }
}

/// The outcome of loading source files, from the status the runtime
/// reported: any non-zero status is a failure.
pub fn load_outcome(status: i32) -> (r: Result<(), Error>)
    ensures
        r == (if status == 0 {
            Ok::<(), Error>(())
        } else {
            Err(Error(ErrorKind::LoadFailed))
        }),
{
    if status != 0 {
        Err(Error(ErrorKind::LoadFailed))
    } else {
        Ok(())
    }
}

} // verus!
