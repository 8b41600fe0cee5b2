use vstd::prelude::*;

use crate::error::Error;

verus! {

/// Guard for commands that need Docker Desktop: fails unless the host is macOS.
pub fn ensure_macos(is_macos: bool) -> (r: Result<(), Error>)
    ensures
        is_macos ==> r is Ok,
        !is_macos ==> r matches Err(Error::UnsupportedPlatform),
{
    if !is_macos {
        return Err(Error::UnsupportedPlatform);
    }
    Ok(())
}

} // verus!
