//! The operations on installed packages. Neither keeps any record yet: both
//! accept every name and change nothing.

use vstd::prelude::*;

use crate::error::BuildError;

verus! {

/// Looks up the installed package `name`. There is no record of installed
/// packages to consult, so the query succeeds and reports nothing.
pub fn info(name: &str) -> (result: Result<(), BuildError>)
    ensures
        result is Ok,
{
    Ok(())
}

/// Removes the installed package `name`. There is no record of installed
/// packages to change, so the removal succeeds and removes nothing.
pub fn uninstall(name: &str) -> (result: Result<(), BuildError>)
    ensures
        result is Ok,
{
    Ok(())
}

} // verus!
