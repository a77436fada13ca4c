//! The bootstrap check: `init` takes no arguments beyond its own word. The
//! directory creation itself is filesystem work and stays with the caller,
//! which maps any creation fault to the directory error.

use vstd::prelude::*;
use crate::records::Error;

verus! {

/// Validates the arity of an `init` invocation: the `init` word must stand
/// alone.
pub fn init(args: &Vec<String>) -> (r: Result<(), Error>)
    ensures
        r matches Ok(_) ==> args@.len() == 1,
        r matches Err(e) ==> e == Error::Syntax && args@.len() != 1,
{
    if args.len() != 1 {
        return Err(Error::Syntax);
    }
    Ok(())
}

} // verus!
