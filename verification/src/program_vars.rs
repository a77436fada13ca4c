//! Process-wide configuration passed explicitly into each call: no ambient
//! global state.

use vstd::prelude::*;
use crate::records::Error;
use crate::text::str_eq;

verus! {

/// Flags and paths derived from the command line.
pub struct ProgramVars {
    pub debug: bool,
    pub verbose: bool,
    pub exe_path: String,
    pub help: bool,
}

impl ProgramVars {
    /// Whether a verbose-only message should be printed.
    pub fn alerts(&self) -> (r: bool)
        ensures
            r == (self.verbose || self.debug),
    {
        self.verbose || self.debug
    }
}

/// Default values: every flag off, no path.
pub fn init_vars() -> (r: ProgramVars)
    ensures
        !r.debug,
        !r.verbose,
        r.exe_path@ == Seq::<char>::empty(),
        !r.help,
{
    ProgramVars {
        debug: false,
        verbose: false,
        exe_path: String::new(),
        help: false,
    }
}

/// What one option token asks for: which flag it switches on.
pub open spec fn option_effect(s: Seq<char>) -> Option<bool> {
    if s == "--verbose"@ || s == "-v"@ {
        Some(true)
    } else if s == "--help"@ || s == "-h"@ {
        Some(false)
    } else {
        None
    }
}

/// Applies the option tokens to the flags: `--verbose`/`-v` sets `verbose`,
/// `--help`/`-h` sets `help`, anything else is a syntax error.
pub fn apply_options(vars: &mut ProgramVars, options: &Vec<String>) -> (r: Result<(), Error>)
    ensures
        r matches Ok(_) ==> forall|i: int|
            0 <= i < options@.len() ==> option_effect(#[trigger] options@[i]@) is Some,
        r matches Err(e) ==> e == Error::Syntax && (exists|i: int|
            0 <= i < options@.len() && option_effect(#[trigger] options@[i]@) is None),
        final(vars).verbose == (old(vars).verbose || exists|i: int|
            0 <= i < options@.len() && option_effect(#[trigger] options@[i]@) == Some(true)
            && (forall|j: int| 0 <= j < i ==> option_effect(#[trigger] options@[j]@) is Some)),
        final(vars).help == (old(vars).help || exists|i: int|
            0 <= i < options@.len() && option_effect(#[trigger] options@[i]@) == Some(false)
            && (forall|j: int| 0 <= j < i ==> option_effect(#[trigger] options@[j]@) is Some)),
        final(vars).debug == old(vars).debug,
        final(vars).exe_path == old(vars).exe_path,
{
    let n: usize = options.len();
    let mut k: usize = 0;
    while k < n
        invariant
            n == options@.len(),
            0 <= k <= n,
            forall|j: int| 0 <= j < k ==> option_effect(#[trigger] options@[j]@) is Some,
            vars.verbose == (old(vars).verbose || exists|i: int|
                0 <= i < k && option_effect(#[trigger] options@[i]@) == Some(true)),
            vars.help == (old(vars).help || exists|i: int|
                0 <= i < k && option_effect(#[trigger] options@[i]@) == Some(false)),
            vars.debug == old(vars).debug,
            vars.exe_path == old(vars).exe_path,
        decreases n - k,
    {
        let opt: &String = &options[k];
        if str_eq(opt.as_str(), "--verbose") || str_eq(opt.as_str(), "-v") {
            vars.verbose = true;
        } else if str_eq(opt.as_str(), "--help") || str_eq(opt.as_str(), "-h") {
            vars.help = true;
        } else {
            return Err(Error::Syntax);
        }
        k = k + 1;
    }
    Ok(())
}

} // verus!
