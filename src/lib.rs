//! The logic behind the desktop shell's one bridge command: revealing a path
//! in the system's file manager.
//!
//! Opening a path is the host's business; the command only decides what to ask
//! of the host's opener and what to report back to the caller. The opener is
//! handed in as a function value, so any implementation of it (the host's, or
//! one that records its calls) can stand behind the command.

use vstd::prelude::*;

verus! {

/// Reveals `path` in the system's file manager through `open`, the host's
/// capability to open a path with the system's default handler (its second
/// argument names another program to open it with).
///
/// `open` is called exactly once, with `path` unchanged and no program named.
/// Whatever it returns is discarded: the command reports success for every
/// path, whether or not anything could be opened.
pub fn reveal_finder<E, F>(open: F, path: String) -> (r: Result<(), String>)
    where
        F: FnOnce(String, Option<String>) -> Result<(), E>,
    requires
        open.requires((path, None::<String>)),
    ensures
        r == Ok::<(), String>(()),
        exists|outcome: Result<(), E>| open.ensures((path, None::<String>), outcome),
{
    let _outcome = open(path, None);
    Ok(())
}

} // verus!
