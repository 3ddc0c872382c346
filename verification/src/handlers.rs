//! The two components of the kernel image: the entry point and the panic
//! handler. Each decides where control rests once it has run; the image
//! itself then spins there.

use vstd::prelude::*;
use crate::lifecycle::{Phase, Site};
use crate::payload::Diagnostic;

verus! {

/// The entry point, the first kernel code to run after the hand-off. It reads
/// no argument, sets nothing up and falls through into its halt loop.
pub fn entry_point() -> (site: Site)
    ensures
        site == Site::EntryHalt,
        site.phase() == Phase::Halted,
{
    Site::EntryHalt
}

/// The panic handler, called by the runtime when a check fails. It accepts
/// the payload, makes no use of it, and goes straight into its halt loop. It
/// depends on no earlier state, so it may be called at any point.
pub fn panic_handler(info: &Diagnostic) -> (site: Site)
    ensures
        site == Site::PanicHalt,
        site.phase() == Phase::Halted,
{
    let _ = info;
    Site::PanicHalt
}

} // verus!
