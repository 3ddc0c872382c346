//! The places control can rest in and the phases an observer tells apart.

use vstd::prelude::*;

verus! {

/// What an observer outside the machine can tell about it.
#[derive(Clone, Copy, Debug, PartialEq, Eq)]
pub enum Phase {
    /// The bootloader owns the processor; no kernel code has run.
    Booting,
    /// The entry point has been reached and is running.
    KernelEntered,
    /// No further forward progress is made. Terminal.
    Halted,
}

/// The code in which control rests.
#[derive(Clone, Copy, Debug, PartialEq, Eq)]
pub enum Site {
    /// Firmware or bootloader code, before the transfer to the kernel.
    Bootloader,
    /// The first instruction of the entry point.
    Entry,
    /// The halt loop the entry point falls into.
    EntryHalt,
    /// The halt loop of the panic handler.
    PanicHalt,
}

impl Site {
    /// The phase an outside observer sees while control rests here. The two
    /// halt loops look alike from outside.
    pub open spec fn spec_phase(self) -> Phase {
        match self {
            Site::Bootloader => Phase::Booting,
            Site::Entry => Phase::KernelEntered,
            Site::EntryHalt | Site::PanicHalt => Phase::Halted,
        }
    }

    /// The phase an outside observer sees while control rests here.
    #[verifier::when_used_as_spec(spec_phase)]
    pub fn phase(self) -> (phase: Phase)
        ensures
            phase == self.spec_phase(),
    {
        match self {
            Site::Bootloader => Phase::Booting,
            Site::Entry => Phase::KernelEntered,
            Site::EntryHalt | Site::PanicHalt => Phase::Halted,
        }
    }
}

} // verus!
