//! The machine as a whole: the events that move control, one step, and a
//! run over a trace of events.

use vstd::prelude::*;
use crate::handlers::{entry_point, panic_handler};
use crate::laws::lemma_run_is_observed;
use crate::lifecycle::{Phase, Site};
use crate::payload::Diagnostic;

verus! {

/// Something that happens to the machine.
#[derive(Clone, Copy, Debug, PartialEq, Eq)]
pub enum Event<'a> {
    /// The bootloader transfers control to the entry symbol.
    Handoff,
    /// The processor runs one more cycle of the code control rests in.
    Cycle,
    /// The runtime detects an unrecoverable fault and calls the panic handler
    /// with this payload.
    Fault(Diagnostic<'a>),
}

impl Phase {
    /// The phase that follows `self` when `event` happens.
    ///
    /// A fault halts the machine from any phase. The hand-off enters the
    /// kernel from `Booting` and means nothing later: the kernel is entered
    /// once and a halted machine is not resumed. A cycle takes the entered
    /// kernel into its halt; the bootloader's own cycles are not the
    /// kernel's business, and a halted machine stays halted.
    pub open spec fn after(self, event: Event) -> Phase {
        match event {
            Event::Fault(_) => Phase::Halted,
            Event::Handoff => if self == Phase::Booting {
                Phase::KernelEntered
            } else {
                self
            },
            Event::Cycle => if self == Phase::KernelEntered {
                Phase::Halted
            } else {
                self
            },
        }
    }

    /// The phase reached from `self` when `events` happen in order.
    pub open spec fn after_all(self, events: Seq<Event>) -> Phase
        decreases events.len(),
    {
        if events.len() == 0 {
            self
        } else {
            self.after_all(events.drop_last()).after(events.last())
        }
    }
}

impl Site {
    /// Where control rests after `event` happens while it rests at `self`.
    ///
    /// A fault moves control into the panic handler's halt loop, wherever it
    /// was. (The checks that detect a fault are the kernel's own, so a real
    /// run has none before the hand-off; the model answers for that case as
    /// for every other.) The hand-off moves control from the bootloader to
    /// the entry point and changes nothing once the kernel has been entered.
    /// A cycle at the entry point falls into the entry point's halt loop; a
    /// cycle in either halt loop, or in the bootloader, leaves control where
    /// it is.
    pub open spec fn after(self, event: Event) -> Site {
        match event {
            Event::Fault(_) => Site::PanicHalt,
            Event::Handoff => if self == Site::Bootloader {
                Site::Entry
            } else {
                self
            },
            Event::Cycle => if self == Site::Entry {
                Site::EntryHalt
            } else {
                self
            },
        }
    }

    /// Where control rests after `events` happen in order, starting at `self`.
    pub open spec fn after_all(self, events: Seq<Event>) -> Site
        decreases events.len(),
    {
        if events.len() == 0 {
            self
        } else {
            self.after_all(events.drop_last()).after(events.last())
        }
    }
}

/// One step of the machine: where control rests after `event`.
pub fn step(site: Site, event: &Event) -> (next: Site)
    ensures
        next == site.after(*event),
        next.phase() == site.phase().after(*event),
{
    match event {
        Event::Fault(info) => panic_handler(info),
        Event::Handoff => match site {
            Site::Bootloader => Site::Entry,
            _ => site,
        },
        Event::Cycle => match site {
            Site::Entry => entry_point(),
            _ => site,
        },
    }
}

/// A simulated run: where control rests after every event of `events` has
/// happened in order, starting at `site`.
pub fn run(site: Site, events: &[Event]) -> (last: Site)
    ensures
        last == site.after_all(events@),
        last.phase() == site.phase().after_all(events@),
{
    let mut current: Site = site;
    let mut done: usize = 0;
    while done < events.len()
        invariant
            done <= events.len(),
            current == site.after_all(events@.take(done as int)),
        decreases events.len() - done,
    {
        proof {
            let prefix = events@.take(done + 1);
            assert(prefix.drop_last() =~= events@.take(done as int));
        }
        current = step(current, &events[done]);
        done = done + 1;
    }
    proof {
        assert(events@.take(done as int) =~= events@);
        lemma_run_is_observed(site, events@);
    }
    current
}

} // verus!
