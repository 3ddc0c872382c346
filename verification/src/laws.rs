//! What holds of every run of the machine.

use vstd::prelude::*;
use crate::lifecycle::{Phase, Site};
use crate::machine::Event;

verus! {

/// No event of the trace is a fault.
pub open spec fn fault_free(events: Seq<Event>) -> bool {
    forall|i: int| 0 <= i < events.len() ==> !(#[trigger] events[i] is Fault)
}

/// No event of the trace is the hand-off.
pub open spec fn handoff_free(events: Seq<Event>) -> bool {
    forall|i: int| 0 <= i < events.len() ==> !(#[trigger] events[i] is Handoff)
}

/// The phase seen after a step depends only on the phase seen before it and
/// on the event, not on which code control rested in.
pub proof fn lemma_step_is_observed(site: Site, event: Event)
    ensures
        site.after(event).phase() == site.phase().after(event),
{
}

/// Over a whole run, too, the phase seen at the end is the one the phase
/// machine reaches from the phase seen at the start.
pub proof fn lemma_run_is_observed(site: Site, events: Seq<Event>)
    ensures
        site.after_all(events).phase() == site.phase().after_all(events),
    decreases events.len(),
{
    if events.len() > 0 {
        lemma_run_is_observed(site, events.drop_last());
    }
}

/// Two machines that look alike from outside keep looking alike under the
/// same events. In particular nothing tells the entry point's halt from the
/// panic handler's.
pub proof fn lemma_same_phase_same_view(a: Site, b: Site, events: Seq<Event>)
    requires
        a.phase() == b.phase(),
    ensures
        a.after_all(events).phase() == b.after_all(events).phase(),
{
    lemma_run_is_observed(a, events);
    lemma_run_is_observed(b, events);
}

/// `Halted` is terminal: whatever happens to a halted machine, it stays
/// halted.
pub proof fn lemma_halted_is_terminal(site: Site, events: Seq<Event>)
    requires
        site.phase() == Phase::Halted,
    ensures
        site.after_all(events).phase() == Phase::Halted,
    decreases events.len(),
{
    if events.len() > 0 {
        lemma_halted_is_terminal(site, events.drop_last());
    }
}

/// A halt loop is stable: as long as no fault is injected, control in a
/// halted machine does not move.
pub proof fn lemma_halt_is_stable(site: Site, events: Seq<Event>)
    requires
        site.phase() == Phase::Halted,
        fault_free(events),
    ensures
        site.after_all(events) == site,
    decreases events.len(),
{
    if events.len() > 0 {
        lemma_halt_is_stable(site, events.drop_last());
    }
}

/// A fault halts the machine at once and for good: if the event at index
/// `at` is a fault, then after it, and after any number of later events,
/// control rests in the panic handler's halt loop, wherever the run began
/// and whatever the payload holds.
pub proof fn lemma_fault_halts(site: Site, events: Seq<Event>, at: int, upto: int)
    requires
        0 <= at < upto <= events.len(),
        events[at] is Fault,
    ensures
        site.after_all(events.take(upto)) == Site::PanicHalt,
        site.after_all(events.take(upto)).phase() == Phase::Halted,
    decreases upto,
{
    let prefix = events.take(upto);
    assert(prefix.drop_last() =~= events.take(upto - 1));
    if at < upto - 1 {
        lemma_fault_halts(site, events, at, upto - 1);
    }
}

/// A boot without faults ends in the entry point's halt loop and stays
/// there: if the run begins in the bootloader, the event at index `handoff`
/// is the hand-off, a later event at index `cycle` is a cycle and no event
/// is a fault, then after that cycle, and after any number of later events,
/// control rests in the entry point's halt loop.
pub proof fn lemma_boot_halts(events: Seq<Event>, handoff: int, cycle: int, upto: int)
    requires
        0 <= handoff < cycle < upto <= events.len(),
        events[handoff] is Handoff,
        events[cycle] is Cycle,
        fault_free(events),
    ensures
        Site::Bootloader.after_all(events.take(upto)) == Site::EntryHalt,
        Site::Bootloader.after_all(events.take(upto)).phase() == Phase::Halted,
    decreases upto,
{
    let prefix = events.take(upto);
    assert(prefix.drop_last() =~= events.take(upto - 1));
    if cycle < upto - 1 {
        lemma_boot_halts(events, handoff, cycle, upto - 1);
    } else {
        lemma_entered_after_handoff(events, handoff, cycle);
    }
}

/// Once the hand-off has happened, and as long as no fault is injected,
/// the kernel has been entered: control rests at the entry point or in its
/// halt loop.
pub proof fn lemma_entered_after_handoff(events: Seq<Event>, handoff: int, upto: int)
    requires
        0 <= handoff < upto <= events.len(),
        events[handoff] is Handoff,
        fault_free(events),
    ensures
        Site::Bootloader.after_all(events.take(upto)) == Site::Entry
            || Site::Bootloader.after_all(events.take(upto)) == Site::EntryHalt,
    decreases upto,
{
    let prefix = events.take(upto);
    assert(prefix.drop_last() =~= events.take(upto - 1));
    if handoff < upto - 1 {
        lemma_entered_after_handoff(events, handoff, upto - 1);
    } else {
        lemma_no_panic_without_fault(Site::Bootloader, events.take(upto - 1));
    }
}

/// The kernel is entered only through the hand-off: a run that begins in
/// the bootloader and holds neither the hand-off nor a fault ends in the
/// bootloader.
pub proof fn lemma_no_entry_without_handoff(events: Seq<Event>)
    requires
        handoff_free(events),
        fault_free(events),
    ensures
        Site::Bootloader.after_all(events) == Site::Bootloader,
        Site::Bootloader.after_all(events).phase() == Phase::Booting,
    decreases events.len(),
{
    if events.len() > 0 {
        lemma_no_entry_without_handoff(events.drop_last());
    }
}

/// Control reaches the panic handler only through a fault: a run that does
/// not begin there and holds no fault does not end there.
pub proof fn lemma_no_panic_without_fault(site: Site, events: Seq<Event>)
    requires
        site != Site::PanicHalt,
        fault_free(events),
    ensures
        site.after_all(events) != Site::PanicHalt,
    decreases events.len(),
{
    if events.len() > 0 {
        lemma_no_panic_without_fault(site, events.drop_last());
    }
}

} // verus!
