use kernel_handoff::handlers::{entry_point, panic_handler};
use kernel_handoff::lifecycle::{Phase, Site};
use kernel_handoff::machine::{step, Event};
use kernel_handoff::payload::{Diagnostic, Location};

fn sample() -> Diagnostic<'static> {
    Diagnostic {
        message: "index out of bounds: the len is 3 but the index is 7",
        location: Some(Location { file: "src/main.rs", line: 42, column: 9 }),
    }
}

fn bare() -> Diagnostic<'static> {
    Diagnostic { message: "", location: None }
}

#[test]
fn each_site_shows_its_phase() {
    assert_eq!(Site::Bootloader.phase(), Phase::Booting);
    assert_eq!(Site::Entry.phase(), Phase::KernelEntered);
    assert_eq!(Site::EntryHalt.phase(), Phase::Halted);
    assert_eq!(Site::PanicHalt.phase(), Phase::Halted);
}

#[test]
fn the_two_halts_look_alike() {
    assert_ne!(Site::EntryHalt, Site::PanicHalt);
    assert_eq!(Site::EntryHalt.phase(), Site::PanicHalt.phase());
}

#[test]
fn entry_point_falls_into_its_halt_loop() {
    assert_eq!(entry_point(), Site::EntryHalt);
    assert_eq!(entry_point().phase(), Phase::Halted);
}

#[test]
fn panic_handler_halts_with_a_full_payload() {
    let info = sample();
    assert_eq!(panic_handler(&info), Site::PanicHalt);
    assert_eq!(panic_handler(&info).phase(), Phase::Halted);
}

#[test]
fn panic_handler_halts_with_an_empty_message_and_no_location() {
    let info = bare();
    assert_eq!(panic_handler(&info), Site::PanicHalt);
}

#[test]
fn panic_handler_halts_with_a_blank_location() {
    let info = Diagnostic {
        message: "attempt to add with overflow",
        location: Some(Location { file: "", line: 0, column: 0 }),
    };
    assert_eq!(panic_handler(&info), Site::PanicHalt);
    let far = Diagnostic {
        message: "",
        location: Some(Location { file: "a.rs", line: u32::MAX, column: u32::MAX }),
    };
    assert_eq!(panic_handler(&far), Site::PanicHalt);
}

#[test]
fn panic_handler_leaves_the_payload_as_it_was() {
    let info = sample();
    let before = info;
    let _ = panic_handler(&info);
    assert_eq!(info, before);
}

#[test]
fn handoff_enters_the_kernel_from_the_bootloader() {
    let next = step(Site::Bootloader, &Event::Handoff);
    assert_eq!(next, Site::Entry);
    assert_eq!(next.phase(), Phase::KernelEntered);
}

#[test]
fn handoff_is_taken_once() {
    assert_eq!(step(Site::Entry, &Event::Handoff), Site::Entry);
    assert_eq!(step(Site::EntryHalt, &Event::Handoff), Site::EntryHalt);
    assert_eq!(step(Site::PanicHalt, &Event::Handoff), Site::PanicHalt);
}

#[test]
fn cycle_in_the_bootloader_stays_there() {
    assert_eq!(step(Site::Bootloader, &Event::Cycle), Site::Bootloader);
}

#[test]
fn cycle_at_entry_falls_into_the_halt_loop() {
    let next = step(Site::Entry, &Event::Cycle);
    assert_eq!(next, Site::EntryHalt);
    assert_eq!(next, entry_point());
}

#[test]
fn cycle_in_a_halt_loop_does_not_move_control() {
    assert_eq!(step(Site::EntryHalt, &Event::Cycle), Site::EntryHalt);
    assert_eq!(step(Site::PanicHalt, &Event::Cycle), Site::PanicHalt);
}

#[test]
fn fault_moves_control_to_the_panic_handler_from_anywhere() {
    let sites = [Site::Bootloader, Site::Entry, Site::EntryHalt, Site::PanicHalt];
    let payloads = [sample(), bare()];
    for site in sites {
        for info in payloads {
            let next = step(site, &Event::Fault(info));
            assert_eq!(next, Site::PanicHalt);
            assert_eq!(next, panic_handler(&info));
            assert_eq!(next.phase(), Phase::Halted);
        }
    }
}

#[test]
fn phase_after_a_step_depends_on_the_phase_before_only() {
    let events = [Event::Handoff, Event::Cycle, Event::Fault(bare())];
    for event in events {
        let from_entry_halt = step(Site::EntryHalt, &event);
        let from_panic_halt = step(Site::PanicHalt, &event);
        assert_eq!(from_entry_halt.phase(), from_panic_halt.phase());
        assert_eq!(from_entry_halt.phase(), Phase::Halted);
    }
}
