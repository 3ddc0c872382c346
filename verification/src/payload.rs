//! What the runtime hands to the panic handler when a check fails.

use vstd::prelude::*;

verus! {

/// The place in the source at which a fault was detected.
#[derive(Clone, Copy, Debug, PartialEq, Eq)]
pub struct Location<'a> {
    pub file: &'a str,
    pub line: u32,
    pub column: u32,
}

/// The diagnostic payload of an unrecoverable fault. It borrows its text, so
/// building one needs no heap. Either part may be missing: the message may be
/// empty and the location absent.
#[derive(Clone, Copy, Debug, PartialEq, Eq)]
pub struct Diagnostic<'a> {
    pub message: &'a str,
    pub location: Option<Location<'a>>,
}

} // verus!
