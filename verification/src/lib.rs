//! A model of the hand-off between a bootloader and a freestanding kernel
//! image: where control rests, what an outside observer sees of it, and how
//! the entry point and the panic handler move it.

pub mod handlers;
pub mod laws;
pub mod lifecycle;
pub mod machine;
pub mod payload;
