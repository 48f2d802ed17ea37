//! Trap dispatch for a supervisor-mode RISC-V kernel.
//!
//! The entry glue saves the registers into a [`context::Context`], reads the
//! cause and the fault value, and calls [`handler::handle_interrupt`]. The
//! dispatcher classifies the cause, runs the matching handler on the saved
//! context and the tick counter, and hands back what the glue has to do next:
//! resume, or report and halt.

pub mod context;

pub mod cause;

pub mod timer;

pub mod vector;

pub mod handler;

pub mod machine;
