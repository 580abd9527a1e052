//! A model of an x86-64 general-purpose register and the probes that store a
//! value into it and read it back, whole or through its narrower aliases.

pub mod width;
pub mod register;
pub mod probe;

pub use width::Width;
pub use register::Register;
pub use probe::{ProbeCase, ProbeError, Source, demo_cases, run_demos};
