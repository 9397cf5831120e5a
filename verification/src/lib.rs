//! Storage-device inventory: which volumes a host has mounted, and how large
//! each one is.
//!
//! The library never touches the operating system. A caller examines the host
//! (drive roots on Windows, the entries of a volume directory elsewhere) and
//! records the answers in a [`drivers::drives::survey::Survey`]; everything
//! that is decided from those answers is decided here, and proved.

pub mod drivers;
