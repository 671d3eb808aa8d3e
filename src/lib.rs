//! Control layer for Lenovo Ideapad firmware features (battery conservation, rapid charge and
//! system performance) driven through the `acpi_call` kernel module.
//!
//! The library never touches the control file itself. Every operation hands out the
//! [`acpi_call::AcpiRequest`]s it needs, one at a time, and is resumed with what the control
//! file gave back; the decisions in between are made here.
use vstd::prelude::*;

pub mod acpi_call;
pub mod battery;
pub mod battery_conservation;
pub mod context;
pub mod profile;
pub mod rapid_charge;
pub mod system_performance;

verus! {

/// What to do when battery conservation and rapid charge would both be enabled.
#[derive(Debug, Copy, Clone, PartialEq, Eq, Structural, Hash, PartialOrd, Ord)]
pub enum Handler {
    /// Ignore the conflict and enable the requested mode anyway.
    Ignore,
    /// Return an error and leave the hardware alone.
    Error,
    /// Switch the conflicting mode off, then enable the requested one.
    Switch,
}

} // verus!
