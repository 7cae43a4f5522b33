//! Embedded-controller dashboard core: a verified codec for the ACPI
//! method-argument buffers exchanged with a platform firmware-evaluation
//! call, together with the small typed data model that the dashboard's
//! data sources share.

use vstd::prelude::*;

pub mod acpi;
pub mod battery;
pub mod common;
pub mod mock;
pub mod rtc;
pub mod ucsi;

verus! {

/// Selects which fan threshold temperature a data source should report.
#[derive(Clone, Copy, Debug, PartialEq, Eq, Structural)]
pub enum Threshold {
    /// On threshold temperature
    On,
    /// Ramping threshold temperature
    Ramping,
    /// Max threshold temperature
    Max,
}

} // verus!
