//! The part of a SMART report that the agent publishes.

use vstd::prelude::*;

verus! {

/// A disk's SMART report.
#[derive(Debug, Clone)]
pub struct SmartMonResults {
    pub serial_number: String,
    pub smart_status: SmartMonStatus,
    pub model_family: String,
    pub model_name: String,
    pub temperature: SmartMonTemp,
}

/// The outcome of the disk's overall health self-assessment.
#[derive(Debug, Clone)]
pub struct SmartMonStatus {
    pub passed: bool,
}

/// The disk's temperature.
#[derive(Debug, Clone)]
pub struct SmartMonTemp {
    pub current: u32,
}

} // verus!
