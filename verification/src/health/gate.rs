//! What the health of the bot lets through.

use vstd::prelude::*;

use crate::health::{DegradationLevel, HealthStatus};

verus! {

/// What a status lets through.
#[derive(Debug)]
pub struct HealthGate<'a> {
    snapshot: &'a HealthStatus,
}

/// Whether ordinary actions pass at a level.
pub open spec fn passes_normal(level: Option<DegradationLevel>) -> bool {
    level is None || level == Some(DegradationLevel::Light)
}

/// Whether emergency actions pass at a level.
pub open spec fn passes_emergency(level: Option<DegradationLevel>) -> bool {
    level != Some(DegradationLevel::SafeMode)
}

/// Whether slow readers run at a level.
pub open spec fn passes_slow_reader(level: Option<DegradationLevel>) -> bool {
    level is None
}

/// By how much the period of the slow readers grows at a level.
pub open spec fn cadence(level: Option<DegradationLevel>) -> u32 {
    match level {
        None => 1,
        Some(d) => d.slowdown(),
    }
}

impl<'a> HealthGate<'a> {
    /// The status that answers are taken from.
    pub closed spec fn status(&self) -> HealthStatus {
        *self.snapshot
    }

    /// A gate that answers from a status.
    pub fn new(snapshot: &'a HealthStatus) -> (r: HealthGate<'a>)
        ensures
            r.status() == *snapshot,
    {
        HealthGate { snapshot }
    }

    /// Whether ordinary actions pass.
    pub fn allow_normal(&self) -> (r: bool)
        ensures
            r == passes_normal(self.status().degraded),
    {
        match self.snapshot.degraded {
            None => true,
            Some(DegradationLevel::Light) => true,
            _ => false,
        }
    }

    /// Whether emergency actions pass.
    pub fn allow_emergency(&self) -> (r: bool)
        ensures
            r == passes_emergency(self.status().degraded),
    {
        match self.snapshot.degraded {
            Some(DegradationLevel::SafeMode) => false,
            _ => true,
        }
    }

    /// Whether slow readers run.
    pub fn allow_slow_reader(&self) -> (r: bool)
        ensures
            r == passes_slow_reader(self.status().degraded),
    {
        self.snapshot.degraded.is_none()
    }

    /// By how much the period of the slow readers grows.
    pub fn cadence_multiplier(&self) -> (r: u32)
        ensures
            r == cadence(self.status().degraded),
    {
        match self.snapshot.degraded {
            None => 1,
            Some(d) => d.slow_reader_multiplier(),
        }
    }

    /// The status that answers are taken from.
    pub fn snapshot(&self) -> (r: &HealthStatus)
        ensures
            *r == self.status(),
    {
        self.snapshot
    }
}

} // verus!
