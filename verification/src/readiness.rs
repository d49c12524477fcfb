//! The session's readiness report.

use vstd::prelude::*;
use crate::model::{ReadinessInfo, ReadinessModel, ReadinessStatus};

verus! {

/// The last readiness report of a session.
#[derive(Debug)]
pub struct ReadinessState {
    projection: ReadinessInfo,
}

impl View for ReadinessState {
    type V = ReadinessModel;

    closed spec fn view(&self) -> ReadinessModel {
        self.projection@
    }
}

impl Default for ReadinessState {
    fn default() -> (r: ReadinessState)
        ensures
            r@ == crate::model::initial_readiness(),
    {
        ReadinessState { projection: ReadinessInfo::default() }
    }
}

impl ReadinessState {
    /// The last report.
    pub fn projection(&self) -> (r: ReadinessInfo)
        ensures
            r@ == self@,
    {
        self.projection.clone()
    }

    /// Whether anything has been reported.
    pub fn is_ready(&self) -> (r: bool)
        ensures
            r == (self@.status != ReadinessStatus::Inactive),
    {
        !matches!(self.projection.status, ReadinessStatus::Inactive)
    }

    /// Takes a new report.
    pub fn replace(&mut self, projection: ReadinessInfo)
        ensures
            final(self)@ == projection@,
    {
        self.projection = projection;
    }

    /// Records that the page could not be probed; the last report is dropped.
    pub fn mark_degraded(&mut self, reason: String)
        ensures
            final(self)@ == (ReadinessModel {
                status: ReadinessStatus::Degraded,
                degraded_reason: Some(reason@),
                ..crate::model::initial_readiness()
            }),
    {
        let mut projection = ReadinessInfo::default();
        projection.status = ReadinessStatus::Degraded;
        projection.degraded_reason = Some(reason);
        self.projection = projection;
    }
}

} // verus!
