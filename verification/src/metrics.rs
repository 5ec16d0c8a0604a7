//! The observability bundle. Metrics collection itself belongs to an
//! external collaborator; this bundle only records whether the application
//! asked for it, and registers no tasks of its own.

use vstd::prelude::*;

use crate::bundle::RegistrationError;
use crate::bundle::SchedulerPlan;

verus! {

/// A convenience bundle for wiring the metrics collaborator into the host.
pub struct MetricsBundle {
    metrics_requested: bool,
}

impl View for MetricsBundle {
    type V = bool;

    closed spec fn view(&self) -> bool {
        self.metrics_requested
    }
}

impl MetricsBundle {
    /// A bundle that does not ask for metric observation.
    pub fn new() -> (r: Self)
        ensures
            r@ == false,
    {
        MetricsBundle { metrics_requested: false }
    }

    /// A bundle that asks for metric observation to be wired in.
    pub fn whit_metrics() -> (r: Self)
        ensures
            r@ == true,
    {
        MetricsBundle { metrics_requested: true }
    }

    /// Whether metric observation was asked for.
    pub fn metrics_requested(&self) -> (r: bool)
        ensures
            r == self@,
    {
        self.metrics_requested
    }

    /// Builds the bundle into the scheduler plan. The collaborator owns all
    /// metric tasks, so the plan is left exactly as it was and building
    /// always succeeds.
    pub fn build(self, plan: &mut SchedulerPlan) -> (r: Result<(), RegistrationError>)
        ensures
            final(plan)@ == old(plan)@,
            r is Ok,
    {
        Result::Ok(())
    }
}

} // verus!
