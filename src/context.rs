//! [`Context`], the configuration shared by every controller.
use vstd::prelude::*;
use crate::battery_conservation::BatteryConservationController;
use crate::profile::Profile;
use crate::rapid_charge::RapidChargeController;
use crate::system_performance::SystemPerformanceController;

verus! {

/// The configuration that every controller of this crate reads.
#[derive(Debug)]
pub struct Context {
    /// The profile of the machine.
    pub profile: Profile,
}

impl Context {
    /// Creates a new context.
    pub fn new(profile: Profile) -> (r: Self)
        ensures
            r.profile == profile,
    {
        Self { profile }
    }

    /// Create a controller creator.
    pub fn controllers(&self) -> (r: Controllers<'_>)
        ensures
            r.context == self,
    {
        Controllers::new(self)
    }
}

/// Creates controllers.
#[derive(Copy, Clone)]
pub struct Controllers<'ctx> {
    /// A reference to the [`Context`].
    pub context: &'ctx Context,
}

impl<'ctx> Controllers<'ctx> {
    /// Creates a new [`Controllers`] instance.
    pub fn new(context: &'ctx Context) -> (r: Self)
        ensures
            r.context == context,
    {
        Self { context }
    }

    /// Creates a new [`BatteryConservationController`] instance.
    pub fn battery_conservation(&self) -> (r: BatteryConservationController<'ctx>)
        ensures
            r.context == self.context,
    {
        BatteryConservationController::new(self.context)
    }

    /// Creates a new [`RapidChargeController`] instance.
    pub fn rapid_charge(&self) -> (r: RapidChargeController<'ctx>)
        ensures
            r.context == self.context,
    {
        RapidChargeController::new(self.context)
    }

    /// Creates a new [`SystemPerformanceController`] instance.
    pub fn system_performance(&self) -> (r: SystemPerformanceController<'ctx>)
        ensures
            r.context == self.context,
    {
        SystemPerformanceController::new(self.context)
    }
}

} // verus!
