//! Control battery conservation mode.
//!
//! Battery conservation mode caps the battery's charge level. It must not be enabled together
//! with rapid charge.
use vstd::prelude::*;
use crate::acpi_call::{self, AcpiRequest, Reply, Step, reply_view, result_view, write_outcome};
use crate::battery::{
    self, BatteryMode, EnableError, EnableErrorView, EnableStage, enable_begins, enable_continues,
    set_call, status_call, status_outcome,
};
use crate::context::Context;
use crate::Handler;

verus! {

/// Bad things that could happen when dealing with battery conservation mode.
#[derive(Debug)]
pub enum Error {
    /// An error returned from `acpi_call`.
    AcpiCall {
        /// The error itself.
        error: acpi_call::Error,
    },
    /// Rapid charge is enabled and the [`Handler::Error`] handler was asked for.
    RapidChargeEnabled,
}

impl View for Error {
    type V = EnableErrorView;

    open spec fn view(&self) -> EnableErrorView {
        match self {
            Error::AcpiCall { error } => EnableErrorView::AcpiCall(error@),
            Error::RapidChargeEnabled => EnableErrorView::OpposingEnabled,
        }
    }
}

/// Handy wrapper for [`Error`].
pub type Result<T> = std::result::Result<T, Error>;

fn for_conservation(step: Step<EnableStage, (), EnableError>) -> (r: Step<EnableStage, (), Error>)
    ensures
        r@ == step@,
{
    match step {
        Step::Call(request, stage) => Step::Call(request, stage),
        Step::Finished(()) => Step::Finished(()),
        Step::Failed(EnableError::AcpiCall { error }) => Step::Failed(Error::AcpiCall { error }),
        Step::Failed(EnableError::OpposingEnabled) => Step::Failed(Error::RapidChargeEnabled),
    }
}

/// Controller for battery conservation mode.
#[derive(Copy, Clone)]
pub struct BatteryConservationController<'ctx> {
    /// A reference to the context.
    pub context: &'ctx Context,
}

impl<'ctx> BatteryConservationController<'ctx> {
    /// Create a new battery conservation controller.
    pub fn new(context: &'ctx Context) -> (r: Self)
        ensures
            r.context == context,
    {
        Self { context }
    }

    /// Begin enabling battery conservation with the specified [`Handler`]: the first call to
    /// make. Go on with [`Self::resume_enable`].
    pub fn enable_with_handler(&self, handler: Handler) -> (r: Step<EnableStage, (), Error>)
        ensures
            r@ == enable_begins(self.context.profile.battery, BatteryMode::Conservation, handler),
    {
        for_conservation(battery::start_enable(&self.context.profile.battery, BatteryMode::Conservation, handler))
    }

    /// Begin enabling battery conservation, ignoring whether rapid charge is enabled.
    pub fn enable_ignore(&self) -> (r: Step<EnableStage, (), Error>)
        ensures
            r@ == enable_begins(self.context.profile.battery, BatteryMode::Conservation, Handler::Ignore),
    {
        self.enable_with_handler(Handler::Ignore)
    }

    /// Begin enabling battery conservation, failing with [`Error::RapidChargeEnabled`] if rapid
    /// charge is enabled.
    pub fn enable_error(&self) -> (r: Step<EnableStage, (), Error>)
        ensures
            r@ == enable_begins(self.context.profile.battery, BatteryMode::Conservation, Handler::Error),
    {
        self.enable_with_handler(Handler::Error)
    }

    /// Begin enabling battery conservation, switching rapid charge off if it is enabled.
    pub fn enable_switch(&self) -> (r: Step<EnableStage, (), Error>)
        ensures
            r@ == enable_begins(self.context.profile.battery, BatteryMode::Conservation, Handler::Switch),
    {
        self.enable_with_handler(Handler::Switch)
    }

    /// Go on enabling battery conservation from `stage` with the reply to its call.
    pub fn resume_enable(&self, stage: EnableStage, reply: Reply) -> (r: Step<EnableStage, (), Error>)
        ensures
            r@ == enable_continues(self.context.profile.battery, BatteryMode::Conservation, stage, reply_view(reply)),
    {
        for_conservation(battery::resume_enable(&self.context.profile.battery, BatteryMode::Conservation, stage, reply))
    }

    /// The call which disables battery conservation. Its reply goes to [`Self::finish_disable`].
    pub fn disable(&self) -> (r: AcpiRequest)
        ensures
            r@ == set_call(self.context.profile.battery, BatteryMode::Conservation, false),
    {
        battery::set_request(&self.context.profile.battery, BatteryMode::Conservation, false)
    }

    /// The outcome of disabling battery conservation, from the reply to [`Self::disable`].
    pub fn finish_disable(&self, reply: Reply) -> (r: acpi_call::Result<()>)
        ensures
            result_view(r) == write_outcome(self.context.profile.battery.set_command@, reply_view(reply)),
    {
        acpi_call::acpi_call_expect_written(self.context.profile.battery.set_command.as_str(), reply)
    }

    /// The call which asks for the battery conservation status. Its reply goes to
    /// [`Self::finish_get`].
    pub fn get(&self) -> (r: AcpiRequest)
        ensures
            r@ == status_call(self.context.profile.battery, BatteryMode::Conservation),
    {
        battery::status_request(&self.context.profile.battery, BatteryMode::Conservation)
    }

    /// The battery conservation status, from the reply to [`Self::get`].
    pub fn finish_get(&self, reply: Reply) -> (r: acpi_call::Result<bool>)
        ensures
            result_view(r) == status_outcome(self.context.profile.battery, BatteryMode::Conservation, reply_view(reply)),
    {
        battery::finish_status(&self.context.profile.battery, BatteryMode::Conservation, reply)
    }

    /// The call which checks if battery conservation is enabled. Its reply goes to
    /// [`Self::finish_enabled`].
    pub fn enabled(&self) -> (r: AcpiRequest)
        ensures
            r@ == status_call(self.context.profile.battery, BatteryMode::Conservation),
    {
        self.get()
    }

    /// Whether battery conservation is enabled, from the reply to [`Self::enabled`].
    pub fn finish_enabled(&self, reply: Reply) -> (r: acpi_call::Result<bool>)
        ensures
            result_view(r) == status_outcome(self.context.profile.battery, BatteryMode::Conservation, reply_view(reply)),
    {
        self.finish_get(reply)
    }

    /// The call which checks if battery conservation is disabled. Its reply goes to
    /// [`Self::finish_disabled`].
    pub fn disabled(&self) -> (r: AcpiRequest)
        ensures
            r@ == status_call(self.context.profile.battery, BatteryMode::Conservation),
    {
        self.get()
    }

    /// Whether battery conservation is disabled, from the reply to [`Self::disabled`].
    pub fn finish_disabled(&self, reply: Reply) -> (r: acpi_call::Result<bool>)
        ensures
            result_view(r) == match status_outcome(self.context.profile.battery, BatteryMode::Conservation, reply_view(reply)) {
                Ok(enabled) => Ok(!enabled),
                Err(e) => Err(e),
            },
    {
        match self.finish_get(reply) {
            Ok(enabled) => Ok(!enabled),
            Err(error) => Err(error),
        }
    }
}

} // verus!
