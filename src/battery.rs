//! The protocol shared by battery conservation and rapid charge, two modes which must not be
//! enabled together.
//!
//! Enabling one mode may first look at the other one, depending on the [`Handler`]; the
//! functions here decide each call and what follows its reply.
use vstd::prelude::*;
use crate::acpi_call::{
    self, AcpiRequest, ErrorView, Reply, RequestView, Step, StepView, has_prefix, numeric_outcome,
    reply_view, result_view, strip_nuls, write_outcome,
};
use crate::profile::{Battery, SharedBatteryConfiguration};
use crate::Handler;

verus! {

/// One of the two battery modes.
#[derive(Debug, Copy, Clone, PartialEq, Eq, Structural, Hash)]
pub enum BatteryMode {
    /// Battery conservation.
    Conservation,
    /// Rapid charge.
    RapidCharge,
}

impl BatteryMode {
    /// The mode which must not be enabled together with this one.
    pub open spec fn opposing(self) -> BatteryMode {
        match self {
            BatteryMode::Conservation => BatteryMode::RapidCharge,
            BatteryMode::RapidCharge => BatteryMode::Conservation,
        }
    }

    /// The mode which must not be enabled together with this one.
    pub fn opposite(self) -> (r: BatteryMode)
        ensures
            r == self.opposing(),
    {
        match self {
            BatteryMode::Conservation => BatteryMode::RapidCharge,
            BatteryMode::RapidCharge => BatteryMode::Conservation,
        }
    }
}

/// The configuration of `mode` in `battery`.
pub open spec fn config_of(battery: Battery, mode: BatteryMode) -> SharedBatteryConfiguration {
    match mode {
        BatteryMode::Conservation => battery.conservation,
        BatteryMode::RapidCharge => battery.rapid_charge,
    }
}

/// The call which switches `mode` on (`on`) or off.
pub open spec fn set_call(battery: Battery, mode: BatteryMode, on: bool) -> RequestView {
    let parameters = config_of(battery, mode).parameters;
    RequestView {
        method: battery.set_command@,
        parameters: seq![if on { parameters.enable } else { parameters.disable }],
    }
}

/// The call which asks for the status of `mode`.
pub open spec fn status_call(battery: Battery, mode: BatteryMode) -> RequestView {
    RequestView { method: config_of(battery, mode).get_command@, parameters: seq![] }
}

/// Whether `mode` is enabled, as the reply to its status call says: any number but zero means
/// enabled.
pub open spec fn status_outcome(
    battery: Battery,
    mode: BatteryMode,
    reply: std::result::Result<Seq<char>, ErrorView>,
) -> std::result::Result<bool, ErrorView> {
    match numeric_outcome(config_of(battery, mode).get_command@, reply) {
        Ok(status) => Ok(status != 0),
        Err(e) => Err(e),
    }
}

/// What an enable waits for.
#[derive(Debug, Copy, Clone, PartialEq, Eq, Structural, Hash)]
pub enum EnableStage {
    /// The status of the opposing mode, to be handled by the handler.
    CheckedOpposing(Handler),
    /// The answer to switching the opposing mode off.
    DisabledOpposing,
    /// The answer to switching the mode on.
    Enabled,
}

/// Why an enable failed, whichever mode it was for.
pub enum EnableErrorView {
    /// A call failed.
    AcpiCall(ErrorView),
    /// The opposing mode is enabled and the handler asked for an error.
    OpposingEnabled,
}

/// How enabling `mode` with `handler` begins.
pub open spec fn enable_begins(
    battery: Battery,
    mode: BatteryMode,
    handler: Handler,
) -> StepView<EnableStage, (), EnableErrorView> {
    match handler {
        Handler::Ignore => StepView::Call(set_call(battery, mode, true), EnableStage::Enabled),
        _ => StepView::Call(status_call(battery, mode.opposing()), EnableStage::CheckedOpposing(handler)),
    }
}

/// How enabling `mode` goes on from `stage` once its call brought back `reply`.
pub open spec fn enable_continues(
    battery: Battery,
    mode: BatteryMode,
    stage: EnableStage,
    reply: std::result::Result<Seq<char>, ErrorView>,
) -> StepView<EnableStage, (), EnableErrorView> {
    match stage {
        EnableStage::CheckedOpposing(handler) => match status_outcome(battery, mode.opposing(), reply) {
            Err(e) => StepView::Failed(EnableErrorView::AcpiCall(e)),
            Ok(opposing_enabled) => if !opposing_enabled || handler == Handler::Ignore {
                StepView::Call(set_call(battery, mode, true), EnableStage::Enabled)
            } else if handler == Handler::Switch {
                StepView::Call(set_call(battery, mode.opposing(), false), EnableStage::DisabledOpposing)
            } else {
                StepView::Failed(EnableErrorView::OpposingEnabled)
            },
        },
        EnableStage::DisabledOpposing => match write_outcome(battery.set_command@, reply) {
            Err(e) => StepView::Failed(EnableErrorView::AcpiCall(e)),
            Ok(()) => StepView::Call(set_call(battery, mode, true), EnableStage::Enabled),
        },
        EnableStage::Enabled => match write_outcome(battery.set_command@, reply) {
            Err(e) => StepView::Failed(EnableErrorView::AcpiCall(e)),
            Ok(()) => StepView::Finished(()),
        },
    }
}

/// Why an enable failed, before it is told which mode it was for.
#[derive(Debug)]
pub enum EnableError {
    /// A call failed.
    AcpiCall {
        /// The error itself.
        error: acpi_call::Error,
    },
    /// The opposing mode is enabled and the handler asked for an error.
    OpposingEnabled,
}

impl View for EnableError {
    type V = EnableErrorView;

    open spec fn view(&self) -> EnableErrorView {
        match self {
            EnableError::AcpiCall { error } => EnableErrorView::AcpiCall(error@),
            EnableError::OpposingEnabled => EnableErrorView::OpposingEnabled,
        }
    }
}

fn config<'a>(battery: &'a Battery, mode: BatteryMode) -> (r: &'a SharedBatteryConfiguration)
    ensures
        *r == config_of(*battery, mode),
{
    match mode {
        BatteryMode::Conservation => &battery.conservation,
        BatteryMode::RapidCharge => &battery.rapid_charge,
    }
}

/// The call which switches `mode` on (`on`) or off.
pub fn set_request(battery: &Battery, mode: BatteryMode, on: bool) -> (r: AcpiRequest)
    ensures
        r@ == set_call(*battery, mode, on),
{
    let parameters = config(battery, mode).parameters;
    let parameter = if on { parameters.enable } else { parameters.disable };
    let mut list: Vec<u32> = Vec::new();
    list.push(parameter);
    proof {
        assert(list@ =~= seq![parameter]);
    }
    AcpiRequest { method: battery.set_command.clone(), parameters: list }
}

/// The call which asks for the status of `mode`.
pub fn status_request(battery: &Battery, mode: BatteryMode) -> (r: AcpiRequest)
    ensures
        r@ == status_call(*battery, mode),
{
    let parameters: Vec<u32> = Vec::new();
    proof {
        assert(parameters@ =~= seq![]);
    }
    AcpiRequest { method: config(battery, mode).get_command.clone(), parameters }
}

/// Whether `mode` is enabled, from the reply to its status call.
pub fn finish_status(battery: &Battery, mode: BatteryMode, reply: Reply) -> (r: acpi_call::Result<bool>)
    ensures
        result_view(r) == status_outcome(*battery, mode, reply_view(reply)),
{
    match acpi_call::acpi_call_expect_valid(config(battery, mode).get_command.as_str(), reply) {
        Ok(status) => Ok(status != 0),
        Err(error) => Err(error),
    }
}

/// Begins enabling `mode` with `handler`.
pub fn start_enable(battery: &Battery, mode: BatteryMode, handler: Handler) -> (r: Step<EnableStage, (), EnableError>)
    ensures
        r@ == enable_begins(*battery, mode, handler),
{
    match handler {
        Handler::Ignore => Step::Call(set_request(battery, mode, true), EnableStage::Enabled),
        _ => Step::Call(status_request(battery, mode.opposite()), EnableStage::CheckedOpposing(handler)),
    }
}

/// Goes on enabling `mode` from `stage`, with the reply to the call that `stage` came with.
pub fn resume_enable(
    battery: &Battery,
    mode: BatteryMode,
    stage: EnableStage,
    reply: Reply,
) -> (r: Step<EnableStage, (), EnableError>)
    ensures
        r@ == enable_continues(*battery, mode, stage, reply_view(reply)),
{
    match stage {
        EnableStage::CheckedOpposing(handler) => match finish_status(battery, mode.opposite(), reply) {
            Err(error) => Step::Failed(EnableError::AcpiCall { error }),
            Ok(opposing_enabled) => {
                if !opposing_enabled || handler == Handler::Ignore {
                    Step::Call(set_request(battery, mode, true), EnableStage::Enabled)
                } else if handler == Handler::Switch {
                    Step::Call(set_request(battery, mode.opposite(), false), EnableStage::DisabledOpposing)
                } else {
                    Step::Failed(EnableError::OpposingEnabled)
                }
            },
        },
        EnableStage::DisabledOpposing => match acpi_call::acpi_call_expect_written(battery.set_command.as_str(), reply) {
            Err(error) => Step::Failed(EnableError::AcpiCall { error }),
            Ok(()) => Step::Call(set_request(battery, mode, true), EnableStage::Enabled),
        },
        EnableStage::Enabled => match acpi_call::acpi_call_expect_written(battery.set_command.as_str(), reply) {
            Err(error) => Step::Failed(EnableError::AcpiCall { error }),
            Ok(()) => Step::Finished(()),
        },
    }
}

/// With the [`Handler::Error`] handler and the opposing mode enabled, an enable makes one call,
/// the opposing mode's status query, and fails with the conflict: nothing is written.
pub proof fn strict_enable_refuses_conflict(
    battery: Battery,
    mode: BatteryMode,
    status_reply: std::result::Result<Seq<char>, ErrorView>,
)
    requires
        status_outcome(battery, mode.opposing(), status_reply) == Ok::<bool, ErrorView>(true),
    ensures
        enable_begins(battery, mode, Handler::Error) == StepView::<EnableStage, (), EnableErrorView>::Call(
            status_call(battery, mode.opposing()),
            EnableStage::CheckedOpposing(Handler::Error),
        ),
        enable_continues(battery, mode, EnableStage::CheckedOpposing(Handler::Error), status_reply)
            == StepView::<EnableStage, (), EnableErrorView>::Failed(EnableErrorView::OpposingEnabled),
{
}

/// With the [`Handler::Switch`] handler and the opposing mode enabled, an enable queries the
/// opposing mode, writes its disable, then writes this mode's enable, in that order, and
/// succeeds once both writes are answered without error.
pub proof fn switch_enable_disables_opposing_first(
    battery: Battery,
    mode: BatteryMode,
    status_reply: std::result::Result<Seq<char>, ErrorView>,
    disable_reply: std::result::Result<Seq<char>, ErrorView>,
    enable_reply: std::result::Result<Seq<char>, ErrorView>,
)
    requires
        status_outcome(battery, mode.opposing(), status_reply) == Ok::<bool, ErrorView>(true),
        write_outcome(battery.set_command@, disable_reply) == Ok::<(), ErrorView>(()),
        write_outcome(battery.set_command@, enable_reply) == Ok::<(), ErrorView>(()),
    ensures
        enable_begins(battery, mode, Handler::Switch) == StepView::<EnableStage, (), EnableErrorView>::Call(
            status_call(battery, mode.opposing()),
            EnableStage::CheckedOpposing(Handler::Switch),
        ),
        enable_continues(battery, mode, EnableStage::CheckedOpposing(Handler::Switch), status_reply)
            == StepView::<EnableStage, (), EnableErrorView>::Call(
            set_call(battery, mode.opposing(), false),
            EnableStage::DisabledOpposing,
        ),
        enable_continues(battery, mode, EnableStage::DisabledOpposing, disable_reply)
            == StepView::<EnableStage, (), EnableErrorView>::Call(set_call(battery, mode, true), EnableStage::Enabled),
        enable_continues(battery, mode, EnableStage::Enabled, enable_reply)
            == StepView::<EnableStage, (), EnableErrorView>::Finished(()),
{
}

/// With the [`Handler::Ignore`] handler an enable makes exactly one call, the enable write of its
/// own mode, whatever the state of the other mode: no status is queried, and the reply to the
/// write ends the operation.
pub proof fn ignore_enable_writes_once(
    battery: Battery,
    mode: BatteryMode,
    reply: std::result::Result<Seq<char>, ErrorView>,
)
    ensures
        enable_begins(battery, mode, Handler::Ignore) == StepView::<EnableStage, (), EnableErrorView>::Call(
            set_call(battery, mode, true),
            EnableStage::Enabled,
        ),
        !(enable_continues(battery, mode, EnableStage::Enabled, reply) is Call),
{
}

/// Disabling a mode twice in a row writes the same call twice, since the call depends on the
/// configuration alone, and neither write fails when the hardware answers it with anything but
/// a firmware error.
pub proof fn disable_twice(
    battery: Battery,
    mode: BatteryMode,
    first_reply: Seq<char>,
    second_reply: Seq<char>,
)
    requires
        !has_prefix(strip_nuls(first_reply), "Error: "@),
        !has_prefix(strip_nuls(second_reply), "Error: "@),
    ensures
        set_call(battery, mode, false).parameters == seq![config_of(battery, mode).parameters.disable],
        write_outcome(battery.set_command@, Ok(first_reply)) == Ok::<(), ErrorView>(()),
        write_outcome(battery.set_command@, Ok(second_reply)) == Ok::<(), ErrorView>(()),
{
}

} // verus!
