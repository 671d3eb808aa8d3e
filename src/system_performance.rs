//! Control the system performance mode.
//!
//! The active mode is read back from two registers, SPMO and FCMO, which should always agree.
use vstd::prelude::*;
use crate::acpi_call::{
    self, AcpiRequest, Reply, RequestView, Step, StepView, numeric_outcome, reply_view,
    result_view, write_outcome,
};
use crate::context::Context;
use crate::profile::{SystemPerformance, SystemPerformanceBits, SystemPerformanceParameters};

verus! {

/// The different system performance modes.
#[derive(Debug, Copy, Clone, PartialEq, Eq, Structural, Hash, PartialOrd, Ord)]
pub enum SystemPerformanceMode {
    /// Fan speed and performance are dynamically balanced for better experience.
    IntelligentCooling,
    /// The maximum performance is prioritized, allowing higher temperature and fan speed.
    ExtremePerformance,
    /// Fan speed and performance are lowered to get the computer cooler and quieter, and to get
    /// the best battery life.
    BatterySaving,
}

impl View for SystemPerformanceMode {
    type V = SystemPerformanceMode;

    open spec fn view(&self) -> SystemPerformanceMode {
        *self
    }
}

impl SystemPerformanceMode {
    /// The mode that the setter parameter `value` selects.
    pub open spec fn setter_mode(parameters: SystemPerformanceParameters, value: u32) -> Option<Self> {
        if value == parameters.intelligent_cooling {
            Some(SystemPerformanceMode::IntelligentCooling)
        } else if value == parameters.extreme_performance {
            Some(SystemPerformanceMode::ExtremePerformance)
        } else if value == parameters.battery_saving {
            Some(SystemPerformanceMode::BatterySaving)
        } else {
            None
        }
    }

    /// The mode that the SPMO bit `spmo` stands for.
    pub open spec fn spmo_mode(bits: SystemPerformanceBits, spmo: u32) -> Option<Self> {
        if spmo == bits.intelligent_cooling@.spmo_bit() {
            Some(SystemPerformanceMode::IntelligentCooling)
        } else if spmo == bits.extreme_performance@.spmo_bit() {
            Some(SystemPerformanceMode::ExtremePerformance)
        } else if spmo == bits.battery_saving@.spmo_bit() {
            Some(SystemPerformanceMode::BatterySaving)
        } else {
            None
        }
    }

    /// The mode that the FCMO bit `fcmo` stands for.
    pub open spec fn fcmo_mode(bits: SystemPerformanceBits, fcmo: u32) -> Option<Self> {
        if fcmo == bits.intelligent_cooling@.fcmo_bit() {
            Some(SystemPerformanceMode::IntelligentCooling)
        } else if fcmo == bits.extreme_performance@.fcmo_bit() {
            Some(SystemPerformanceMode::ExtremePerformance)
        } else if fcmo == bits.battery_saving@.fcmo_bit() {
            Some(SystemPerformanceMode::BatterySaving)
        } else {
            None
        }
    }

    /// The SPMO bit of this mode.
    pub open spec fn spmo_of(self, bits: SystemPerformanceBits) -> u32 {
        match self {
            SystemPerformanceMode::IntelligentCooling => bits.intelligent_cooling@.spmo_bit(),
            SystemPerformanceMode::ExtremePerformance => bits.extreme_performance@.spmo_bit(),
            SystemPerformanceMode::BatterySaving => bits.battery_saving@.spmo_bit(),
        }
    }

    /// The FCMO bit of this mode.
    pub open spec fn fcmo_of(self, bits: SystemPerformanceBits) -> u32 {
        match self {
            SystemPerformanceMode::IntelligentCooling => bits.intelligent_cooling@.fcmo_bit(),
            SystemPerformanceMode::ExtremePerformance => bits.extreme_performance@.fcmo_bit(),
            SystemPerformanceMode::BatterySaving => bits.battery_saving@.fcmo_bit(),
        }
    }

    /// The setter parameter of this mode.
    pub open spec fn setter_of(self, parameters: SystemPerformanceParameters) -> u32 {
        match self {
            SystemPerformanceMode::IntelligentCooling => parameters.intelligent_cooling,
            SystemPerformanceMode::ExtremePerformance => parameters.extreme_performance,
            SystemPerformanceMode::BatterySaving => parameters.battery_saving,
        }
    }

    /// Get the system performance mode from a setter parameter.
    pub fn from_u32_setter(parameters: &SystemPerformanceParameters, value: u32) -> (r: Option<Self>)
        ensures
            r == Self::setter_mode(*parameters, value),
    {
        if value == parameters.intelligent_cooling {
            Some(Self::IntelligentCooling)
        } else if value == parameters.extreme_performance {
            Some(Self::ExtremePerformance)
        } else if value == parameters.battery_saving {
            Some(Self::BatterySaving)
        } else {
            None
        }
    }

    /// Get the system performance mode from an SPMO bit.
    pub fn from_spmo(bits: &SystemPerformanceBits, spmo: u32) -> (r: Option<Self>)
        ensures
            r == Self::spmo_mode(*bits, spmo),
    {
        if spmo == bits.intelligent_cooling.spmo() {
            Some(Self::IntelligentCooling)
        } else if spmo == bits.extreme_performance.spmo() {
            Some(Self::ExtremePerformance)
        } else if spmo == bits.battery_saving.spmo() {
            Some(Self::BatterySaving)
        } else {
            None
        }
    }

    /// Get the system performance mode from an FCMO bit.
    pub fn from_fcmo(bits: &SystemPerformanceBits, fcmo: u32) -> (r: Option<Self>)
        ensures
            r == Self::fcmo_mode(*bits, fcmo),
    {
        if fcmo == bits.intelligent_cooling.fcmo() {
            Some(Self::IntelligentCooling)
        } else if fcmo == bits.extreme_performance.fcmo() {
            Some(Self::ExtremePerformance)
        } else if fcmo == bits.battery_saving.fcmo() {
            Some(Self::BatterySaving)
        } else {
            None
        }
    }

    /// Get the SPMO bit of this system performance mode.
    pub fn spmo(self, bits: &SystemPerformanceBits) -> (r: u32)
        ensures
            r == self.spmo_of(*bits),
    {
        match self {
            Self::IntelligentCooling => bits.intelligent_cooling.spmo(),
            Self::ExtremePerformance => bits.extreme_performance.spmo(),
            Self::BatterySaving => bits.battery_saving.spmo(),
        }
    }

    /// Get the FCMO bit of this system performance mode.
    pub fn fcmo(self, bits: &SystemPerformanceBits) -> (r: u32)
        ensures
            r == self.fcmo_of(*bits),
    {
        match self {
            Self::IntelligentCooling => bits.intelligent_cooling.fcmo(),
            Self::ExtremePerformance => bits.extreme_performance.fcmo(),
            Self::BatterySaving => bits.battery_saving.fcmo(),
        }
    }

    /// Get the setter parameter of this system performance mode.
    pub fn setter(self, parameters: &SystemPerformanceParameters) -> (r: u32)
        ensures
            r == self.setter_of(*parameters),
    {
        match self {
            Self::IntelligentCooling => parameters.intelligent_cooling,
            Self::ExtremePerformance => parameters.extreme_performance,
            Self::BatterySaving => parameters.battery_saving,
        }
    }
}

} // verus!
verus! {

/// Bad things that could happen when dealing with system performance.
#[derive(Debug)]
pub enum Error {
    /// The SPMO and FCMO bits stand for different modes. This should never happen.
    MismatchedFcmoSpmo {
        /// The FCMO bit.
        fcmo: u32,
        /// The mode of the FCMO bit.
        spm_fcmo: SystemPerformanceMode,
        /// The SPMO bit.
        spmo: u32,
        /// The mode of the SPMO bit.
        spm_spmo: SystemPerformanceMode,
    },
    /// A bit read back stands for no system performance mode.
    InvalidSystemPerformanceMode {
        /// The invalid bit.
        bit: u32,
    },
    /// An error occurred when calling `acpi_call`.
    AcpiCall {
        /// The underlying error itself.
        error: acpi_call::Error,
    },
}

/// [`Error`] seen as mathematical values.
pub enum ErrorView {
    MismatchedFcmoSpmo {
        fcmo: u32,
        spm_fcmo: SystemPerformanceMode,
        spmo: u32,
        spm_spmo: SystemPerformanceMode,
    },
    InvalidSystemPerformanceMode { bit: u32 },
    AcpiCall(acpi_call::ErrorView),
}

impl View for Error {
    type V = ErrorView;

    open spec fn view(&self) -> ErrorView {
        match self {
            Error::MismatchedFcmoSpmo { fcmo, spm_fcmo, spmo, spm_spmo } => ErrorView::MismatchedFcmoSpmo {
                fcmo: *fcmo,
                spm_fcmo: *spm_fcmo,
                spmo: *spmo,
                spm_spmo: *spm_spmo,
            },
            Error::InvalidSystemPerformanceMode { bit } => ErrorView::InvalidSystemPerformanceMode { bit: *bit },
            Error::AcpiCall { error } => ErrorView::AcpiCall(error@),
        }
    }
}

/// Handy wrapper for [`Error`].
pub type Result<T> = std::result::Result<T, Error>;

/// The mode that an SPMO bit `spmo` and an FCMO bit `fcmo` read together stand for.
pub open spec fn resolved_mode(
    bits: SystemPerformanceBits,
    spmo: u32,
    fcmo: u32,
) -> std::result::Result<SystemPerformanceMode, ErrorView> {
    match SystemPerformanceMode::spmo_mode(bits, spmo) {
        None => Err(ErrorView::InvalidSystemPerformanceMode { bit: spmo }),
        Some(spm_spmo) => match SystemPerformanceMode::fcmo_mode(bits, fcmo) {
            None => Err(ErrorView::InvalidSystemPerformanceMode { bit: fcmo }),
            Some(spm_fcmo) => if spm_spmo == spm_fcmo {
                Ok(spm_spmo)
            } else {
                Err(ErrorView::MismatchedFcmoSpmo { fcmo, spm_fcmo, spmo, spm_spmo })
            },
        },
    }
}

/// The mode that an SPMO bit `spmo` and an FCMO bit `fcmo` read together stand for: both must
/// stand for a mode, and for the same one.
pub fn resolve_mode(bits: &SystemPerformanceBits, spmo: u32, fcmo: u32) -> (r: Result<SystemPerformanceMode>)
    ensures
        match r {
            Ok(mode) => resolved_mode(*bits, spmo, fcmo) == Ok::<SystemPerformanceMode, ErrorView>(mode),
            Err(e) => resolved_mode(*bits, spmo, fcmo) == Err::<SystemPerformanceMode, ErrorView>(e@),
        },
{
    let spm_spmo = match SystemPerformanceMode::from_spmo(bits, spmo) {
        Some(mode) => mode,
        None => return Err(Error::InvalidSystemPerformanceMode { bit: spmo }),
    };
    let spm_fcmo = match SystemPerformanceMode::from_fcmo(bits, fcmo) {
        Some(mode) => mode,
        None => return Err(Error::InvalidSystemPerformanceMode { bit: fcmo }),
    };
    if spm_spmo != spm_fcmo {
        return Err(Error::MismatchedFcmoSpmo { fcmo, spm_fcmo, spmo, spm_spmo });
    }
    Ok(spm_spmo)
}

/// What a read of the system performance mode waits for.
#[derive(Debug, Copy, Clone, PartialEq, Eq, Structural, Hash)]
pub enum GetStage {
    /// The SPMO bit.
    QueriedSpmo,
    /// The FCMO bit, the SPMO bit being known.
    QueriedFcmo {
        /// The SPMO bit read before.
        spmo: u32,
    },
}

/// The call which reads the register that `method` names.
pub open spec fn query_call(method: Seq<char>) -> RequestView {
    RequestView { method, parameters: seq![] }
}

/// The call which sets `mode`.
pub open spec fn set_mode_call(sp: SystemPerformance, mode: SystemPerformanceMode) -> RequestView {
    RequestView { method: sp.commands.set@, parameters: seq![mode.setter_of(sp.parameters)] }
}

/// How a read of the system performance mode begins.
pub open spec fn get_begins(sp: SystemPerformance) -> StepView<GetStage, SystemPerformanceMode, ErrorView> {
    StepView::Call(query_call(sp.commands.get_spmo_bit@), GetStage::QueriedSpmo)
}

/// How a read of the system performance mode goes on from `stage` once its call brought back
/// `reply`.
pub open spec fn get_continues(
    sp: SystemPerformance,
    stage: GetStage,
    reply: std::result::Result<Seq<char>, acpi_call::ErrorView>,
) -> StepView<GetStage, SystemPerformanceMode, ErrorView> {
    match stage {
        GetStage::QueriedSpmo => match numeric_outcome(sp.commands.get_spmo_bit@, reply) {
            Err(e) => StepView::Failed(ErrorView::AcpiCall(e)),
            Ok(spmo) => StepView::Call(query_call(sp.commands.get_fcmo_bit@), GetStage::QueriedFcmo { spmo }),
        },
        GetStage::QueriedFcmo { spmo } => match numeric_outcome(sp.commands.get_fcmo_bit@, reply) {
            Err(e) => StepView::Failed(ErrorView::AcpiCall(e)),
            Ok(fcmo) => match resolved_mode(sp.bits, spmo, fcmo) {
                Ok(mode) => StepView::Finished(mode),
                Err(e) => StepView::Failed(e),
            },
        },
    }
}

/// A read of the system performance mode queries SPMO, then FCMO. When both registers stand
/// for the same mode it returns that mode; when they stand for different modes it fails with
/// [`Error::MismatchedFcmoSpmo`], which carries both bits and both modes.
pub proof fn get_checks_both_registers(
    sp: SystemPerformance,
    spmo_reply: std::result::Result<Seq<char>, acpi_call::ErrorView>,
    fcmo_reply: std::result::Result<Seq<char>, acpi_call::ErrorView>,
    spmo: u32,
    fcmo: u32,
)
    requires
        numeric_outcome(sp.commands.get_spmo_bit@, spmo_reply) == Ok::<u32, acpi_call::ErrorView>(spmo),
        numeric_outcome(sp.commands.get_fcmo_bit@, fcmo_reply) == Ok::<u32, acpi_call::ErrorView>(fcmo),
    ensures
        get_begins(sp) == StepView::<GetStage, SystemPerformanceMode, ErrorView>::Call(
            query_call(sp.commands.get_spmo_bit@),
            GetStage::QueriedSpmo,
        ),
        get_continues(sp, GetStage::QueriedSpmo, spmo_reply)
            == StepView::<GetStage, SystemPerformanceMode, ErrorView>::Call(
            query_call(sp.commands.get_fcmo_bit@),
            GetStage::QueriedFcmo { spmo },
        ),
        SystemPerformanceMode::spmo_mode(sp.bits, spmo) matches Some(a) ==> (
        SystemPerformanceMode::fcmo_mode(sp.bits, fcmo) matches Some(b) ==> get_continues(
            sp,
            GetStage::QueriedFcmo { spmo },
            fcmo_reply,
        ) == if a == b {
            StepView::<GetStage, SystemPerformanceMode, ErrorView>::Finished(a)
        } else {
            StepView::<GetStage, SystemPerformanceMode, ErrorView>::Failed(
                ErrorView::MismatchedFcmoSpmo { fcmo, spm_fcmo: b, spmo, spm_spmo: a },
            )
        }),
{
}

fn query_request(method: &String) -> (r: AcpiRequest)
    ensures
        r@ == query_call(method@),
{
    let parameters: Vec<u32> = Vec::new();
    proof {
        assert(parameters@ =~= seq![]);
    }
    AcpiRequest { method: method.clone(), parameters }
}

/// Controller for the system performance mode.
#[derive(Copy, Clone)]
pub struct SystemPerformanceController<'ctx> {
    /// A reference to the context.
    pub context: &'ctx Context,
}

impl<'ctx> SystemPerformanceController<'ctx> {
    /// Create a new system performance controller.
    pub fn new(context: &'ctx Context) -> (r: Self)
        ensures
            r.context == context,
    {
        Self { context }
    }

    /// The call which sets the system performance mode to `mode`. Its reply goes to
    /// [`Self::finish_set`].
    pub fn set(&self, mode: SystemPerformanceMode) -> (r: AcpiRequest)
        ensures
            r@ == set_mode_call(self.context.profile.system_performance, mode),
    {
        let sp = &self.context.profile.system_performance;
        let mut parameters: Vec<u32> = Vec::new();
        parameters.push(mode.setter(&sp.parameters));
        proof {
            assert(parameters@ =~= seq![mode.setter_of(sp.parameters)]);
        }
        AcpiRequest { method: sp.commands.set.clone(), parameters }
    }

    /// The outcome of setting the system performance mode, from the reply to [`Self::set`].
    pub fn finish_set(&self, reply: Reply) -> (r: acpi_call::Result<()>)
        ensures
            result_view(r) == write_outcome(self.context.profile.system_performance.commands.set@, reply_view(reply)),
    {
        acpi_call::acpi_call_expect_written(self.context.profile.system_performance.commands.set.as_str(), reply)
    }

    /// Begin reading the system performance mode: the first call to make. Go on with
    /// [`Self::resume_get`].
    pub fn get(&self) -> (r: Step<GetStage, SystemPerformanceMode, Error>)
        ensures
            r@ == get_begins(self.context.profile.system_performance),
    {
        Step::Call(query_request(&self.context.profile.system_performance.commands.get_spmo_bit), GetStage::QueriedSpmo)
    }

    /// Go on reading the system performance mode from `stage` with the reply to its call.
    pub fn resume_get(&self, stage: GetStage, reply: Reply) -> (r: Step<GetStage, SystemPerformanceMode, Error>)
        ensures
            r@ == get_continues(self.context.profile.system_performance, stage, reply_view(reply)),
    {
        let sp = &self.context.profile.system_performance;
        match stage {
            GetStage::QueriedSpmo => match acpi_call::acpi_call_expect_valid(sp.commands.get_spmo_bit.as_str(), reply) {
                Err(error) => Step::Failed(Error::AcpiCall { error }),
                Ok(spmo) => Step::Call(query_request(&sp.commands.get_fcmo_bit), GetStage::QueriedFcmo { spmo }),
            },
            GetStage::QueriedFcmo { spmo } => match acpi_call::acpi_call_expect_valid(sp.commands.get_fcmo_bit.as_str(), reply) {
                Err(error) => Step::Failed(Error::AcpiCall { error }),
                Ok(fcmo) => match resolve_mode(&sp.bits, spmo, fcmo) {
                    Ok(mode) => Step::Finished(mode),
                    Err(error) => Step::Failed(error),
                },
            },
        }
    }
}

} // verus!
