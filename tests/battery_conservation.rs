use ideapad::acpi_call::{AcpiRequest, Reply, Step};
use ideapad::context::Context;
use ideapad::profile::Profile;
use ideapad::{battery_conservation, rapid_charge, Handler};

/// A stand-in for the firmware behind the control file. Like the Ideapad 15IIL05, it switches
/// battery conservation off by itself when rapid charge is enabled.
struct Firmware {
    conservation: bool,
    rapid_charge: bool,
    writes: Vec<String>,
    queries: Vec<String>,
}

impl Firmware {
    fn new() -> Self {
        Firmware { conservation: false, rapid_charge: false, writes: Vec::new(), queries: Vec::new() }
    }

    fn answer(&mut self, context: &Context, request: &AcpiRequest) -> Reply {
        let battery = &context.profile.battery;
        let command = request.command();
        if request.method == battery.set_command {
            self.writes.push(command);
            let parameter = request.parameters[0];
            if parameter == battery.conservation.parameters.enable {
                self.conservation = true;
            } else if parameter == battery.conservation.parameters.disable {
                self.conservation = false;
            } else if parameter == battery.rapid_charge.parameters.enable {
                self.rapid_charge = true;
                self.conservation = false;
            } else if parameter == battery.rapid_charge.parameters.disable {
                self.rapid_charge = false;
            }
            Ok("0x0\0\0".to_string())
        } else if request.method == battery.conservation.get_command {
            self.queries.push(command);
            Ok(if self.conservation { "0x1" } else { "0x0" }.to_string())
        } else if request.method == battery.rapid_charge.get_command {
            self.queries.push(command);
            Ok(if self.rapid_charge { "0x1\0" } else { "0x0\0" }.to_string())
        } else {
            Ok("Error: AE_NOT_FOUND".to_string())
        }
    }

    fn run<S, T, E>(
        &mut self,
        context: &Context,
        mut step: Step<S, T, E>,
        resume: impl Fn(S, Reply) -> Step<S, T, E>,
    ) -> Result<T, E> {
        loop {
            match step {
                Step::Call(request, stage) => {
                    let reply = self.answer(context, &request);
                    step = resume(stage, reply);
                }
                Step::Finished(value) => return Ok(value),
                Step::Failed(error) => return Err(error),
            }
        }
    }

    fn enable_conservation(&mut self, context: &Context, handler: Handler) -> battery_conservation::Result<()> {
        let controller = context.controllers().battery_conservation();
        self.run(context, controller.enable_with_handler(handler), |stage, reply| controller.resume_enable(stage, reply))
    }

    fn enable_rapid_charge(&mut self, context: &Context, handler: Handler) -> rapid_charge::Result<()> {
        let controller = context.controllers().rapid_charge();
        self.run(context, controller.enable_with_handler(handler), |stage, reply| controller.resume_enable(stage, reply))
    }

    fn conservation_enabled(&mut self, context: &Context) -> ideapad::acpi_call::Result<bool> {
        let controller = context.controllers().battery_conservation();
        let reply = self.answer(context, &controller.enabled());
        controller.finish_enabled(reply)
    }

    fn conservation_disabled(&mut self, context: &Context) -> ideapad::acpi_call::Result<bool> {
        let controller = context.controllers().battery_conservation();
        let reply = self.answer(context, &controller.disabled());
        controller.finish_disabled(reply)
    }

    fn rapid_charge_enabled(&mut self, context: &Context) -> ideapad::acpi_call::Result<bool> {
        let controller = context.controllers().rapid_charge();
        let reply = self.answer(context, &controller.enabled());
        controller.finish_enabled(reply)
    }
}

fn context() -> Context {
    Context::new(Profile::find(Some("81YK".to_string())).expect("initialization failed"))
}

fn scenario_with_handlers(context: &Context) {
    let mut firmware = Firmware::new();

    // set up our scenario here
    firmware
        .enable_conservation(context, Handler::Ignore)
        .expect("failed to enable battery conservation");

    // let's test first with ignorance
    firmware.enable_rapid_charge(context, Handler::Ignore).expect("rapid charge enable failed");
    assert!(
        firmware.rapid_charge_enabled(context).expect("failed to get rapid charge status"),
        "expected rapid charge to be enabled with the ignore handler",
    );
    // the firmware itself switched battery conservation off
    assert!(
        firmware.conservation_disabled(context).expect("failed to get battery conservation status"),
        "expected battery conservation to be disabled with the ignore handler",
    );

    // now let's test with an error handler
    firmware
        .enable_conservation(context, Handler::Ignore)
        .expect("failed to enable battery conservation");
    let writes_before = firmware.writes.len();
    let error = firmware
        .enable_rapid_charge(context, Handler::Error)
        .expect_err("rapid charge enable succeeded");
    assert!(matches!(error, rapid_charge::Error::BatteryConservationEnabled));
    assert_eq!(firmware.writes.len(), writes_before);
    assert!(firmware.conservation_enabled(context).expect("failed to get battery conservation status"));

    // now let's test with a switch handler
    firmware.enable_rapid_charge(context, Handler::Switch).expect("rapid charge enable failed");
    assert!(firmware.rapid_charge_enabled(context).expect("failed to get rapid charge status"));
    assert!(firmware.conservation_disabled(context).expect("failed to get battery conservation status"));
    let set = &context.profile.battery.set_command;
    assert_eq!(
        firmware.writes[writes_before..].to_vec(),
        vec![format!("{} 5", set), format!("{} 7", set)],
    );
}

fn scenario_ignore(context: &Context) {
    let mut firmware = Firmware::new();
    firmware
        .enable_conservation(context, Handler::Ignore)
        .expect("battery conservation enable failed");
    firmware.enable_rapid_charge(context, Handler::Ignore).expect("rapid charge enable failed");
    assert!(
        firmware.rapid_charge_enabled(context).expect("failed to get rapid charge status"),
        "expected rapid charge to be enabled with the ignore handler",
    );
    assert!(
        firmware.conservation_disabled(context).expect("failed to get battery conservation status"),
        "expected battery conservation to be disabled with the ignore handler",
    );
    // the ignore handler asked for no status: the two queries are the checks above
    assert_eq!(firmware.queries.len(), 2);
    assert_eq!(firmware.writes.len(), 2);
}

#[test]
fn battery_conservation_test_enable_with_handler() {
    scenario_with_handlers(&context());
}

#[test]
fn battery_conservation_test_enable_ignore() {
    scenario_ignore(&context());
}

#[test]
fn battery_conservation_test_enable_error() {
    let context = context();
    let mut firmware = Firmware::new();
    firmware.enable_conservation(&context, Handler::Error).expect("enable failed");
    assert!(firmware.conservation);
    assert_eq!(firmware.queries, vec!["\\_SB.PCI0.LPCB.EC0.QCHO".to_string()]);
    assert_eq!(firmware.writes, vec!["\\_SB.PCI0.LPCB.EC0.VPC0.SBMC 3".to_string()]);
}

#[test]
fn battery_conservation_test_enable_switch() {
    let context = context();
    let mut firmware = Firmware::new();
    firmware.enable_conservation(&context, Handler::Switch).expect("enable failed");
    assert!(firmware.conservation);
    assert!(!firmware.rapid_charge);
    // rapid charge was off: nothing to switch
    assert_eq!(firmware.writes, vec!["\\_SB.PCI0.LPCB.EC0.VPC0.SBMC 3".to_string()]);
}

#[test]
fn battery_conservation_test_disable() {
    let context = context();
    let controller = context.controllers().battery_conservation();
    let request = controller.disable();
    assert_eq!(request.command(), "\\_SB.PCI0.LPCB.EC0.VPC0.SBMC 5");
    assert!(controller.finish_disable(Ok("0x0".to_string())).is_ok());
    let error = controller.finish_disable(Ok("Error: AE_NOT_FOUND".to_string())).unwrap_err();
    assert!(matches!(
        error,
        ideapad::acpi_call::Error::MethodNotFound { ref method } if method == "\\_SB.PCI0.LPCB.EC0.VPC0.SBMC"
    ));
}

#[test]
fn battery_conservation_test_get() {
    let context = context();
    let controller = context.controllers().battery_conservation();
    assert_eq!(controller.get().command(), "\\_SB.PCI0.LPCB.EC0.BTSM");
    assert_eq!(controller.finish_get(Ok("0x1".to_string())).unwrap(), true);
    assert_eq!(controller.finish_get(Ok("0".to_string())).unwrap(), false);
    assert_eq!(controller.finish_get(Ok("2".to_string())).unwrap(), true);
    let error = controller.finish_get(Ok("on".to_string())).unwrap_err();
    assert!(matches!(error, ideapad::acpi_call::Error::UnknownValue { ref value } if value == "on"));
}

#[test]
fn battery_conservation_test_enabled() {
    let context = context();
    let mut firmware = Firmware::new();
    assert!(!firmware.conservation_enabled(&context).unwrap());
    firmware.conservation = true;
    assert!(firmware.conservation_enabled(&context).unwrap());
}

#[test]
fn battery_conservation_test_disabled() {
    let context = context();
    let mut firmware = Firmware::new();
    assert!(firmware.conservation_disabled(&context).unwrap());
    firmware.conservation = true;
    assert!(!firmware.conservation_disabled(&context).unwrap());
}

#[test]
fn mod_test_enable_with_handler() {
    let context = Context::new(Profile::find(Some("81YQ".to_string())).expect("initialization failed"));
    scenario_with_handlers(&context);
}

#[test]
fn mod_test_enable_ignore() {
    let context = Context::new(Profile::find(Some("81YM".to_string())).expect("initialization failed"));
    scenario_ignore(&context);
}

#[test]
fn mod_test_enable_error() {
    let context = context();
    let mut firmware = Firmware::new();
    firmware.rapid_charge = true;
    let error = firmware.enable_conservation(&context, Handler::Error).unwrap_err();
    assert!(matches!(error, battery_conservation::Error::RapidChargeEnabled));
    assert!(firmware.writes.is_empty());
    assert_eq!(firmware.queries.len(), 1);
    assert!(!firmware.conservation);
}

#[test]
fn mod_test_enable_switch() {
    let context = context();
    let mut firmware = Firmware::new();
    firmware.rapid_charge = true;
    firmware.enable_conservation(&context, Handler::Switch).expect("enable failed");
    assert!(firmware.conservation);
    assert!(!firmware.rapid_charge);
    assert_eq!(
        firmware.writes,
        vec!["\\_SB.PCI0.LPCB.EC0.VPC0.SBMC 8".to_string(), "\\_SB.PCI0.LPCB.EC0.VPC0.SBMC 3".to_string()],
    );
}

#[test]
fn mod_test_disable() {
    let context = context();
    let mut firmware = Firmware::new();
    firmware.conservation = true;
    let controller = context.controllers().battery_conservation();
    for _ in 0..2 {
        let request = controller.disable();
        let reply = firmware.answer(&context, &request);
        controller.finish_disable(reply).expect("disable failed");
    }
    assert!(!firmware.conservation);
    assert_eq!(firmware.writes.len(), 2);
    assert_eq!(firmware.writes[0], firmware.writes[1]);
}

#[test]
fn mod_test_get() {
    let context = context();
    let controller = context.controllers().battery_conservation();
    assert!(matches!(
        controller.finish_get(Err(ideapad::acpi_call::Error::KernelModuleNotLoaded)),
        Err(ideapad::acpi_call::Error::KernelModuleNotLoaded)
    ));
    assert!(controller.finish_get(Ok("0x1\0\0\0".to_string())).unwrap());
}

#[test]
fn mod_test_enabled() {
    let context = context();
    let controller = context.controllers().battery_conservation();
    assert_eq!(controller.enabled().command(), controller.get().command());
    assert!(controller.finish_enabled(Ok("1".to_string())).unwrap());
    assert!(!controller.finish_enabled(Ok("0x0".to_string())).unwrap());
}

#[test]
fn mod_test_disabled() {
    let context = context();
    let controller = context.controllers().battery_conservation();
    assert_eq!(controller.disabled().command(), controller.get().command());
    assert!(!controller.finish_disabled(Ok("1".to_string())).unwrap());
    assert!(controller.finish_disabled(Ok("0x0".to_string())).unwrap());
}

#[test]
fn rapid_charge_ignore_writes_once_without_queries() {
    let context = context();
    let mut firmware = Firmware::new();
    firmware.conservation = true;
    firmware.enable_rapid_charge(&context, Handler::Ignore).unwrap();
    assert!(firmware.queries.is_empty());
    assert_eq!(firmware.writes, vec!["\\_SB.PCI0.LPCB.EC0.VPC0.SBMC 7".to_string()]);
}

#[test]
fn rapid_charge_switch_failure_stops_before_enable() {
    let context = context();
    let controller = context.controllers().rapid_charge();
    let step = controller.enable_switch();
    let stage = match step {
        Step::Call(request, stage) => {
            assert_eq!(request.command(), "\\_SB.PCI0.LPCB.EC0.BTSM");
            stage
        }
        _ => panic!("expected a status query"),
    };
    let step = controller.resume_enable(stage, Ok("0x1".to_string()));
    let stage = match step {
        Step::Call(request, stage) => {
            assert_eq!(request.command(), "\\_SB.PCI0.LPCB.EC0.VPC0.SBMC 5");
            stage
        }
        _ => panic!("expected the disable of battery conservation"),
    };
    let step = controller.resume_enable(stage, Err(ideapad::acpi_call::Error::Io { message: "denied".to_string() }));
    assert!(matches!(
        step,
        Step::Failed(rapid_charge::Error::AcpiCall { error: ideapad::acpi_call::Error::Io { ref message } }) if message == "denied"
    ));
}

#[test]
fn enable_error_passes_query_failures_on() {
    let context = context();
    let controller = context.controllers().battery_conservation();
    let stage = match controller.enable_error() {
        Step::Call(_, stage) => stage,
        _ => panic!("expected a status query"),
    };
    let step = controller.resume_enable(stage, Ok("Error: AE_AML_BAD".to_string()));
    assert!(matches!(
        step,
        Step::Failed(battery_conservation::Error::AcpiCall {
            error: ideapad::acpi_call::Error::UnknownError { ref message }
        }) if message == "AE_AML_BAD"
    ));
}
