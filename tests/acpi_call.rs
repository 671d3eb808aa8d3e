use ideapad::acpi_call::{
    acpi_call, acpi_call_expect_valid, acpi_call_expect_written, build_command, decimal_string,
    decode_response, parse_u32, AcpiRequest, Error, Output,
};

fn valid(text: &str) -> Option<u32> {
    match decode_response("\\M", text) {
        Ok(Output::Valid(v)) => Some(v),
        _ => None,
    }
}

fn invalid(text: &str) -> Option<String> {
    match decode_response("\\M", text) {
        Ok(Output::Invalid(t)) => Some(t),
        _ => None,
    }
}

#[test]
fn command_text_joins_parameters_with_single_spaces() {
    assert_eq!(build_command("\\_SB.X", &vec![]), "\\_SB.X");
    assert_eq!(build_command("\\_SB.X", &vec![3]), "\\_SB.X 3");
    assert_eq!(build_command("\\_SB.X", &vec![0, 10, 4294967295]), "\\_SB.X 0 10 4294967295");
    let request = AcpiRequest { method: "\\_SB.PCI0.LPCB.EC0.VPC0.DYTC".to_string(), parameters: vec![0x0012B001] };
    assert_eq!(request.command(), "\\_SB.PCI0.LPCB.EC0.VPC0.DYTC 1224705");
}

#[test]
fn decimal_rendering() {
    assert_eq!(decimal_string(0), "0");
    assert_eq!(decimal_string(7), "7");
    assert_eq!(decimal_string(10), "10");
    assert_eq!(decimal_string(1030), "1030");
    assert_eq!(decimal_string(u32::MAX), "4294967295");
}

#[test]
fn decodes_hexadecimal_and_decimal_numbers() {
    assert_eq!(valid("0x1A"), Some(26));
    assert_eq!(valid("26"), Some(26));
    assert_eq!(valid("0x1a"), Some(26));
    assert_eq!(valid("0xffffffff"), Some(u32::MAX));
    assert_eq!(valid("4294967295"), Some(u32::MAX));
    assert_eq!(valid("0x0\0\0\0"), Some(0));
    assert_eq!(valid("+5"), Some(5));
    assert_eq!(valid("007"), Some(7));
}

#[test]
fn keeps_unparsable_text() {
    assert_eq!(invalid("hello"), Some("hello".to_string()));
    assert_eq!(invalid(""), Some("".to_string()));
    assert_eq!(invalid("0x"), Some("0x".to_string()));
    assert_eq!(invalid("4294967296"), Some("4294967296".to_string()));
    assert_eq!(invalid("0x100000000"), Some("0x100000000".to_string()));
    assert_eq!(invalid("1A"), Some("1A".to_string()));
    assert_eq!(invalid("-1"), Some("-1".to_string()));
    assert_eq!(invalid("+"), Some("+".to_string()));
    assert_eq!(invalid(" 1"), Some(" 1".to_string()));
    assert_eq!(invalid("abc\0\0"), Some("abc".to_string()));
}

#[test]
fn decodes_firmware_errors() {
    assert!(matches!(
        decode_response("\\_SB.FOO", "Error: AE_NOT_FOUND"),
        Err(Error::MethodNotFound { ref method }) if method == "\\_SB.FOO"
    ));
    assert!(matches!(
        decode_response("\\_SB.FOO", "Error: AE_NOT_FOUND\0"),
        Err(Error::MethodNotFound { .. })
    ));
    assert!(matches!(
        decode_response("\\_SB.FOO", "Error: AE_BOGUS"),
        Err(Error::UnknownError { ref message }) if message == "AE_BOGUS"
    ));
    assert!(matches!(
        decode_response("\\_SB.FOO", "Error: a: b"),
        Err(Error::UnknownError { ref message }) if message == "a: b"
    ));
    assert_eq!(invalid("Error:AE_NOT_FOUND"), Some("Error:AE_NOT_FOUND".to_string()));
}

#[test]
fn maybe_method_not_found_picks_the_variant() {
    assert!(matches!(
        Error::maybe_method_not_found("AE_NOT_FOUND".to_string(), "\\M".to_string()),
        Error::MethodNotFound { ref method } if method == "\\M"
    ));
    assert!(matches!(
        Error::maybe_method_not_found("AE_NOT_FOUNDX".to_string(), "\\M".to_string()),
        Error::UnknownError { ref message } if message == "AE_NOT_FOUNDX"
    ));
}

#[test]
fn transport_failures_pass_through() {
    assert!(matches!(acpi_call("\\M", Err(Error::KernelModuleNotLoaded)), Err(Error::KernelModuleNotLoaded)));
    assert!(matches!(
        acpi_call_expect_valid("\\M", Err(Error::Io { message: "busy".to_string() })),
        Err(Error::Io { ref message }) if message == "busy"
    ));
}

#[test]
fn expect_valid_turns_text_into_unknown_value() {
    assert_eq!(acpi_call_expect_valid("\\M", Ok("0x10".to_string())).unwrap(), 16);
    assert!(matches!(
        acpi_call_expect_valid("\\M", Ok("hello\0".to_string())),
        Err(Error::UnknownValue { ref value }) if value == "hello"
    ));
}

#[test]
fn expect_written_ignores_the_value() {
    assert!(acpi_call_expect_written("\\M", Ok("whatever".to_string())).is_ok());
    assert!(acpi_call_expect_written("\\M", Ok("0x0".to_string())).is_ok());
    assert!(matches!(
        acpi_call_expect_written("\\M", Ok("Error: AE_NOT_FOUND".to_string())),
        Err(Error::MethodNotFound { .. })
    ));
}

#[test]
fn parses_by_radix() {
    assert_eq!(parse_u32("ff", 16), Some(255));
    assert_eq!(parse_u32("FF", 16), Some(255));
    assert_eq!(parse_u32("ff", 10), None);
    assert_eq!(parse_u32("", 10), None);
    assert_eq!(parse_u32("99999999999", 10), None);
    assert_eq!(parse_u32("99999999999x", 10), None);
}

#[test]
fn rendered_parameters_read_back() {
    for x in [0u32, 9, 10, 99, 100, 65535, 0x0013B001, u32::MAX] {
        assert_eq!(valid(&decimal_string(x)), Some(x));
        assert_eq!(parse_u32(&decimal_string(x), 10), Some(x));
    }
}
