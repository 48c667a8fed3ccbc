use zeroconf::error::Error;

#[test]
fn test_invalid_service_type_display() {
    let error = Error::InvalidServiceType("invalid name and protocol".into());
    assert_eq!(
        error.to_string(),
        "Invalid ServiceType format: invalid name and protocol"
    );
}

#[test]
fn test_mdns_system_error_display() {
    let error = Error::MdnsSystemError {
        code: -42,
        message: "uh oh spaghetti-o".into(),
    };
    assert_eq!(error.to_string(), "uh oh spaghetti-o (code: -42)");
}

#[test]
fn test_system_error_display() {
    let error = Error::SystemError {
        code: -42,
        message: "uh oh spaghetti-o".into(),
    };
    assert_eq!(error.to_string(), "uh oh spaghetti-o (code: -42)");
}

#[test]
fn test_browser_error_display() {
    let error = Error::BrowserError("uh oh spaghetti-o".into());
    assert_eq!(error.to_string(), "uh oh spaghetti-o");
}

#[test]
fn test_service_error_display() {
    let error = Error::ServiceError("uh oh spaghetti-o".into());
    assert_eq!(error.to_string(), "uh oh spaghetti-o");
}

#[test]
fn display_renders_codes_in_decimal() {
    let render = |code: i32| {
        Error::SystemError {
            code,
            message: "x".into(),
        }
        .to_string()
    };
    assert_eq!(render(0), "x (code: 0)");
    assert_eq!(render(7), "x (code: 7)");
    assert_eq!(render(10), "x (code: 10)");
    assert_eq!(render(-1), "x (code: -1)");
    assert_eq!(render(65537), "x (code: 65537)");
    assert_eq!(render(i32::MAX), "x (code: 2147483647)");
    assert_eq!(render(i32::MIN), "x (code: -2147483648)");
}

#[test]
fn clone_keeps_variant_and_fields() {
    let error = Error::MdnsSystemError {
        code: -8,
        message: "collision".into(),
    };
    assert_eq!(error.clone(), error);
    let error = Error::BrowserError("b".into());
    assert_eq!(error.clone(), error);
}
