use zeroconf::bonjour::bonjour_util::{
    format_regtype, interface_from_index, interface_index, native_error, normalize_domain,
    parse_regtype, sys_exec, BONJOUR_IF_UNSPEC,
};
use zeroconf::error::Error;
use zeroconf::interface::NetworkInterface;
use zeroconf::service_type::ServiceType;

#[test]
fn bonjour_util_parse_regtype_success() {
    assert_eq!(
        parse_regtype("_http._tcp,_printer1,_printer2").unwrap(),
        ServiceType::with_sub_types("http", "tcp", vec!["printer1", "printer2"]).unwrap()
    );
}

#[test]
fn bonjour_util_parse_regtype_success_no_subtypes() {
    assert_eq!(
        parse_regtype("_http._tcp").unwrap(),
        ServiceType::new("http", "tcp").unwrap()
    );
}

#[test]
fn bonjour_util_parse_regtype_failure_invalid_regtype() {
    assert_eq!(
        parse_regtype("foobar"),
        Err(Error::InvalidServiceType(
            "invalid name and protocol".into()
        ))
    );
}

#[test]
fn bonjour_util_format_regtype_success() {
    assert_eq!(
        format_regtype(
            &ServiceType::with_sub_types("http", "tcp", vec!["printer1", "printer2"]).unwrap()
        ),
        "_http._tcp,_printer1,_printer2"
    );
}

#[test]
fn bonjour_util_format_regtype_success_no_subtypes() {
    assert_eq!(
        format_regtype(&ServiceType::new("http", "tcp").unwrap()),
        "_http._tcp"
    );
}

#[test]
fn bonjour_util_sys_exec_returns_error() {
    assert_eq!(
        sys_exec(|| -42, "uh oh spaghetti-o"),
        Err(Error::MdnsSystemError {
            code: -42,
            message: "uh oh spaghetti-o".into()
        })
    );
    assert_eq!(
        sys_exec(|| -42, "uh oh spaghetti-o")
            .unwrap_err()
            .to_string(),
        "uh oh spaghetti-o (code: -42)"
    );
}

#[test]
fn bonjour_util_sys_exec_returns_ok() {
    assert_eq!(sys_exec(|| 0, "success"), Ok(()));
}

#[test]
fn bonjour_util_network_interface_unspec_maps_to_bonjour_if_unspec() {
    assert_eq!(interface_index(NetworkInterface::Unspec), 0);
    assert_eq!(BONJOUR_IF_UNSPEC, 0);
}

#[test]
fn bonjour_util_network_interface_at_index_maps_to_index() {
    assert_eq!(interface_index(NetworkInterface::AtIndex(42)), 42);
}

#[test]
fn bonjour_util_normalize_domain_removes_trailing_dot() {
    assert_eq!(
        normalize_domain("foo.bar.baz."),
        String::from("foo.bar.baz")
    );
}

#[test]
fn bonjour_util_normalize_domain_does_not_remove_trailing_dot_if_not_present() {
    assert_eq!(normalize_domain("foo.bar.baz"), String::from("foo.bar.baz"));
}

#[test]
fn normalize_domain_removes_one_dot_only() {
    assert_eq!(normalize_domain("local.."), "local.");
    assert_eq!(normalize_domain("."), "");
    assert_eq!(normalize_domain(""), "");
    assert_eq!(normalize_domain("caf\u{e9}."), "caf\u{e9}");
}

#[test]
fn bonjour_interface_from_index() {
    assert_eq!(interface_from_index(0), NetworkInterface::Unspec);
    assert_eq!(interface_from_index(42), NetworkInterface::AtIndex(42));
    assert_eq!(
        interface_from_index(interface_index(NetworkInterface::AtIndex(0))),
        NetworkInterface::Unspec
    );
}

#[test]
fn bonjour_sys_exec_accepts_positive_codes() {
    assert_eq!(sys_exec(|| 3, "success"), Ok(()));
}

#[test]
fn bonjour_native_error_carries_the_code() {
    let error = native_error("could not browse services", -65537);
    assert_eq!(
        error,
        Error::MdnsSystemError {
            code: -65537,
            message: "could not browse services".into()
        }
    );
    assert_eq!(error.to_string(), "could not browse services (code: -65537)");
}

#[test]
fn parse_regtype_rejects_bad_sub_types() {
    assert_eq!(
        parse_regtype("_http._tcp,_"),
        Err(Error::InvalidServiceType("cannot be empty".into()))
    );
    assert_eq!(
        parse_regtype("_http._tcp,_a.b"),
        Err(Error::InvalidServiceType("invalid character: .".into()))
    );
    assert_eq!(
        parse_regtype("_http._tcp,"),
        Err(Error::InvalidServiceType("cannot be empty".into()))
    );
    assert_eq!(
        parse_regtype(",_a"),
        Err(Error::InvalidServiceType(
            "invalid name and protocol".into()
        ))
    );
}

#[test]
fn format_then_parse_regtype_gives_the_service_type_back() {
    for service_type in [
        ServiceType::new("http", "tcp").unwrap(),
        ServiceType::with_sub_types("http", "tcp", vec!["printer"]).unwrap(),
        ServiceType::with_sub_types("ipp", "udp", vec!["a", "_b", "c d"]).unwrap(),
        ServiceType::with_sub_types("_x", "_y", vec!["__z"]).unwrap(),
    ] {
        assert_eq!(
            parse_regtype(&format_regtype(&service_type)).unwrap(),
            service_type
        );
    }
}
