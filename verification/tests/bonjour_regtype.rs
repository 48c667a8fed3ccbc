use zeroconf::bonjour::bonjour_util::{
    format_regtype, interface_index, normalize_domain, parse_regtype, sys_exec,
};
use zeroconf::error::Error;
use zeroconf::interface::NetworkInterface;
use zeroconf::service_type::ServiceType;

#[test]
fn parse_regtype_success() {
    assert_eq!(
        parse_regtype("_http._tcp,_printer1,_printer2").unwrap(),
        ServiceType::with_sub_types("http", "tcp", vec!["printer1", "printer2"]).unwrap()
    );
}

#[test]
fn parse_regtype_success_no_subtypes() {
    assert_eq!(
        parse_regtype("_http._tcp").unwrap(),
        ServiceType::new("http", "tcp").unwrap()
    );
}

#[test]
fn parse_regtype_failure_invalid_regtype() {
    assert_eq!(
        parse_regtype("foobar"),
        Err(Error::InvalidServiceType(
            "invalid name and protocol".into()
        ))
    );
}

#[test]
fn sys_exec_returns_error() {
    assert_eq!(
        sys_exec(|| -42, "uh oh spaghetti-o"),
        Err(Error::MdnsSystemError {
            code: -42,
            message: "uh oh spaghetti-o".into()
        })
    );
    assert_eq!(
        sys_exec(|| -42, "uh oh spaghetti-o")
            .unwrap_err()
            .to_string(),
        "uh oh spaghetti-o (code: -42)"
    );
}

#[test]
fn sys_exec_returns_ok() {
    assert_eq!(sys_exec(|| 0, "success"), Ok(()));
}

#[test]
fn network_interface_unspec_maps_to_bonjour_if_unspec() {
    assert_eq!(interface_index(NetworkInterface::Unspec), 0);
}

#[test]
fn network_interface_at_index_maps_to_index() {
    assert_eq!(interface_index(NetworkInterface::AtIndex(42)), 42);
}

#[test]
fn normalize_domain_removes_trailing_dot() {
    assert_eq!(
        normalize_domain("foo.bar.baz."),
        String::from("foo.bar.baz")
    );
}

#[test]
fn normalize_domain_does_not_remove_trailing_dot_if_not_present() {
    assert_eq!(normalize_domain("foo.bar.baz"), String::from("foo.bar.baz"));
}

#[test]
fn format_regtype_success() {
    assert_eq!(
        format_regtype(
            &ServiceType::with_sub_types("http", "tcp", vec!["printer1", "printer2"]).unwrap()
        ),
        "_http._tcp,_printer1,_printer2"
    );
}

#[test]
fn format_regtype_success_no_subtypes() {
    assert_eq!(
        format_regtype(&ServiceType::new("http", "tcp").unwrap()),
        "_http._tcp"
    );
}
