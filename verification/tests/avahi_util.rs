use zeroconf::avahi::avahi_util::{
    format_browser_type, format_service_type, format_sub_type, interface_from_index,
    interface_index, native_error, sys_exec, AVAHI_IF_UNSPEC,
};
use zeroconf::error::Error;
use zeroconf::interface::NetworkInterface;
use zeroconf::service_type::ServiceType;

/// Avahi's code for a generic failure, and its description of it.
const AVAHI_ERR_FAILURE: i32 = -1;

fn describe(code: i32) -> String {
    match code {
        AVAHI_ERR_FAILURE => "Operation failed".to_string(),
        _ => "Invalid Error Code".to_string(),
    }
}

#[test]
fn sys_exec_returns_ok_for_success() {
    assert!(sys_exec(|| 0, "test", describe).is_ok());
}

#[test]
fn sys_exec_returns_error_for_failure() {
    assert_eq!(
        sys_exec(|| AVAHI_ERR_FAILURE, "uh oh spaghetti-o", describe),
        Err(Error::MdnsSystemError {
            code: AVAHI_ERR_FAILURE,
            message: "uh oh spaghetti-o: `Operation failed`".into()
        })
    );
}

#[test]
fn sys_exec_does_not_describe_a_success() {
    let never = |_: i32| -> String { panic!("a success has no description") };
    assert_eq!(sys_exec(|| 1, "test", never), Ok(()));
}

#[test]
fn native_error_quotes_the_description() {
    assert_eq!(
        native_error("could not commit service", -8, "Local name collision"),
        Error::MdnsSystemError {
            code: -8,
            message: "could not commit service: `Local name collision`".into()
        }
    );
}

#[test]
fn interface_index_returns_unspec_for_unspec() {
    assert_eq!(interface_index(NetworkInterface::Unspec), AVAHI_IF_UNSPEC);
    assert_eq!(AVAHI_IF_UNSPEC, -1);
}

#[test]
fn interface_index_returns_index_for_index() {
    assert_eq!(interface_index(NetworkInterface::AtIndex(1)), 1);
}

#[test]
fn interface_index_wraps_like_a_cast() {
    for i in [0u32, 1, 0x7fff_ffff, 0x8000_0000, 0x8000_0001, u32::MAX - 1, u32::MAX] {
        assert_eq!(interface_index(NetworkInterface::AtIndex(i)), i as i32);
    }
}

#[test]
fn interface_from_index_returns_unspec_for_avahi_unspec() {
    assert_eq!(
        interface_from_index(AVAHI_IF_UNSPEC),
        NetworkInterface::Unspec
    );
}

#[test]
fn interface_from_index_returns_index_for_avahi_index() {
    assert_eq!(interface_from_index(1), NetworkInterface::AtIndex(1));
}

#[test]
fn interface_from_index_wraps_like_a_cast() {
    for i in [0i32, 1, i32::MAX, i32::MIN, i32::MIN + 1, -2] {
        assert_eq!(interface_from_index(i), NetworkInterface::AtIndex(i as u32));
    }
}

#[test]
fn interface_round_trip() {
    for interface in [
        NetworkInterface::Unspec,
        NetworkInterface::AtIndex(0),
        NetworkInterface::AtIndex(3),
        NetworkInterface::AtIndex(0x8000_0000),
        NetworkInterface::AtIndex(u32::MAX - 1),
    ] {
        assert_eq!(interface_from_index(interface_index(interface)), interface);
    }
    assert_eq!(
        interface_from_index(interface_index(NetworkInterface::AtIndex(u32::MAX))),
        NetworkInterface::Unspec
    );
}

#[test]
fn format_service_type_returns_valid_string() {
    assert_eq!(
        format_service_type(&ServiceType::new("http", "tcp").unwrap()),
        "_http._tcp"
    );
}

#[test]
fn format_browser_type_returns_valid_string() {
    assert_eq!(
        format_browser_type(&ServiceType::new("http", "tcp").unwrap()),
        "_http._tcp"
    );
}

#[test]
fn format_browser_type_returns_string_with_sub_types() {
    assert_eq!(
        format_browser_type(
            &ServiceType::with_sub_types("http", "tcp", vec!["printer1", "printer2"]).unwrap()
        ),
        "_printer1._sub._http._tcp"
    );
}

#[test]
fn format_sub_type_returns_valid_string() {
    assert_eq!(format_sub_type("foo", "_http._tcp"), "_foo._sub._http._tcp");
}

#[test]
fn format_sub_type_strips_leading_underscore() {
    assert_eq!(
        format_sub_type("_foo", "_http._tcp"),
        "_foo._sub._http._tcp"
    );
}

#[test]
fn format_service_type_ignores_sub_types() {
    assert_eq!(
        format_service_type(&ServiceType::with_sub_types("ipp", "udp", vec!["a"]).unwrap()),
        "_ipp._udp"
    );
}

#[test]
fn format_then_parse_gives_the_service_type_back() {
    let service_type = ServiceType::new("http", "tcp").unwrap();
    assert_eq!(
        ServiceType::from_str(&format_service_type(&service_type)).unwrap(),
        service_type
    );
    let underscored = ServiceType::new("_odd", "_name").unwrap();
    assert_eq!(format_service_type(&underscored), "__odd.__name");
    assert_eq!(
        ServiceType::from_str(&format_service_type(&underscored)).unwrap(),
        underscored
    );
}
