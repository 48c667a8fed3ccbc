use zeroconf::bonjour::bonjour_util::format_regtype;
use zeroconf::error::Error;
use zeroconf::service_type::{check_valid_characters, lstrip_underscore, ServiceType};

fn invalid(message: &str) -> Error {
    Error::InvalidServiceType(message.to_string())
}

#[test]
fn new_invalid() {
    assert_eq!(
        ServiceType::new(".http", "tcp").expect_err("invalid character: ."),
        invalid("invalid character: .")
    );
    assert_eq!(
        ServiceType::new("http", ".tcp").expect_err("invalid character: ."),
        invalid("invalid character: .")
    );
    assert_eq!(
        ServiceType::new(",http", "tcp").expect_err("invalid character: ,"),
        invalid("invalid character: ,")
    );
    assert_eq!(
        ServiceType::new("http", ",tcp").expect_err("invalid character: ,"),
        invalid("invalid character: ,")
    );
    assert_eq!(
        ServiceType::new("", "tcp").expect_err("cannot be empty"),
        invalid("cannot be empty")
    );
    assert_eq!(
        ServiceType::new("http", "").expect_err("cannot be empty"),
        invalid("cannot be empty")
    );
}

#[test]
fn from_str_requires_two_parts() {
    assert_eq!(
        ServiceType::from_str("_http").expect_err("invalid name and protocol"),
        invalid("invalid name and protocol")
    );
    assert_eq!(
        ServiceType::from_str("_http._tcp._foo").expect_err("invalid name and protocol"),
        invalid("invalid name and protocol")
    );
}

#[test]
fn from_str_success() {
    assert_eq!(
        ServiceType::from_str("_http._tcp").unwrap(),
        ServiceType::new("http", "tcp").unwrap()
    );
}

#[test]
fn check_valid_characters_returns_error_if_dot() {
    assert_eq!(
        check_valid_characters("foo.bar").expect_err("invalid character: ."),
        invalid("invalid character: .")
    );
}

#[test]
fn check_valid_characters_returns_error_if_comma() {
    assert_eq!(
        check_valid_characters("foo,bar").expect_err("invalid character: ,"),
        invalid("invalid character: ,")
    );
}

#[test]
fn check_valid_characters_returns_error_if_empty() {
    assert_eq!(
        check_valid_characters("").expect_err("cannot be empty"),
        invalid("cannot be empty")
    );
}

#[test]
fn check_valid_characters_success() {
    assert_eq!(check_valid_characters("foo").unwrap(), "foo");
}

#[test]
fn lstrip_underscore_returns_stripped() {
    assert_eq!(lstrip_underscore("_foo"), "foo");
}

#[test]
fn lstrip_underscore_returns_original() {
    assert_eq!(lstrip_underscore("foo"), "foo");
}

#[test]
fn lstrip_underscore_strips_one_underscore_only() {
    assert_eq!(lstrip_underscore("__foo"), "_foo");
    assert_eq!(lstrip_underscore("_"), "");
    assert_eq!(lstrip_underscore(""), "");
}

#[test]
fn check_valid_characters_reports_dot_before_comma() {
    assert_eq!(
        check_valid_characters(",a.b").unwrap_err(),
        invalid("invalid character: .")
    );
}

#[test]
fn with_sub_types_keeps_the_order_given() {
    let service_type =
        ServiceType::with_sub_types("http", "tcp", vec!["printer1", "printer2"]).unwrap();
    assert_eq!(service_type.name(), "http");
    assert_eq!(service_type.protocol(), "tcp");
    assert_eq!(
        service_type.sub_types(),
        &vec!["printer1".to_string(), "printer2".to_string()]
    );
}

#[test]
fn with_sub_types_reports_the_first_invalid_part() {
    assert_eq!(
        ServiceType::with_sub_types("http", "tcp", vec!["ok", "", "a.b"]).unwrap_err(),
        invalid("cannot be empty")
    );
    assert_eq!(
        ServiceType::with_sub_types("http", "t,cp", vec!["a.b"]).unwrap_err(),
        invalid("invalid character: ,")
    );
}

#[test]
fn from_str_validates_before_and_after_stripping() {
    assert_eq!(
        ServiceType::from_str("_._tcp").unwrap_err(),
        invalid("cannot be empty")
    );
    assert_eq!(
        ServiceType::from_str("_http._t cp,a,b").unwrap(),
        ServiceType::with_sub_types("http", "t cp", vec!["a", "b"]).unwrap()
    );
    assert_eq!(
        ServiceType::from_str("._tcp").unwrap_err(),
        invalid("cannot be empty")
    );
    assert_eq!(
        ServiceType::from_str("http.tcp").unwrap(),
        ServiceType::new("http", "tcp").unwrap()
    );
}

#[test]
fn from_str_through_the_std_trait() {
    let parsed: ServiceType = "_http._tcp".parse().unwrap();
    assert_eq!(parsed, ServiceType::new("http", "tcp").unwrap());
    assert_eq!(
        "_http".parse::<ServiceType>().unwrap_err(),
        invalid("invalid name and protocol")
    );
    assert_eq!(
        "_http._tcp,_printer".parse::<ServiceType>().unwrap(),
        ServiceType::with_sub_types("http", "tcp", vec!["printer"]).unwrap()
    );
}

#[test]
fn from_str_reads_sub_types_in_order() {
    assert_eq!(
        ServiceType::from_str("_http._tcp,_printer1,_printer2").unwrap(),
        ServiceType::with_sub_types("http", "tcp", vec!["printer1", "printer2"]).unwrap()
    );
    assert_eq!(
        ServiceType::from_str("_http._tcp,printer").unwrap(),
        ServiceType::with_sub_types("http", "tcp", vec!["printer"]).unwrap()
    );
    assert_eq!(
        ServiceType::from_str("_http._tcp,__odd").unwrap(),
        ServiceType::with_sub_types("http", "tcp", vec!["_odd"]).unwrap()
    );
}

#[test]
fn from_str_rejects_bad_sub_types() {
    assert_eq!(
        ServiceType::from_str("_http._tcp,_").unwrap_err(),
        invalid("cannot be empty")
    );
    assert_eq!(
        ServiceType::from_str("_http._tcp,").unwrap_err(),
        invalid("cannot be empty")
    );
    assert_eq!(
        ServiceType::from_str("_http._tcp,_a.b").unwrap_err(),
        invalid("invalid character: .")
    );
    assert_eq!(
        ServiceType::from_str("_http._tcp,_a,,_c").unwrap_err(),
        invalid("cannot be empty")
    );
    // the name and protocol are looked at before the sub-types
    assert_eq!(
        ServiceType::from_str("_http,_a.b").unwrap_err(),
        invalid("invalid name and protocol")
    );
    assert_eq!(
        ServiceType::from_str(",_a").unwrap_err(),
        invalid("invalid name and protocol")
    );
}

#[test]
fn from_str_gives_back_what_was_formatted() {
    for service_type in [
        ServiceType::new("http", "tcp").unwrap(),
        ServiceType::with_sub_types("http", "tcp", vec!["printer"]).unwrap(),
        ServiceType::with_sub_types("http", "tcp", vec!["printer1", "printer2"]).unwrap(),
        ServiceType::with_sub_types("ipp", "udp", vec!["a", "_b", "c d", "a"]).unwrap(),
        ServiceType::with_sub_types("_x", "_y", vec!["__z"]).unwrap(),
    ] {
        let text = format_regtype(&service_type);
        assert_eq!(ServiceType::from_str(&text).unwrap(), service_type);
        assert_eq!(text.parse::<ServiceType>().unwrap(), service_type);
    }
}

#[test]
fn default_is_blank() {
    let blank = ServiceType::default();
    assert_eq!(blank.name(), "");
    assert_eq!(blank.protocol(), "");
    assert!(blank.sub_types().is_empty());
}

#[test]
fn clone_is_equal() {
    let service_type = ServiceType::with_sub_types("http", "tcp", vec!["printer"]).unwrap();
    assert_eq!(service_type.clone(), service_type);
}
