use zeroconf::browser::{
    BrowserEvent, ServiceDiscovery, ServiceDiscoveryBuilder, ServiceRemoval, ServiceRemovalBuilder,
};
use zeroconf::error::Error;
use zeroconf::prelude::{BuilderDelegate, TTxtRecord};
use zeroconf::service::{ServiceRegistration, ServiceRegistrationBuilder};
use zeroconf::service_type::ServiceType;
use zeroconf::txt_record::TxtRecord;

fn http() -> ServiceType {
    ServiceType::new("http", "tcp").unwrap()
}

fn full_discovery() -> ServiceDiscoveryBuilder {
    ServiceDiscovery::builder()
        .name("printer".to_string())
        .service_type(http())
        .domain("local".to_string())
        .host_name("host.local".to_string())
        .address("192.168.1.2".to_string())
        .port(8080)
        .txt(None)
}

#[test]
fn discovery_builder_sets_every_field() {
    let mut txt = TxtRecord::new();
    txt.insert("foo", "bar").unwrap();
    let discovery = full_discovery().txt(Some(txt.clone())).build().unwrap();
    assert_eq!(discovery.name(), "printer");
    assert_eq!(discovery.service_type(), &http());
    assert_eq!(discovery.domain(), "local");
    assert_eq!(discovery.host_name(), "host.local");
    assert_eq!(discovery.address(), "192.168.1.2");
    assert_eq!(*discovery.port(), 8080);
    assert_eq!(discovery.txt(), &Some(txt));
}

#[test]
fn discovery_builder_names_the_first_missing_field() {
    let missing = |field: &str| Error::BrowserError(format!("`{}` must be initialized", field));
    assert_eq!(
        ServiceDiscovery::builder().build().unwrap_err(),
        missing("name")
    );
    assert_eq!(
        ServiceDiscoveryBuilder::default()
            .name("n".to_string())
            .port(1)
            .build()
            .unwrap_err(),
        missing("service_type")
    );
    assert_eq!(
        ServiceDiscoveryBuilder::default()
            .name("n".to_string())
            .service_type(http())
            .build()
            .unwrap_err(),
        missing("domain")
    );
    assert_eq!(
        ServiceDiscoveryBuilder::default()
            .name("n".to_string())
            .service_type(http())
            .domain("d".to_string())
            .build()
            .unwrap_err(),
        missing("host_name")
    );
    assert_eq!(
        ServiceDiscoveryBuilder::default()
            .name("n".to_string())
            .service_type(http())
            .domain("d".to_string())
            .host_name("h".to_string())
            .build()
            .unwrap_err(),
        missing("address")
    );
    assert_eq!(
        ServiceDiscoveryBuilder::default()
            .name("n".to_string())
            .service_type(http())
            .domain("d".to_string())
            .host_name("h".to_string())
            .address("a".to_string())
            .build()
            .unwrap_err(),
        missing("port")
    );
    assert_eq!(
        ServiceDiscoveryBuilder::default()
            .name("n".to_string())
            .service_type(http())
            .domain("d".to_string())
            .host_name("h".to_string())
            .address("a".to_string())
            .port(1)
            .build()
            .unwrap_err(),
        missing("txt")
    );
}

#[test]
fn discovery_builder_keeps_the_last_value() {
    let discovery = full_discovery().port(1).port(2).build().unwrap();
    assert_eq!(*discovery.port(), 2);
}

#[test]
fn discovery_clone_is_equal() {
    let mut txt = TxtRecord::new();
    txt.insert("foo", "bar").unwrap();
    let discovery = full_discovery().txt(Some(txt)).build().unwrap();
    assert_eq!(discovery.clone(), discovery);
    assert_ne!(full_discovery().build().unwrap(), discovery);
}

#[test]
fn removal_builder() {
    let removal = ServiceRemoval::builder()
        .name("printer".to_string())
        .kind("_http._tcp".to_string())
        .domain("local".to_string())
        .build()
        .unwrap();
    assert_eq!(removal.name(), "printer");
    assert_eq!(removal.kind(), "_http._tcp");
    assert_eq!(removal.domain(), "local");
    assert_eq!(removal.clone(), removal);

    let missing = |field: &str| Error::BrowserError(format!("`{}` must be initialized", field));
    assert_eq!(
        ServiceRemovalBuilder::default().build().unwrap_err(),
        missing("name")
    );
    assert_eq!(
        ServiceRemovalBuilder::default()
            .name("n".to_string())
            .domain("d".to_string())
            .build()
            .unwrap_err(),
        missing("kind")
    );
    assert_eq!(
        ServiceRemovalBuilder::default()
            .name("n".to_string())
            .kind("k".to_string())
            .build()
            .unwrap_err(),
        missing("domain")
    );
}

#[test]
fn registration_builder() {
    let registration = ServiceRegistration::builder()
        .name("printer".to_string())
        .service_type(http())
        .domain("local".to_string())
        .build()
        .unwrap();
    assert_eq!(registration.name(), "printer");
    assert_eq!(registration.service_type(), &http());
    assert_eq!(registration.domain(), "local");
    assert_eq!(registration.clone(), registration);

    let missing = |field: &str| Error::ServiceError(format!("`{}` must be initialized", field));
    assert_eq!(
        ServiceRegistrationBuilder::default().build().unwrap_err(),
        missing("name")
    );
    assert_eq!(
        ServiceRegistrationBuilder::default()
            .name("n".to_string())
            .build()
            .unwrap_err(),
        missing("service_type")
    );
    assert_eq!(
        ServiceRegistrationBuilder::default()
            .name("n".to_string())
            .service_type(http())
            .build()
            .unwrap_err(),
        missing("domain")
    );
}

#[test]
fn registration_default_is_blank() {
    let registration = ServiceRegistration::default();
    assert_eq!(registration.name(), "");
    assert_eq!(registration.domain(), "");
    assert_eq!(registration.service_type(), &ServiceType::default());
}

#[test]
fn browser_event_clone_is_equal() {
    let add = BrowserEvent::Add(full_discovery().build().unwrap());
    assert_eq!(add.clone(), add);
    let remove = BrowserEvent::Remove(
        ServiceRemoval::builder()
            .name("n".to_string())
            .kind("k".to_string())
            .domain("d".to_string())
            .build()
            .unwrap(),
    );
    assert_eq!(remove.clone(), remove);
    assert_ne!(add, remove);
}
