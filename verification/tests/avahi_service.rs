use zeroconf::avahi::avahi_util::{AVAHI_IF_UNSPEC, AVAHI_PROTO_UNSPEC};
use zeroconf::avahi::entry_group::{AddServiceParams, AddServiceSubtypeParams};
use zeroconf::avahi::service::{
    AvahiMdnsService, AvahiServiceContext, ClientState, EntryGroupState, NativeReply,
    RegistrationState, ServiceCommand, ServiceStep,
};
use zeroconf::error::Error;
use zeroconf::interface::NetworkInterface;
use zeroconf::prelude::{BuilderDelegate, TTxtRecord};
use zeroconf::service::ServiceRegistration;
use zeroconf::service_type::ServiceType;
use zeroconf::txt_record::TxtRecord;

fn ok() -> NativeReply {
    NativeReply::Code {
        code: 0,
        description: String::new(),
    }
}

fn failure(code: i32, description: &str) -> NativeReply {
    NativeReply::Code {
        code,
        description: description.to_string(),
    }
}

fn printer() -> AvahiMdnsService {
    AvahiMdnsService::new(
        ServiceType::with_sub_types("http", "tcp", vec!["printer", "_color"]).unwrap(),
        8080,
    )
}

fn add_service(name: &str) -> AddServiceParams {
    AddServiceParams {
        interface: AVAHI_IF_UNSPEC,
        protocol: AVAHI_PROTO_UNSPEC,
        flags: 0,
        name: name.to_string(),
        kind: "_http._tcp".to_string(),
        domain: None,
        host: None,
        port: 8080,
        txt: None,
    }
}

fn add_subtype(name: &str, subtype: &str) -> AddServiceSubtypeParams {
    AddServiceSubtypeParams {
        interface: AVAHI_IF_UNSPEC,
        protocol: AVAHI_PROTO_UNSPEC,
        flags: 0,
        name: name.to_string(),
        kind: "_http._tcp".to_string(),
        domain: None,
        subtype: subtype.to_string(),
    }
}

fn registration(name: &str) -> ServiceRegistration {
    ServiceRegistration::builder()
        .name(name.to_string())
        .service_type(ServiceType::new("http", "tcp").unwrap())
        .domain("local".to_string())
        .build()
        .unwrap()
}

/// Runs a service with the name `name` up to the committed batch.
fn committed(name: &str) -> AvahiMdnsService {
    let mut service = printer();
    service.set_name(name);
    assert_eq!(
        service.register(),
        ServiceStep::Run(ServiceCommand::CreateGroup)
    );
    service.advance(NativeReply::Group {
        created: true,
        code: 0,
        description: String::new(),
    });
    service.advance(NativeReply::GroupEmpty(true));
    service.advance(ok());
    service.advance(ok());
    service.advance(ok());
    assert_eq!(service.advance(ok()), ServiceStep::Done);
    assert_eq!(service.state(), RegistrationState::Committed);
    service
}

#[test]
fn new_service_is_idle_and_unconfigured() {
    let service = printer();
    assert_eq!(service.state(), RegistrationState::Idle);
    assert_eq!(service.name(), None);
    assert_eq!(service.domain(), None);
    assert_eq!(service.host(), None);
    assert_eq!(service.txt_record(), None);
    assert_eq!(service.network_interface(), NetworkInterface::Unspec);
}

#[test]
fn setters_are_read_back() {
    let mut service = printer();
    let mut txt = TxtRecord::new();
    txt.insert("foo", "bar").unwrap();
    service.set_name("name");
    service.set_domain("domain");
    service.set_host("host");
    service.set_txt_record(txt.clone());
    service.set_network_interface(NetworkInterface::AtIndex(3));
    assert_eq!(service.name(), Some("name"));
    assert_eq!(service.domain(), Some("domain"));
    assert_eq!(service.host(), Some("host"));
    assert_eq!(service.txt_record(), Some(&txt));
    assert_eq!(service.network_interface(), NetworkInterface::AtIndex(3));
}

#[test]
fn create_service_needs_a_client() {
    let mut context = AvahiServiceContext::new("_http._tcp".to_string(), 80, vec![]);
    assert_eq!(
        context.create_service(),
        ServiceStep::Notify(Err(Error::ServiceError(
            "expected initialized client".into()
        )))
    );
    assert_eq!(context.state(), RegistrationState::Idle);
    context.client_created();
    assert_eq!(
        context.create_service(),
        ServiceStep::Run(ServiceCommand::GetHostName)
    );
    assert_eq!(context.state(), RegistrationState::ClientRunning);
}

#[test]
fn unnamed_service_takes_the_host_name() {
    let mut service = printer();
    assert_eq!(
        service.register(),
        ServiceStep::Run(ServiceCommand::GetHostName)
    );
    assert_eq!(
        service.advance(NativeReply::HostName(Some("myhost".to_string()))),
        ServiceStep::Run(ServiceCommand::CreateGroup)
    );
    assert_eq!(service.name(), Some("myhost"));
    assert_eq!(service.state(), RegistrationState::CreatingGroup);
}

#[test]
fn missing_host_name_fails() {
    let mut service = printer();
    service.register();
    assert_eq!(
        service.advance(NativeReply::HostName(None)),
        ServiceStep::Notify(Err(Error::ServiceError(
            "could not get host name from AvahiClient".into()
        )))
    );
    assert_eq!(service.state(), RegistrationState::Failed);
}

#[test]
fn group_that_cannot_be_created_fails() {
    let mut service = printer();
    service.set_name("name");
    service.register();
    assert_eq!(
        service.advance(NativeReply::Group {
            created: false,
            code: -24,
            description: "Not permitted".to_string()
        }),
        ServiceStep::Notify(Err(Error::MdnsSystemError {
            code: -24,
            message: "could not initialize AvahiEntryGroup: Not permitted".into()
        }))
    );
    assert_eq!(service.state(), RegistrationState::Failed);
}

#[test]
fn batch_adds_service_then_sub_types_then_commits() {
    let mut service = printer();
    service.set_name("name");
    assert_eq!(
        service.register(),
        ServiceStep::Run(ServiceCommand::CreateGroup)
    );
    assert_eq!(
        service.advance(NativeReply::Group {
            created: true,
            code: 0,
            description: String::new()
        }),
        ServiceStep::Run(ServiceCommand::CheckGroupEmpty)
    );
    assert_eq!(service.state(), RegistrationState::GroupCreated);
    assert_eq!(
        service.advance(NativeReply::GroupEmpty(true)),
        ServiceStep::Run(ServiceCommand::AddService(add_service("name")))
    );
    assert_eq!(service.state(), RegistrationState::AddingService);
    assert_eq!(
        service.advance(ok()),
        ServiceStep::Run(ServiceCommand::AddServiceSubtype(add_subtype(
            "name",
            "_printer._sub._http._tcp"
        )))
    );
    assert_eq!(service.state(), RegistrationState::ServiceAdded(0));
    assert_eq!(
        service.advance(ok()),
        ServiceStep::Run(ServiceCommand::AddServiceSubtype(add_subtype(
            "name",
            "_color._sub._http._tcp"
        )))
    );
    assert_eq!(service.state(), RegistrationState::ServiceAdded(1));
    assert_eq!(
        service.advance(ok()),
        ServiceStep::Run(ServiceCommand::Commit)
    );
    assert_eq!(service.state(), RegistrationState::ServiceAdded(2));
    assert_eq!(service.advance(ok()), ServiceStep::Done);
    assert_eq!(service.state(), RegistrationState::Committed);
}

#[test]
fn batch_carries_the_configuration() {
    let mut txt = TxtRecord::new();
    txt.insert("foo", "bar").unwrap();
    let mut service = AvahiMdnsService::new(ServiceType::new("ipp", "udp").unwrap(), 631);
    service.set_name("name");
    service.set_domain("example.org");
    service.set_host("host.example.org");
    service.set_txt_record(txt.clone());
    service.set_network_interface(NetworkInterface::AtIndex(2));
    service.register();
    service.advance(NativeReply::Group {
        created: true,
        code: 0,
        description: String::new(),
    });
    assert_eq!(
        service.advance(NativeReply::GroupEmpty(true)),
        ServiceStep::Run(ServiceCommand::AddService(AddServiceParams {
            interface: 2,
            protocol: -1,
            flags: 0,
            name: "name".to_string(),
            kind: "_ipp._udp".to_string(),
            domain: Some("example.org".to_string()),
            host: Some("host.example.org".to_string()),
            port: 631,
            txt: Some(txt),
        }))
    );
    assert_eq!(
        service.advance(ok()),
        ServiceStep::Run(ServiceCommand::Commit)
    );
}

#[test]
fn group_that_is_not_empty_is_left_alone() {
    let mut service = printer();
    service.set_name("name");
    service.register();
    service.advance(NativeReply::Group {
        created: true,
        code: 0,
        description: String::new(),
    });
    assert_eq!(
        service.advance(NativeReply::GroupEmpty(false)),
        ServiceStep::Done
    );
    assert_eq!(service.state(), RegistrationState::GroupCreated);
}

#[test]
fn group_is_created_once() {
    let mut service = committed("name");
    assert_eq!(
        service.register(),
        ServiceStep::Run(ServiceCommand::CheckGroupEmpty)
    );
}

#[test]
fn failure_within_the_batch_ends_it() {
    for (successes, message) in [
        (0, "could not register service: `Invalid service name`"),
        (
            1,
            "could not register service subtype: `Invalid service name`",
        ),
        (
            2,
            "could not register service subtype: `Invalid service name`",
        ),
        (3, "could not commit service: `Invalid service name`"),
    ] {
        let mut service = printer();
        service.set_name("name");
        service.register();
        service.advance(NativeReply::Group {
            created: true,
            code: 0,
            description: String::new(),
        });
        service.advance(NativeReply::GroupEmpty(true));
        for _ in 0..successes {
            assert!(matches!(service.advance(ok()), ServiceStep::Run(_)));
        }
        assert_eq!(
            service.advance(failure(-4, "Invalid service name")),
            ServiceStep::Notify(Err(Error::MdnsSystemError {
                code: -4,
                message: message.into()
            }))
        );
        assert_eq!(service.state(), RegistrationState::Failed);
        assert_eq!(
            service.advance(ok()),
            ServiceStep::Notify(Err(Error::ServiceError(
                "unexpected result of a native call".into()
            )))
        );
    }
}

#[test]
fn positive_codes_are_successes() {
    let mut service = AvahiMdnsService::new(ServiceType::new("http", "tcp").unwrap(), 80);
    service.set_name("name");
    service.register();
    service.advance(NativeReply::Group {
        created: true,
        code: 0,
        description: String::new(),
    });
    service.advance(NativeReply::GroupEmpty(true));
    assert_eq!(
        service.advance(failure(1, "")),
        ServiceStep::Run(ServiceCommand::Commit)
    );
    assert_eq!(service.advance(failure(7, "")), ServiceStep::Done);
}

#[test]
fn established_group_is_reported() {
    let mut service = committed("name");
    assert_eq!(
        service.entry_group_callback(EntryGroupState::Established, 0, ""),
        ServiceStep::Notify(Ok(registration("name")))
    );
    assert_eq!(service.state(), RegistrationState::Established);
}

#[test]
fn failed_group_is_reported_with_the_last_error() {
    let mut service = committed("name");
    assert_eq!(
        service.entry_group_callback(EntryGroupState::Failure, -15, "Timeout reached"),
        ServiceStep::Notify(Err(Error::MdnsSystemError {
            code: -15,
            message: "Timeout reached".into()
        }))
    );
    assert_eq!(service.state(), RegistrationState::Failed);
}

#[test]
fn other_group_states_change_nothing() {
    let mut service = committed("name");
    assert_eq!(
        service.entry_group_callback(EntryGroupState::Uncommitted, 0, ""),
        ServiceStep::Done
    );
    assert_eq!(
        service.entry_group_callback(EntryGroupState::Registering, 0, ""),
        ServiceStep::Done
    );
    assert_eq!(service.state(), RegistrationState::Committed);
}

#[test]
fn collision_is_retried_under_another_name() {
    let mut service = committed("name");
    assert_eq!(
        service.entry_group_callback(EntryGroupState::Collision, -8, "Local name collision"),
        ServiceStep::Run(ServiceCommand::AlternativeName("name".to_string()))
    );
    assert_eq!(service.state(), RegistrationState::Collision);
    assert_eq!(
        service.advance(NativeReply::AlternativeName("name #2".to_string())),
        ServiceStep::Run(ServiceCommand::AddService(add_service("name #2")))
    );
    assert_eq!(service.name(), Some("name #2"));
    assert_eq!(
        service.advance(ok()),
        ServiceStep::Run(ServiceCommand::AddServiceSubtype(add_subtype(
            "name #2",
            "_printer._sub._http._tcp"
        )))
    );
    assert_eq!(
        service.advance(ok()),
        ServiceStep::Run(ServiceCommand::AddServiceSubtype(add_subtype(
            "name #2",
            "_color._sub._http._tcp"
        )))
    );
    assert_eq!(
        service.advance(ok()),
        ServiceStep::Run(ServiceCommand::Commit)
    );
    assert_eq!(service.advance(ok()), ServiceStep::Done);
    assert_eq!(
        service.entry_group_callback(EntryGroupState::Established, 0, ""),
        ServiceStep::Notify(Ok(registration("name #2")))
    );
}

#[test]
fn repeated_collisions_are_each_retried() {
    let mut service = committed("name");
    for attempt in 2..6 {
        let current = service.name().unwrap().to_string();
        assert_eq!(
            service.entry_group_callback(EntryGroupState::Collision, -8, "Local name collision"),
            ServiceStep::Run(ServiceCommand::AlternativeName(current))
        );
        let next = format!("name #{}", attempt);
        assert!(matches!(
            service.advance(NativeReply::AlternativeName(next.clone())),
            ServiceStep::Run(ServiceCommand::AddService(_))
        ));
        service.advance(ok());
        service.advance(ok());
        service.advance(ok());
        assert_eq!(service.advance(ok()), ServiceStep::Done);
        assert_eq!(service.name(), Some(next.as_str()));
    }
}

#[test]
fn collision_without_name_fails() {
    let mut context = AvahiServiceContext::new("_http._tcp".to_string(), 80, vec![]);
    assert_eq!(
        context.entry_group_callback(EntryGroupState::Collision, -8, "Local name collision"),
        ServiceStep::Notify(Err(Error::ServiceError("expected initialized name".into())))
    );
    assert_eq!(
        context.entry_group_callback(EntryGroupState::Established, 0, ""),
        ServiceStep::Notify(Err(Error::ServiceError("could not get name as ref".into())))
    );
    assert_eq!(
        context.add_services(),
        ServiceStep::Notify(Err(Error::ServiceError("could not get name as ref".into())))
    );
}

#[test]
fn established_group_with_unparsable_kind_is_an_error() {
    let mut context = AvahiServiceContext::new("http".to_string(), 80, vec![]);
    context.client_created();
    context.create_service();
    context.advance(NativeReply::HostName(Some("host".to_string())));
    assert_eq!(
        context.handle_group_established(),
        Err(Error::InvalidServiceType(
            "invalid name and protocol".into()
        ))
    );
}

#[test]
fn client_failure_is_reported_with_the_last_error() {
    for state in [ClientState::Failure, ClientState::Collision] {
        let mut service = printer();
        assert_eq!(
            service.client_callback(state, -26, "Daemon connection failed"),
            ServiceStep::Notify(Err(Error::MdnsSystemError {
                code: -26,
                message: "Daemon connection failed".into()
            }))
        );
        assert_eq!(service.state(), RegistrationState::Failed);
    }
}

#[test]
fn running_client_begins_the_publication_once() {
    let mut service = printer();
    assert_eq!(
        service.client_callback(ClientState::Connecting, 0, ""),
        ServiceStep::Done
    );
    assert_eq!(
        service.client_callback(ClientState::Registering, 0, ""),
        ServiceStep::Done
    );
    assert_eq!(service.state(), RegistrationState::Idle);
    assert_eq!(
        service.client_callback(ClientState::Running, 0, ""),
        ServiceStep::Run(ServiceCommand::GetHostName)
    );
    assert_eq!(
        service.client_callback(ClientState::Running, 0, ""),
        ServiceStep::Done
    );
    assert_eq!(service.state(), RegistrationState::ClientRunning);
}

#[test]
fn unexpected_reply_changes_nothing() {
    let mut service = printer();
    service.set_name("name");
    assert_eq!(
        service.advance(NativeReply::GroupEmpty(true)),
        ServiceStep::Notify(Err(Error::ServiceError(
            "unexpected result of a native call".into()
        )))
    );
    assert_eq!(service.state(), RegistrationState::Idle);
    service.register();
    assert_eq!(
        service.advance(NativeReply::HostName(Some("other".to_string()))),
        ServiceStep::Notify(Err(Error::ServiceError(
            "unexpected result of a native call".into()
        )))
    );
    assert_eq!(service.name(), Some("name"));
    assert_eq!(service.state(), RegistrationState::CreatingGroup);
}
