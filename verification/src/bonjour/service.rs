//! Bonjour implementation for cross-platform service.

use super::bonjour_util::{
    format_regtype, interface_from_index, interface_from_index_spec, interface_index,
    interface_index_spec, native_error, native_error_spec, native_error_text, normalize_domain,
    normalized, parse_regtype, parsed_regtype, regtype, BONJOUR_IF_UNSPEC, BONJOUR_RENAME_FLAGS,
};
use super::service_ref::RegisterServiceParams;
use crate::error::{Error, ErrorView};
use crate::interface::NetworkInterface;
use crate::service::{ServiceRegistration, ServiceRegistrationBuilder, ServiceRegistrationView};
use crate::service_type::ServiceType;
use crate::text::{clone_text, result_view};
use crate::txt_record::{Pair, TxtRecord};
use vstd::prelude::*;

verus! {

/// The configuration of a service: what to register, and where.
#[derive(Debug)]
pub struct BonjourMdnsService {
    kind: String,
    port: u16,
    name: Option<String>,
    domain: Option<String>,
    host: Option<String>,
    interface_index: u32,
    txt_record: Option<TxtRecord>,
}

/// What a [`BonjourMdnsService`] holds.
pub struct BonjourMdnsServiceView {
    pub kind: Seq<char>,
    pub port: u16,
    pub name: Option<Seq<char>>,
    pub domain: Option<Seq<char>>,
    pub host: Option<Seq<char>>,
    pub interface_index: u32,
    pub txt_record: Option<Seq<Pair>>,
}

impl View for BonjourMdnsService {
    type V = BonjourMdnsServiceView;

    closed spec fn view(&self) -> BonjourMdnsServiceView {
        BonjourMdnsServiceView {
            kind: self.kind@,
            port: self.port,
            name: self.name.deep_view(),
            domain: self.domain.deep_view(),
            host: self.host.deep_view(),
            interface_index: self.interface_index,
            txt_record: self.txt_record.deep_view(),
        }
    }
}

/// What the registration answer gives: the native error where there is
/// one, with the text `register_callback() reported error (code: N)`, else the registration under the name that Bonjour settled on, with
/// the type parsed from `regtype` and both `regtype` and `domain` taken
/// without their final dot.
pub open spec fn registered(error: i32, domain: Seq<char>, name: Seq<char>, regtype: Seq<char>)
    -> Result<ServiceRegistrationView, ErrorView> {
    if error != 0 {
        Err(native_error_spec("register_callback() reported error"@, error as int))
    } else {
        match parsed_regtype(normalized(regtype)) {
            Err(e) => Err(e),
            Ok(service_type) => Ok(
                ServiceRegistrationView { name, service_type, domain: normalized(domain) },
            ),
        }
    }
}

/// The answer to `DNSServiceRegister`. The result, success or error, is to
/// be handed to the user's callback.
pub fn handle_register(error: i32, domain: &str, name: &str, regtype: &str) -> (r: Result<
    ServiceRegistration,
    Error,
>)
    ensures
        result_view(r) == registered(error, domain@, name@, regtype@),
        error != 0 ==> r is Err && r->Err_0@.rendered() == native_error_text(
            "register_callback() reported error"@,
            error as int,
        ),
{
    if error != 0 {
        return Err(native_error("register_callback() reported error", error));
    }
    let domain = normalize_domain(domain);
    let kind = normalize_domain(regtype);
    let service_type = match parse_regtype(kind.as_str()) {
        Ok(service_type) => service_type,
        Err(e) => {
            return Err(e);
        },
    };
    ServiceRegistrationBuilder::default().name(name.to_owned()).service_type(service_type).domain(
        domain,
    ).build()
}

impl BonjourMdnsService {
    /// Creates a new service of the specified type on the specified port,
    /// on all interfaces, with nothing else set.
    pub fn new(service_type: ServiceType, port: u16) -> (service: Self)
        ensures
            service@ == (BonjourMdnsServiceView {
                kind: regtype(service_type@),
                port,
                name: None,
                domain: None,
                host: None,
                interface_index: BONJOUR_IF_UNSPEC,
                txt_record: None,
            }),
    {
        Self {
            kind: format_regtype(&service_type),
            port,
            name: None,
            domain: None,
            host: None,
            interface_index: BONJOUR_IF_UNSPEC,
            txt_record: None,
        }
    }

    /// Sets the name to register this service under. If no name is set, Bonjour will
    /// automatically assign one (usually to the name of the machine).
    pub fn set_name(&mut self, name: &str)
        ensures
            final(self)@ == (BonjourMdnsServiceView { name: Some(name@), ..old(self)@ }),
    {
        self.name = Some(name.to_owned());
    }

    /// Returns the name to register this service under, if one is set.
    pub fn name(&self) -> (name: Option<&str>)
        ensures
            name.deep_view() == self@.name,
    {
        match &self.name {
            Some(name) => Some(name.as_str()),
            None => None,
        }
    }

    /// Sets the network interface to bind this service to.
    pub fn set_network_interface(&mut self, interface: NetworkInterface)
        ensures
            final(self)@ == (BonjourMdnsServiceView {
                interface_index: interface_index_spec(interface),
                ..old(self)@
            }),
    {
        self.interface_index = interface_index(interface);
    }

    /// Returns the network interface to bind this service to.
    pub fn network_interface(&self) -> (interface: NetworkInterface)
        ensures
            interface == interface_from_index_spec(self@.interface_index),
    {
        interface_from_index(self.interface_index)
    }

    /// Sets the domain on which to advertise the service.
    pub fn set_domain(&mut self, domain: &str)
        ensures
            final(self)@ == (BonjourMdnsServiceView { domain: Some(domain@), ..old(self)@ }),
    {
        self.domain = Some(domain.to_owned());
    }

    /// Returns the domain on which to advertise the service, if one is set.
    pub fn domain(&self) -> (domain: Option<&str>)
        ensures
            domain.deep_view() == self@.domain,
    {
        match &self.domain {
            Some(domain) => Some(domain.as_str()),
            None => None,
        }
    }

    /// Sets the SRV target host name.
    pub fn set_host(&mut self, host: &str)
        ensures
            final(self)@ == (BonjourMdnsServiceView { host: Some(host@), ..old(self)@ }),
    {
        self.host = Some(host.to_owned());
    }

    /// Returns the SRV target host name, if one is set.
    pub fn host(&self) -> (host: Option<&str>)
        ensures
            host.deep_view() == self@.host,
    {
        match &self.host {
            Some(host) => Some(host.as_str()),
            None => None,
        }
    }

    /// Sets the optional `TxtRecord` to register this service with.
    pub fn set_txt_record(&mut self, txt_record: TxtRecord)
        ensures
            final(self)@ == (BonjourMdnsServiceView { txt_record: Some(txt_record@), ..old(self)@ }),
    {
        self.txt_record = Some(txt_record);
    }

    /// Returns the optional `TxtRecord` to register this service with.
    pub fn txt_record(&self) -> (txt_record: Option<&TxtRecord>)
        ensures
            txt_record.deep_view() == self@.txt_record,
    {
        self.txt_record.as_ref()
    }

    /// Registers the service: says which `DNSServiceRegister` call to make.
    /// What is not set is left to Bonjour; a name that is taken is replaced
    /// by Bonjour with another. The answer goes to [`handle_register`].
    pub fn register(&self) -> (params: RegisterServiceParams)
        ensures
            params.flags == BONJOUR_RENAME_FLAGS,
            params.interface_index == self@.interface_index,
            params.name.deep_view() == self@.name,
            params.regtype@ == self@.kind,
            params.domain.deep_view() == self@.domain,
            params.host.deep_view() == self@.host,
            params.port == self@.port,
            params.txt_record.deep_view() == self@.txt_record,
    {
        let txt_record = match &self.txt_record {
            Some(record) => Some(record.clone()),
            None => None,
        };
        RegisterServiceParams {
            flags: BONJOUR_RENAME_FLAGS,
            interface_index: self.interface_index,
            name: clone_text(&self.name),
            regtype: self.kind.clone(),
            domain: clone_text(&self.domain),
            host: clone_text(&self.host),
            port: self.port,
            txt_record,
        }
    }
}

} // verus!
