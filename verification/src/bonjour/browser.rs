//! Bonjour implementation for cross-platform browser

use super::bonjour_util::{
    format_regtype, interface_from_index, interface_from_index_spec, interface_index,
    interface_index_spec, normalize_domain, normalized, parse_regtype,
    lemma_parse_formatted_regtype, native_error, native_error_spec, native_error_text,
    parsed_regtype, regtype, BONJOUR_IF_UNSPEC,
};
use crate::avahi::avahi_util::service_kind;
use super::service_ref::{
    lemma_port_round_trip, network_order_port, port_from_network_order, port_wire,
    BrowseServicesParams, GetAddressInfoParams, ServiceResolveParams,
    DNS_SERVICE_FLAGS_FORCE_MULTICAST,
};
use crate::browser::{ServiceDiscovery, ServiceDiscoveryBuilder, ServiceDiscoveryView};
use crate::error::{Error, ErrorView};
use crate::interface::NetworkInterface;
use crate::service_type::{ServiceType, ServiceTypeView};
use crate::text::{decimal_nat, push_decimal_nat};
use crate::txt_record::{Pair, TxtRecord};
use vstd::prelude::*;

verus! {

/// The configuration of a browser: what to browse for, and where.
#[derive(Debug)]
pub struct BonjourMdnsBrowser {
    kind: String,
    interface_index: u32,
}

impl BonjourMdnsBrowser {
    /// The registration type that is browsed for.
    pub closed spec fn kind(&self) -> Seq<char> {
        self.kind@
    }

    /// The Bonjour index of the interface that is browsed on.
    pub closed spec fn index(&self) -> u32 {
        self.interface_index
    }

    /// Creates a new browser that browses for the specified service type on
    /// all interfaces.
    pub fn new(service_type: ServiceType) -> (browser: Self)
        ensures
            browser.kind() == regtype(service_type@),
            browser.index() == BONJOUR_IF_UNSPEC,
    {
        Self { kind: format_regtype(&service_type), interface_index: BONJOUR_IF_UNSPEC }
    }

    /// Sets the network interface on which to browse for services on.
    pub fn set_network_interface(&mut self, interface: NetworkInterface)
        ensures
            final(self).index() == interface_index_spec(interface),
            final(self).kind() == old(self).kind(),
    {
        self.interface_index = interface_index(interface);
    }

    /// Returns the network interface on which to browse for services on.
    pub fn network_interface(&self) -> (interface: NetworkInterface)
        ensures
            interface == interface_from_index_spec(self.index()),
    {
        interface_from_index(self.interface_index)
    }

    /// Starts the browser: says which `DNSServiceBrowse` call to make. The
    /// answers come back through [`BonjourBrowserContext::handle_browse`].
    pub fn browse_services(&self) -> (params: BrowseServicesParams)
        ensures
            params.flags == 0,
            params.interface_index == self.index(),
            params.regtype@ == self.kind(),
            params.domain is None,
    {
        BrowseServicesParams {
            flags: 0,
            interface_index: self.interface_index,
            regtype: self.kind.clone(),
            domain: None,
        }
    }
}

/// What a browser has learnt so far about the instance that it is resolving.
///
/// The three native answers (browse, resolve, address) each add their part;
/// the last one takes everything out again and makes the discovery of it.
#[derive(Debug)]
pub struct BonjourBrowserContext {
    resolved_name: Option<String>,
    resolved_kind: Option<String>,
    resolved_domain: Option<String>,
    resolved_port: [u8; 2],
    resolved_txt: Option<TxtRecord>,
}

/// What a [`BonjourBrowserContext`] holds.
pub struct BonjourBrowserContextView {
    pub resolved_name: Option<Seq<char>>,
    pub resolved_kind: Option<Seq<char>>,
    pub resolved_domain: Option<Seq<char>>,
    /// The port as the resolve answer brought it: its two bytes, most
    /// significant first.
    pub resolved_port: Seq<u8>,
    pub resolved_txt: Option<Seq<Pair>>,
}

impl View for BonjourBrowserContext {
    type V = BonjourBrowserContextView;

    closed spec fn view(&self) -> BonjourBrowserContextView {
        BonjourBrowserContextView {
            resolved_name: self.resolved_name.deep_view(),
            resolved_kind: self.resolved_kind.deep_view(),
            resolved_domain: self.resolved_domain.deep_view(),
            resolved_port: self.resolved_port@,
            resolved_txt: self.resolved_txt.deep_view(),
        }
    }
}

/// The text of an IPv4 address: its four octets in decimal, with dots between.
pub open spec fn dotted(octets: Seq<u8>) -> Seq<char> {
    decimal_nat(octets[0] as nat) + seq!['.'] + decimal_nat(octets[1] as nat) + seq!['.']
        + decimal_nat(octets[2] as nat) + seq!['.'] + decimal_nat(octets[3] as nat)
}

impl BonjourBrowserContextView {
    /// Nothing is being resolved.
    pub open spec fn blank() -> Self {
        BonjourBrowserContextView {
            resolved_name: None,
            resolved_kind: None,
            resolved_domain: None,
            resolved_port: seq![0u8, 0u8],
            resolved_txt: None,
        }
    }

    /// The context after the browse answer for the instance `name` of type
    /// `regtype` in `domain`.
    pub open spec fn browsed(self, name: Seq<char>, regtype: Seq<char>, domain: Seq<char>) -> Self {
        BonjourBrowserContextView {
            resolved_name: Some(name),
            resolved_kind: Some(regtype),
            resolved_domain: Some(domain),
            ..self
        }
    }

    /// The context after the resolve answer: the port as the answer brought
    /// it, and the TXT record where the answer carried more than one byte
    /// of it.
    pub open spec fn resolved(self, port: Seq<u8>, txt_len: u16, txt_record: Seq<Pair>) -> Self {
        BonjourBrowserContextView {
            resolved_port: port,
            resolved_txt: if txt_len > 1 {
                Some(txt_record)
            } else {
                None
            },
            ..self
        }
    }

    /// What the address answer gives, and the context after it.
    ///
    /// * Nothing, where no name is held: the answer has been used already.
    /// * The native error, where there is one; its text is
    ///   `get_address_info_callback() reported error (code: N)`.
    /// * An error where the domain or the kind is missing, or where the kind
    ///   does not parse; what was looked at before the error is gone from the
    ///   context.
    /// * Else the discovery, made of the held name, kind, domain and TXT
    ///   record, the port that the held bytes stand for, the host name and
    ///   the address; the context then holds no name, kind, domain or TXT
    ///   record any more.
    pub open spec fn addressed(self, error: i32, address: Seq<char>, hostname: Seq<char>) -> (
        Result<Option<ServiceDiscoveryView>, ErrorView>,
        Self,
    ) {
        if self.resolved_name is None {
            (Ok(None), self)
        } else if error != 0 {
            (
                Err(
                    native_error_spec(
                        "get_address_info_callback() reported error"@,
                        error as int,
                    ),
                ),
                self,
            )
        } else if self.resolved_domain is None {
            (Err(ErrorView::BrowserError("could not get domain from BonjourBrowserContext"@)), self)
        } else if self.resolved_kind is None {
            (
                Err(ErrorView::BrowserError("could not get kind from BonjourBrowserContext"@)),
                BonjourBrowserContextView { resolved_domain: None, ..self },
            )
        } else {
            match parsed_regtype(normalized(self.resolved_kind->0)) {
                Err(e) => (
                    Err(e),
                    BonjourBrowserContextView {
                        resolved_name: None,
                        resolved_kind: None,
                        resolved_domain: None,
                        ..self
                    },
                ),
                Ok(service_type) => (
                    Ok(
                        Some(
                            ServiceDiscoveryView {
                                name: self.resolved_name->0,
                                service_type,
                                domain: normalized(self.resolved_domain->0),
                                host_name: hostname,
                                address,
                                port: network_order_port(self.resolved_port),
                                txt: self.resolved_txt,
                            },
                        ),
                    ),
                    BonjourBrowserContextView {
                        resolved_name: None,
                        resolved_kind: None,
                        resolved_domain: None,
                        resolved_txt: None,
                        ..self
                    },
                ),
            }
        }
    }
}

/// The text of the IPv4 address with the octets `octets`, first octet first.
pub fn ipv4_address(octets: [u8; 4]) -> (text: String)
    ensures
        text@ == dotted(octets@),
{
    let mut text = String::new();
    push_decimal_nat(&mut text, octets[0] as u64);
    text.push('.');
    push_decimal_nat(&mut text, octets[1] as u64);
    text.push('.');
    push_decimal_nat(&mut text, octets[2] as u64);
    text.push('.');
    push_decimal_nat(&mut text, octets[3] as u64);
    assert(text@ =~= dotted(octets@));
    text
}

impl Default for BonjourBrowserContext {
    fn default() -> (context: Self)
        ensures
            context@ == BonjourBrowserContextView::blank(),
    {
        Self {
            resolved_name: None,
            resolved_kind: None,
            resolved_domain: None,
            resolved_port: [0, 0],
            resolved_txt: None,
        }
    }
}

impl BonjourBrowserContext {
    /// The answer to `DNSServiceBrowse`: an instance was found.
    ///
    /// A native error is handed back, with the text
    /// `browse_callback() reported error (code: N)`, and changes nothing.
    /// Otherwise the instance's name, type and domain are kept, and the result says which
    /// `DNSServiceResolve` call to make next; its answer goes to
    /// [`BonjourBrowserContext::handle_resolve`].
    pub fn handle_browse(
        &mut self,
        error: i32,
        name: &str,
        regtype: &str,
        domain: &str,
        interface_index: u32,
    ) -> (r: Result<ServiceResolveParams, Error>)
        ensures
            error != 0 ==> r is Err && r->Err_0@ == native_error_spec(
                "browse_callback() reported error"@,
                error as int,
            ) && r->Err_0@.rendered() == native_error_text(
                "browse_callback() reported error"@,
                error as int,
            ) && final(self)@ == old(self)@,
            error == 0 ==> r is Ok && final(self)@ == old(self)@.browsed(name@, regtype@, domain@),
            r matches Ok(params) ==> {
                &&& params.flags == DNS_SERVICE_FLAGS_FORCE_MULTICAST
                &&& params.interface_index == interface_index
                &&& params.name@ == name@
                &&& params.regtype@ == regtype@
                &&& params.domain@ == domain@
            },
    {
        if error != 0 {
            return Err(native_error("browse_callback() reported error", error));
        }
        self.resolved_name = Some(name.to_owned());
        self.resolved_kind = Some(regtype.to_owned());
        self.resolved_domain = Some(domain.to_owned());
        Ok(
            ServiceResolveParams {
                flags: DNS_SERVICE_FLAGS_FORCE_MULTICAST,
                interface_index,
                name: name.to_owned(),
                regtype: regtype.to_owned(),
                domain: domain.to_owned(),
            },
        )
    }

    /// The answer to `DNSServiceResolve`: host, port and TXT record of the
    /// instance.
    ///
    /// `port` is the port as the callback brought it: its two bytes, most
    /// significant first. It is kept as it is, and converted when the
    /// discovery is made. `txt_len` is the length in bytes of the
    /// TXT record in the answer and `txt_record` what decoding it gave; it is
    /// looked at only where `txt_len` is above 1, as a record of one byte is
    /// an empty one.
    ///
    /// A native error is handed back, with the text
    /// `error reported by resolve_callback: (code: N)`, and changes nothing.
    /// Otherwise the port is kept; then a TXT record that could not be decoded is an error, and
    /// else the record is kept and the result says which
    /// `DNSServiceGetAddrInfo` call to make next; its answer goes to
    /// [`BonjourBrowserContext::handle_get_address_info`].
    pub fn handle_resolve(
        &mut self,
        error: i32,
        port: [u8; 2],
        interface_index: u32,
        host_target: &str,
        txt_len: u16,
        txt_record: Result<TxtRecord, Error>,
    ) -> (r: Result<GetAddressInfoParams, Error>)
        ensures
            error != 0 ==> r is Err && r->Err_0@ == native_error_spec(
                "error reported by resolve_callback:"@,
                error as int,
            ) && r->Err_0@.rendered() == native_error_text(
                "error reported by resolve_callback:"@,
                error as int,
            ) && final(self)@ == old(self)@,
            error == 0 && txt_len > 1 && txt_record is Err ==> r is Err && r->Err_0@
                == txt_record->Err_0@ && final(self)@ == (BonjourBrowserContextView {
                resolved_port: port@,
                ..old(self)@
            }),
            error == 0 && !(txt_len > 1 && txt_record is Err) ==> r is Ok && final(self)@ == old(
                self,
            )@.resolved(
                port@,
                txt_len,
                if txt_record is Ok {
                    txt_record->Ok_0@
                } else {
                    Seq::empty()
                },
            ),
            r matches Ok(params) ==> {
                &&& params.flags == DNS_SERVICE_FLAGS_FORCE_MULTICAST
                &&& params.interface_index == interface_index
                &&& params.protocol == 0
                &&& params.hostname@ == host_target@
            },
    {
        if error != 0 {
            return Err(native_error("error reported by resolve_callback:", error));
        }
        self.resolved_port = port;
        if txt_len > 1 {
            match txt_record {
                Ok(record) => {
                    self.resolved_txt = Some(record);
                },
                Err(e) => {
                    return Err(e);
                },
            }
        } else {
            self.resolved_txt = None;
        }
        Ok(
            GetAddressInfoParams {
                flags: DNS_SERVICE_FLAGS_FORCE_MULTICAST,
                interface_index,
                protocol: 0,
                hostname: host_target.to_owned(),
            },
        )
    }

    /// The answer to `DNSServiceGetAddrInfo`: the address of the host.
    ///
    /// The native library may give this answer several times for one
    /// resolution. The first answer finishes the resolution and takes the
    /// name out of the context; every further one finds no name and does
    /// nothing. `Ok(Some(..))` is a finished discovery, to be handed to the
    /// user's callback, as is every error.
    pub fn handle_get_address_info(&mut self, error: i32, address: &str, hostname: &str) -> (r:
        Result<Option<ServiceDiscovery>, Error>)
        ensures
            crate::text::result_view(r) == old(self)@.addressed(error, address@, hostname@).0,
            final(self)@ == old(self)@.addressed(error, address@, hostname@).1,
            old(self)@.resolved_name is Some && error != 0 ==> r is Err && r->Err_0@.rendered()
                == native_error_text("get_address_info_callback() reported error"@, error as int),
    {
        // a further answer for a resolution that is finished
        if self.resolved_name.is_none() {
            return Ok(None);
        }
        if error != 0 {
            return Err(native_error("get_address_info_callback() reported error", error));
        }
        // the port travels most significant byte first
        let port = port_from_network_order(self.resolved_port);
        let domain = match self.resolved_domain.take() {
            Some(domain) => normalize_domain(domain.as_str()),
            None => {
                return Err(
                    Error::BrowserError(
                        "could not get domain from BonjourBrowserContext".to_owned(),
                    ),
                );
            },
        };
        let kind = match self.resolved_kind.take() {
            Some(kind) => normalize_domain(kind.as_str()),
            None => {
                return Err(
                    Error::BrowserError("could not get kind from BonjourBrowserContext".to_owned()),
                );
            },
        };
        let name = match self.resolved_name.take() {
            Some(name) => name,
            None => {
                return Ok(None);
            },
        };
        let service_type = match parse_regtype(kind.as_str()) {
            Ok(service_type) => service_type,
            Err(e) => {
                return Err(e);
            },
        };
        let txt = self.resolved_txt.take();
        let built = ServiceDiscoveryBuilder::default().name(name).service_type(service_type).domain(
            domain,
        ).host_name(hostname.to_owned()).address(address.to_owned()).port(port).txt(txt).build();
        match built {
            Ok(discovery) => Ok(Some(discovery)),
            Err(e) => Err(e),
        }
    }
}

/// The three answers together report what the daemon announced.
///
/// Let the daemon announce an instance `name` of the valid service type
/// `service_type`, written `_name._protocol.` as Bonjour writes it in its
/// answers, in the domain `domain.`, then its port `port`, most significant
/// byte first, with a TXT record of more than one byte, then its address,
/// all without error. Then the address
/// answer gives the discovery of exactly that: the name, the service type
/// without sub-types, the domain without its final dot, the host name, the
/// address, the port and the TXT record. The context is then free again,
/// and a further address answer gives nothing.
pub proof fn lemma_chain_reports_what_was_announced(
    before: BonjourBrowserContextView,
    name: Seq<char>,
    service_type: ServiceTypeView,
    domain: Seq<char>,
    port: u16,
    txt_len: u16,
    txt_record: Seq<Pair>,
    address: Seq<char>,
    hostname: Seq<char>,
)
    requires
        service_type.is_valid(),
        txt_len > 1,
    ensures
        ({
            let browsed = before.browsed(name, service_kind(service_type) + seq!['.'], domain + seq!['.']);
            let resolved = browsed.resolved(port_wire(port), txt_len, txt_record);
            let addressed = resolved.addressed(0, address, hostname);
            &&& addressed.0 == Ok::<Option<ServiceDiscoveryView>, ErrorView>(
                Some(
                    ServiceDiscoveryView {
                        name,
                        service_type: ServiceTypeView {
                            name: service_type.name,
                            protocol: service_type.protocol,
                            sub_types: Seq::empty(),
                        },
                        domain,
                        host_name: hostname,
                        address,
                        port,
                        txt: Some(txt_record),
                    },
                ),
            )
            &&& addressed.1.resolved_name is None
            &&& addressed.1.addressed(0, address, hostname).0 == Ok::<
                Option<ServiceDiscoveryView>,
                ErrorView,
            >(None)
        }),
{
    let plain = ServiceTypeView {
        name: service_type.name,
        protocol: service_type.protocol,
        sub_types: Seq::empty(),
    };
    let kind = service_kind(service_type);
    assert(normalized(kind + seq!['.']) =~= kind);
    assert(normalized(domain + seq!['.']) =~= domain);
    lemma_port_round_trip(port);
    lemma_parse_formatted_regtype(plain);
    assert(regtype(plain) =~= kind) by {
        let head = seq!['_'] + plain.name + seq!['.', '_'] + plain.protocol;
        assert(crate::service_type::underscored(plain.sub_types) =~= Seq::<Seq<char>>::empty());
        assert(seq![head] + Seq::<Seq<char>>::empty() =~= seq![head]);
        assert(head =~= kind);
    }
}

} // verus!
