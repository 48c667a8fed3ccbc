//! Values that a browser reports: discovered and removed services.

use crate::builder::BuilderDelegate;
use crate::error::{Error, ErrorView};
use crate::event_loop::TEventLoop;
use crate::interface::NetworkInterface;
use crate::service_type::{ServiceType, ServiceTypeView};
use crate::text::result_view;
use crate::txt_record::{Pair, TxtRecord};
use vstd::prelude::*;

verus! {

/// Interface for interacting with underlying mDNS implementation service browsing capabilities.
///
/// A browser of this kind owns the native handles and the event loop, which
/// the types of this crate do not; it is implemented around them.
pub trait TMdnsBrowser: Sized {
    /// The handle that keeps the browser running.
    type EventLoop: TEventLoop;

    /// The callback that receives the browser's events.
    type Callback;

    /// The user context that is passed through to the callback.
    type Context;

    /// Creates a new `MdnsBrowser` that browses for the specified `kind` (e.g. `_http._tcp`)
    fn new(service_type: ServiceType) -> Self;

    /// Sets the network interface on which to browse for services on.
    ///
    /// Most applications will want to use the default value `NetworkInterface::Unspec` to browse
    /// on all available interfaces.
    fn set_network_interface(&mut self, interface: NetworkInterface);

    /// Returns the network interface on which to browse for services on.
    fn network_interface(&self) -> NetworkInterface;

    /// Sets the callback that is invoked when the browser has discovered and
    /// resolved or removed a service.
    fn set_service_callback(&mut self, service_callback: Self::Callback);

    /// Sets the optional user context to pass through to the callback. This is useful if you need
    /// to share state between pre and post-callback.
    fn set_context(&mut self, context: Self::Context);

    /// Returns the optional user context to pass through to the callback.
    fn context(&self) -> Option<&Self::Context>;

    /// Starts the browser. Returns an `EventLoop` which can be called to keep the browser alive.
    fn browse_services(&mut self) -> Result<Self::EventLoop, Error>;
}

/// Event from a browser received by the service callback.
#[derive(Debug, PartialEq, Eq)]
pub enum BrowserEvent {
    Add(ServiceDiscovery),
    Remove(ServiceRemoval),
}

/// What a [`BrowserEvent`] is.
pub enum BrowserEventView {
    Add(ServiceDiscoveryView),
    Remove(ServiceRemovalView),
}

impl View for BrowserEvent {
    type V = BrowserEventView;

    open spec fn view(&self) -> BrowserEventView {
        match *self {
            BrowserEvent::Add(discovery) => BrowserEventView::Add(discovery@),
            BrowserEvent::Remove(removal) => BrowserEventView::Remove(removal@),
        }
    }
}

impl Clone for BrowserEvent {
    fn clone(&self) -> (copy: Self)
        ensures
            copy@ == self@,
    {
        match self {
            BrowserEvent::Add(discovery) => BrowserEvent::Add(discovery.clone()),
            BrowserEvent::Remove(removal) => BrowserEvent::Remove(removal.clone()),
        }
    }
}

impl DeepView for BrowserEvent {
    type V = BrowserEventView;

    open spec fn deep_view(&self) -> BrowserEventView {
        self@
    }
}

/// Represents a service that has been discovered by a browser.
#[derive(Debug, PartialEq, Eq)]
pub struct ServiceDiscovery {
    name: String,
    service_type: ServiceType,
    domain: String,
    host_name: String,
    address: String,
    port: u16,
    txt: Option<TxtRecord>,
}

/// What a [`ServiceDiscovery`] is.
pub struct ServiceDiscoveryView {
    pub name: Seq<char>,
    pub service_type: ServiceTypeView,
    pub domain: Seq<char>,
    pub host_name: Seq<char>,
    pub address: Seq<char>,
    pub port: u16,
    pub txt: Option<Seq<Pair>>,
}

impl View for ServiceDiscovery {
    type V = ServiceDiscoveryView;

    closed spec fn view(&self) -> ServiceDiscoveryView {
        ServiceDiscoveryView {
            name: self.name@,
            service_type: self.service_type@,
            domain: self.domain@,
            host_name: self.host_name@,
            address: self.address@,
            port: self.port,
            txt: self.txt.deep_view(),
        }
    }
}

impl Clone for ServiceDiscovery {
    fn clone(&self) -> (copy: Self)
        ensures
            copy@ == self@,
    {
        let txt = match &self.txt {
            Some(record) => Some(record.clone()),
            None => None,
        };
        Self {
            name: self.name.clone(),
            service_type: self.service_type.clone(),
            domain: self.domain.clone(),
            host_name: self.host_name.clone(),
            address: self.address.clone(),
            port: self.port,
            txt,
        }
    }
}

impl DeepView for ServiceDiscovery {
    type V = ServiceDiscoveryView;

    open spec fn deep_view(&self) -> ServiceDiscoveryView {
        self@
    }
}

impl ServiceDiscovery {
    /// The "abc" part in "abc._http._udp.local"
    pub fn name(&self) -> (name: &String)
        ensures
            name@ == self@.name,
    {
        &self.name
    }

    /// The type of the service, such as `_http._udp`
    pub fn service_type(&self) -> (service_type: &ServiceType)
        ensures
            service_type@ == self@.service_type,
    {
        &self.service_type
    }

    /// The "local" part in "abc._http._udp.local"
    pub fn domain(&self) -> (domain: &String)
        ensures
            domain@ == self@.domain,
    {
        &self.domain
    }

    /// The name of the host that offers the service
    pub fn host_name(&self) -> (host_name: &String)
        ensures
            host_name@ == self@.host_name,
    {
        &self.host_name
    }

    /// The address of the host, as text
    pub fn address(&self) -> (address: &String)
        ensures
            address@ == self@.address,
    {
        &self.address
    }

    /// The port on which the service listens
    pub fn port(&self) -> (port: &u16)
        ensures
            *port == self@.port,
    {
        &self.port
    }

    /// The TXT record of the service, if it has one
    pub fn txt(&self) -> (txt: &Option<TxtRecord>)
        ensures
            txt.deep_view() == self@.txt,
    {
        &self.txt
    }
}

/// Collects the fields of a [`ServiceDiscovery`]; every field must be set
/// before [`ServiceDiscoveryBuilder::build`] succeeds.
#[derive(Debug)]
pub struct ServiceDiscoveryBuilder {
    name: Option<String>,
    service_type: Option<ServiceType>,
    domain: Option<String>,
    host_name: Option<String>,
    address: Option<String>,
    port: Option<u16>,
    txt: Option<Option<TxtRecord>>,
}

/// What a [`ServiceDiscoveryBuilder`] holds so far.
pub struct ServiceDiscoveryBuilderView {
    pub name: Option<Seq<char>>,
    pub service_type: Option<ServiceTypeView>,
    pub domain: Option<Seq<char>>,
    pub host_name: Option<Seq<char>>,
    pub address: Option<Seq<char>>,
    pub port: Option<u16>,
    pub txt: Option<Option<Seq<Pair>>>,
}

impl ServiceDiscoveryBuilderView {
    /// The builder in which nothing is set.
    pub open spec fn blank() -> Self {
        ServiceDiscoveryBuilderView {
            name: None,
            service_type: None,
            domain: None,
            host_name: None,
            address: None,
            port: None,
            txt: None,
        }
    }

    /// What building gives: the discovery made of the fields when all are
    /// set, else an error that names the first field that is not.
    pub open spec fn built(self) -> Result<ServiceDiscoveryView, ErrorView> {
        if self.name is None {
            Err(ErrorView::BrowserError("`name` must be initialized"@))
        } else if self.service_type is None {
            Err(ErrorView::BrowserError("`service_type` must be initialized"@))
        } else if self.domain is None {
            Err(ErrorView::BrowserError("`domain` must be initialized"@))
        } else if self.host_name is None {
            Err(ErrorView::BrowserError("`host_name` must be initialized"@))
        } else if self.address is None {
            Err(ErrorView::BrowserError("`address` must be initialized"@))
        } else if self.port is None {
            Err(ErrorView::BrowserError("`port` must be initialized"@))
        } else if self.txt is None {
            Err(ErrorView::BrowserError("`txt` must be initialized"@))
        } else {
            Ok(
                ServiceDiscoveryView {
                    name: self.name->0,
                    service_type: self.service_type->0,
                    domain: self.domain->0,
                    host_name: self.host_name->0,
                    address: self.address->0,
                    port: self.port->0,
                    txt: self.txt->0,
                },
            )
        }
    }
}

impl View for ServiceDiscoveryBuilder {
    type V = ServiceDiscoveryBuilderView;

    closed spec fn view(&self) -> ServiceDiscoveryBuilderView {
        ServiceDiscoveryBuilderView {
            name: self.name.deep_view(),
            service_type: self.service_type.deep_view(),
            domain: self.domain.deep_view(),
            host_name: self.host_name.deep_view(),
            address: self.address.deep_view(),
            port: self.port,
            txt: self.txt.deep_view(),
        }
    }
}

impl Default for ServiceDiscoveryBuilder {
    fn default() -> (builder: Self)
        ensures
            builder@ == ServiceDiscoveryBuilderView::blank(),
    {
        Self {
            name: None,
            service_type: None,
            domain: None,
            host_name: None,
            address: None,
            port: None,
            txt: None,
        }
    }
}

impl ServiceDiscoveryBuilder {
    pub fn name(self, value: String) -> (builder: Self)
        ensures
            builder@ == (ServiceDiscoveryBuilderView { name: Some(value@), ..self@ }),
    {
        Self { name: Some(value), ..self }
    }

    pub fn service_type(self, value: ServiceType) -> (builder: Self)
        ensures
            builder@ == (ServiceDiscoveryBuilderView { service_type: Some(value@), ..self@ }),
    {
        Self { service_type: Some(value), ..self }
    }

    pub fn domain(self, value: String) -> (builder: Self)
        ensures
            builder@ == (ServiceDiscoveryBuilderView { domain: Some(value@), ..self@ }),
    {
        Self { domain: Some(value), ..self }
    }

    pub fn host_name(self, value: String) -> (builder: Self)
        ensures
            builder@ == (ServiceDiscoveryBuilderView { host_name: Some(value@), ..self@ }),
    {
        Self { host_name: Some(value), ..self }
    }

    pub fn address(self, value: String) -> (builder: Self)
        ensures
            builder@ == (ServiceDiscoveryBuilderView { address: Some(value@), ..self@ }),
    {
        Self { address: Some(value), ..self }
    }

    pub fn port(self, value: u16) -> (builder: Self)
        ensures
            builder@ == (ServiceDiscoveryBuilderView { port: Some(value), ..self@ }),
    {
        Self { port: Some(value), ..self }
    }

    pub fn txt(self, value: Option<TxtRecord>) -> (builder: Self)
        ensures
            builder@ == (ServiceDiscoveryBuilderView { txt: Some(value.deep_view()), ..self@ }),
    {
        Self { txt: Some(value), ..self }
    }

    /// Builds the discovery, or names the first field that was not set.
    pub fn build(self) -> (r: Result<ServiceDiscovery, Error>)
        ensures
            result_view(r) == self@.built(),
    {
        let name = match self.name {
            Some(value) => value,
            None => {
                return Err(Error::BrowserError("`name` must be initialized".to_owned()));
            },
        };
        let service_type = match self.service_type {
            Some(value) => value,
            None => {
                return Err(Error::BrowserError("`service_type` must be initialized".to_owned()));
            },
        };
        let domain = match self.domain {
            Some(value) => value,
            None => {
                return Err(Error::BrowserError("`domain` must be initialized".to_owned()));
            },
        };
        let host_name = match self.host_name {
            Some(value) => value,
            None => {
                return Err(Error::BrowserError("`host_name` must be initialized".to_owned()));
            },
        };
        let address = match self.address {
            Some(value) => value,
            None => {
                return Err(Error::BrowserError("`address` must be initialized".to_owned()));
            },
        };
        let port = match self.port {
            Some(value) => value,
            None => {
                return Err(Error::BrowserError("`port` must be initialized".to_owned()));
            },
        };
        let txt = match self.txt {
            Some(value) => value,
            None => {
                return Err(Error::BrowserError("`txt` must be initialized".to_owned()));
            },
        };
        Ok(ServiceDiscovery { name, service_type, domain, host_name, address, port, txt })
    }
}

impl BuilderDelegate<ServiceDiscoveryBuilder> for ServiceDiscovery {

}

/// Represents a service that has been removed by a browser.
#[derive(Debug, PartialEq, Eq)]
pub struct ServiceRemoval {
    /// The "abc" part in "abc._http._udp.local"
    name: String,
    /// The "_http._udp" part in "abc._http._udp.local"
    kind: String,
    /// The "local" part in "abc._http._udp.local"
    domain: String,
}

/// What a [`ServiceRemoval`] is.
pub struct ServiceRemovalView {
    pub name: Seq<char>,
    pub kind: Seq<char>,
    pub domain: Seq<char>,
}

impl View for ServiceRemoval {
    type V = ServiceRemovalView;

    closed spec fn view(&self) -> ServiceRemovalView {
        ServiceRemovalView { name: self.name@, kind: self.kind@, domain: self.domain@ }
    }
}

impl Clone for ServiceRemoval {
    fn clone(&self) -> (copy: Self)
        ensures
            copy@ == self@,
    {
        Self { name: self.name.clone(), kind: self.kind.clone(), domain: self.domain.clone() }
    }
}

impl DeepView for ServiceRemoval {
    type V = ServiceRemovalView;

    open spec fn deep_view(&self) -> ServiceRemovalView {
        self@
    }
}

impl ServiceRemoval {
    /// The "abc" part in "abc._http._udp.local"
    pub fn name(&self) -> (name: &String)
        ensures
            name@ == self@.name,
    {
        &self.name
    }

    /// The "_http._udp" part in "abc._http._udp.local"
    pub fn kind(&self) -> (kind: &String)
        ensures
            kind@ == self@.kind,
    {
        &self.kind
    }

    /// The "local" part in "abc._http._udp.local"
    pub fn domain(&self) -> (domain: &String)
        ensures
            domain@ == self@.domain,
    {
        &self.domain
    }
}

/// Collects the fields of a [`ServiceRemoval`]; every field must be set
/// before [`ServiceRemovalBuilder::build`] succeeds.
#[derive(Debug)]
pub struct ServiceRemovalBuilder {
    name: Option<String>,
    kind: Option<String>,
    domain: Option<String>,
}

/// What a [`ServiceRemovalBuilder`] holds so far.
pub struct ServiceRemovalBuilderView {
    pub name: Option<Seq<char>>,
    pub kind: Option<Seq<char>>,
    pub domain: Option<Seq<char>>,
}

impl ServiceRemovalBuilderView {
    /// What building gives: the removal made of the fields when all are set,
    /// else an error that names the first field that is not.
    pub open spec fn built(self) -> Result<ServiceRemovalView, ErrorView> {
        if self.name is None {
            Err(ErrorView::BrowserError("`name` must be initialized"@))
        } else if self.kind is None {
            Err(ErrorView::BrowserError("`kind` must be initialized"@))
        } else if self.domain is None {
            Err(ErrorView::BrowserError("`domain` must be initialized"@))
        } else {
            Ok(ServiceRemovalView { name: self.name->0, kind: self.kind->0, domain: self.domain->0 })
        }
    }
}

impl View for ServiceRemovalBuilder {
    type V = ServiceRemovalBuilderView;

    closed spec fn view(&self) -> ServiceRemovalBuilderView {
        ServiceRemovalBuilderView {
            name: self.name.deep_view(),
            kind: self.kind.deep_view(),
            domain: self.domain.deep_view(),
        }
    }
}

impl Default for ServiceRemovalBuilder {
    fn default() -> (builder: Self)
        ensures
            builder@ == (ServiceRemovalBuilderView { name: None, kind: None, domain: None }),
    {
        Self { name: None, kind: None, domain: None }
    }
}

impl ServiceRemovalBuilder {
    pub fn name(self, value: String) -> (builder: Self)
        ensures
            builder@ == (ServiceRemovalBuilderView { name: Some(value@), ..self@ }),
    {
        Self { name: Some(value), ..self }
    }

    pub fn kind(self, value: String) -> (builder: Self)
        ensures
            builder@ == (ServiceRemovalBuilderView { kind: Some(value@), ..self@ }),
    {
        Self { kind: Some(value), ..self }
    }

    pub fn domain(self, value: String) -> (builder: Self)
        ensures
            builder@ == (ServiceRemovalBuilderView { domain: Some(value@), ..self@ }),
    {
        Self { domain: Some(value), ..self }
    }

    /// Builds the removal, or names the first field that was not set.
    pub fn build(self) -> (r: Result<ServiceRemoval, Error>)
        ensures
            result_view(r) == self@.built(),
    {
        let name = match self.name {
            Some(value) => value,
            None => {
                return Err(Error::BrowserError("`name` must be initialized".to_owned()));
            },
        };
        let kind = match self.kind {
            Some(value) => value,
            None => {
                return Err(Error::BrowserError("`kind` must be initialized".to_owned()));
            },
        };
        let domain = match self.domain {
            Some(value) => value,
            None => {
                return Err(Error::BrowserError("`domain` must be initialized".to_owned()));
            },
        };
        Ok(ServiceRemoval { name, kind, domain })
    }
}

impl BuilderDelegate<ServiceRemovalBuilder> for ServiceRemoval {

}

} // verus!
