//! Values that a service reports: its registration.

use crate::builder::BuilderDelegate;
use crate::error::{Error, ErrorView};
use crate::event_loop::TEventLoop;
use crate::interface::NetworkInterface;
use crate::service_type::{ServiceType, ServiceTypeView};
use crate::text::result_view;
use crate::txt_record::TxtRecord;
use vstd::prelude::*;

verus! {

/// Interface for interacting with underlying mDNS service implementation registration
/// capabilities.
///
/// A service of this kind owns the native handles and the event loop, which
/// the types of this crate do not; it is implemented around them.
pub trait TMdnsService: Sized {
    /// The handle that keeps the service running.
    type EventLoop: TEventLoop;

    /// The callback that receives the registration.
    type Callback;

    /// The user context that is passed through to the callback.
    type Context;

    /// Creates a new `MdnsService` with the specified `ServiceType` (e.g. `_http._tcp`) and `port`.
    fn new(service_type: ServiceType, port: u16) -> Self;

    /// Sets the name to register this service under.
    fn set_name(&mut self, name: &str);

    /// Sets the network interface to bind this service to.
    ///
    /// Most applications will want to use the default value `NetworkInterface::Unspec` to bind to
    /// all available interfaces.
    fn set_network_interface(&mut self, interface: NetworkInterface);

    /// Sets the domain on which to advertise the service.
    ///
    /// Most applications will want to leave this unset, to register to the default domain.
    fn set_domain(&mut self, domain: &str);

    /// Sets the SRV target host name.
    ///
    /// Most applications will want to leave this unset, to use the machine's default host name.
    fn set_host(&mut self, host: &str);

    /// Sets the optional `TxtRecord` to register this service with.
    fn set_txt_record(&mut self, txt_record: TxtRecord);

    /// Sets the callback that is invoked when the service has been registered.
    fn set_registered_callback(&mut self, registered_callback: Self::Callback);

    /// Sets the optional user context to pass through to the callback. This is useful if you need
    /// to share state between pre and post-callback.
    fn set_context(&mut self, context: Self::Context);

    /// Registers and start's the service.
    fn register(&mut self) -> Result<Self::EventLoop, Error>;
}

/// Represents a registration event for a service.
#[derive(Debug, PartialEq, Eq)]
pub struct ServiceRegistration {
    name: String,
    service_type: ServiceType,
    domain: String,
}

/// What a [`ServiceRegistration`] is.
pub struct ServiceRegistrationView {
    pub name: Seq<char>,
    pub service_type: ServiceTypeView,
    pub domain: Seq<char>,
}

impl View for ServiceRegistration {
    type V = ServiceRegistrationView;

    closed spec fn view(&self) -> ServiceRegistrationView {
        ServiceRegistrationView {
            name: self.name@,
            service_type: self.service_type@,
            domain: self.domain@,
        }
    }
}

impl Clone for ServiceRegistration {
    fn clone(&self) -> (copy: Self)
        ensures
            copy@ == self@,
    {
        Self {
            name: self.name.clone(),
            service_type: self.service_type.clone(),
            domain: self.domain.clone(),
        }
    }
}

impl DeepView for ServiceRegistration {
    type V = ServiceRegistrationView;

    open spec fn deep_view(&self) -> ServiceRegistrationView {
        self@
    }
}

impl Default for ServiceRegistration {
    /// The blank registration: empty texts and the blank service type.
    fn default() -> (registration: Self)
        ensures
            registration@ == (ServiceRegistrationView {
                name: Seq::empty(),
                service_type: ServiceTypeView {
                    name: Seq::empty(),
                    protocol: Seq::empty(),
                    sub_types: Seq::empty(),
                },
                domain: Seq::empty(),
            }),
    {
        Self { name: String::new(), service_type: ServiceType::default(), domain: String::new() }
    }
}

impl ServiceRegistration {
    /// The name under which the service was registered
    pub fn name(&self) -> (name: &String)
        ensures
            name@ == self@.name,
    {
        &self.name
    }

    /// The type of the service, such as `_http._udp`
    pub fn service_type(&self) -> (service_type: &ServiceType)
        ensures
            service_type@ == self@.service_type,
    {
        &self.service_type
    }

    /// The domain in which the service was registered
    pub fn domain(&self) -> (domain: &String)
        ensures
            domain@ == self@.domain,
    {
        &self.domain
    }
}

/// Collects the fields of a [`ServiceRegistration`]; every field must be set
/// before [`ServiceRegistrationBuilder::build`] succeeds.
#[derive(Debug)]
pub struct ServiceRegistrationBuilder {
    name: Option<String>,
    service_type: Option<ServiceType>,
    domain: Option<String>,
}

/// What a [`ServiceRegistrationBuilder`] holds so far.
pub struct ServiceRegistrationBuilderView {
    pub name: Option<Seq<char>>,
    pub service_type: Option<ServiceTypeView>,
    pub domain: Option<Seq<char>>,
}

impl ServiceRegistrationBuilderView {
    /// What building gives: the registration made of the fields when all are
    /// set, else an error that names the first field that is not.
    pub open spec fn built(self) -> Result<ServiceRegistrationView, ErrorView> {
        if self.name is None {
            Err(ErrorView::ServiceError("`name` must be initialized"@))
        } else if self.service_type is None {
            Err(ErrorView::ServiceError("`service_type` must be initialized"@))
        } else if self.domain is None {
            Err(ErrorView::ServiceError("`domain` must be initialized"@))
        } else {
            Ok(
                ServiceRegistrationView {
                    name: self.name->0,
                    service_type: self.service_type->0,
                    domain: self.domain->0,
                },
            )
        }
    }
}

impl View for ServiceRegistrationBuilder {
    type V = ServiceRegistrationBuilderView;

    closed spec fn view(&self) -> ServiceRegistrationBuilderView {
        ServiceRegistrationBuilderView {
            name: self.name.deep_view(),
            service_type: self.service_type.deep_view(),
            domain: self.domain.deep_view(),
        }
    }
}

impl Default for ServiceRegistrationBuilder {
    fn default() -> (builder: Self)
        ensures
            builder@ == (ServiceRegistrationBuilderView {
                name: None,
                service_type: None,
                domain: None,
            }),
    {
        Self { name: None, service_type: None, domain: None }
    }
}

impl ServiceRegistrationBuilder {
    pub fn name(self, value: String) -> (builder: Self)
        ensures
            builder@ == (ServiceRegistrationBuilderView { name: Some(value@), ..self@ }),
    {
        Self { name: Some(value), ..self }
    }

    pub fn service_type(self, value: ServiceType) -> (builder: Self)
        ensures
            builder@ == (ServiceRegistrationBuilderView { service_type: Some(value@), ..self@ }),
    {
        Self { service_type: Some(value), ..self }
    }

    pub fn domain(self, value: String) -> (builder: Self)
        ensures
            builder@ == (ServiceRegistrationBuilderView { domain: Some(value@), ..self@ }),
    {
        Self { domain: Some(value), ..self }
    }

    /// Builds the registration, or names the first field that was not set.
    pub fn build(self) -> (r: Result<ServiceRegistration, Error>)
        ensures
            result_view(r) == self@.built(),
    {
        let name = match self.name {
            Some(value) => value,
            None => {
                return Err(Error::ServiceError("`name` must be initialized".to_owned()));
            },
        };
        let service_type = match self.service_type {
            Some(value) => value,
            None => {
                return Err(Error::ServiceError("`service_type` must be initialized".to_owned()));
            },
        };
        let domain = match self.domain {
            Some(value) => value,
            None => {
                return Err(Error::ServiceError("`domain` must be initialized".to_owned()));
            },
        };
        Ok(ServiceRegistration { name, service_type, domain })
    }
}

impl BuilderDelegate<ServiceRegistrationBuilder> for ServiceRegistration {

}

} // verus!
