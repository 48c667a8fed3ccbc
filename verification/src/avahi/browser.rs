//! Avahi implementation for cross-platform browser
//!
//! Avahi reports each instance of the browsed type through the browser's
//! callback. A new instance gets a resolver of its own, whose callback
//! brings the instance's host, address, port and TXT record, or a failure;
//! either way the resolver is done and leaves the set of resolvers in
//! flight. A vanished instance is reported as it is, without resolving.
//! [`AvahiBrowserContext`] holds the state of this. It never makes a native
//! call itself: each of its steps says which call to make, and the call's
//! result is handed to the next step.

use super::avahi_util::{
    browser_kind, format_browser_type, interface_from_index, interface_from_index_spec,
    interface_index, interface_index_spec, lemma_parse_service_kind, service_kind,
    AVAHI_IF_UNSPEC,
    AVAHI_PROTO_UNSPEC,
};
use super::raw_browser::{ManagedAvahiServiceBrowserParams, ManagedAvahiServiceBrowserParamsView};
use super::resolver::{
    ManagedAvahiServiceResolverParams, ManagedAvahiServiceResolverParamsView, ServiceResolverSet,
};
use super::service::ClientState;
use crate::browser::{
    BrowserEvent, BrowserEventView, ServiceDiscoveryBuilder, ServiceDiscoveryView,
    ServiceRemovalBuilder, ServiceRemovalView,
};
use crate::error::{Error, ErrorView};
use crate::interface::NetworkInterface;
use crate::service_type::{ServiceType, ServiceTypeView};
use crate::text::result_view;
use crate::txt_record::{Pair, TxtRecord};
use vstd::prelude::*;
use vstd::string::StringExecFns;

verus! {

/// The events of an Avahi service browser, as its callback reports them.
#[derive(Clone, Copy, Debug, PartialEq, Eq, Structural)]
pub enum AvahiBrowserEvent {
    /// An instance has appeared.
    New,
    /// An instance has vanished.
    Remove,
    /// Everything that the cache holds has been reported.
    CacheExhausted,
    /// Nothing more is expected for now.
    AllForNow,
    /// Browsing has failed; the client's last error says why.
    Failure,
}

/// What the callback of a resolver reports.
#[derive(Debug, PartialEq, Eq)]
pub enum AvahiResolverEvent {
    /// The instance was resolved.
    Found { host_name: String, address: String, port: u16, txt: Option<TxtRecord> },
    /// The instance could not be resolved; the client's last error says why.
    Failure,
    /// An event that is neither of the two.
    Other,
}

/// What an [`AvahiResolverEvent`] is.
pub enum AvahiResolverEventView {
    Found { host_name: Seq<char>, address: Seq<char>, port: u16, txt: Option<Seq<Pair>> },
    Failure,
    Other,
}

impl View for AvahiResolverEvent {
    type V = AvahiResolverEventView;

    open spec fn view(&self) -> AvahiResolverEventView {
        match *self {
            AvahiResolverEvent::Found { host_name, address, port, txt } => {
                AvahiResolverEventView::Found {
                    host_name: host_name@,
                    address: address@,
                    port,
                    txt: txt.deep_view(),
                }
            },
            AvahiResolverEvent::Failure => AvahiResolverEventView::Failure,
            AvahiResolverEvent::Other => AvahiResolverEventView::Other,
        }
    }
}

/// The native call to make next.
#[derive(Debug, PartialEq, Eq)]
pub enum BrowserCommand {
    /// `avahi_service_browser_new`; its result goes to
    /// [`AvahiBrowserContext::browser_created`].
    CreateBrowser(ManagedAvahiServiceBrowserParams),
    /// `avahi_service_resolver_new`; its result goes to
    /// [`AvahiBrowserContext::resolver_created`].
    CreateResolver(ManagedAvahiServiceResolverParams),
}

/// What a [`BrowserCommand`] is.
pub enum BrowserCommandView {
    CreateBrowser(ManagedAvahiServiceBrowserParamsView),
    CreateResolver(ManagedAvahiServiceResolverParamsView),
}

impl View for BrowserCommand {
    type V = BrowserCommandView;

    open spec fn view(&self) -> BrowserCommandView {
        match *self {
            BrowserCommand::CreateBrowser(params) => BrowserCommandView::CreateBrowser(params@),
            BrowserCommand::CreateResolver(params) => BrowserCommandView::CreateResolver(params@),
        }
    }
}

/// What to do after a step of the browser.
#[derive(Debug, PartialEq, Eq)]
pub enum BrowserStep {
    /// Make this native call and hand its result back.
    Run(BrowserCommand),
    /// Hand this result to the user's callback.
    Notify(Result<BrowserEvent, Error>),
    /// Nothing to do until the next native callback.
    Done,
}

/// What a [`BrowserStep`] is.
pub enum BrowserStepView {
    Run(BrowserCommandView),
    Notify(Result<BrowserEventView, ErrorView>),
    Done,
}

impl View for BrowserStep {
    type V = BrowserStepView;

    open spec fn view(&self) -> BrowserStepView {
        match *self {
            BrowserStep::Run(command) => BrowserStepView::Run(command@),
            BrowserStep::Notify(result) => BrowserStepView::Notify(result_view(result)),
            BrowserStep::Done => BrowserStepView::Done,
        }
    }
}

/// The message for an instance that could not be resolved.
pub open spec fn unresolved_message(name: Seq<char>, kind: Seq<char>, domain: Seq<char>) -> Seq<char> {
    "failed to resolve service `"@ + name + "` of type `"@ + kind + "` in domain `"@ + domain + "`"@
}

/// The arguments for browsing for `kind` on the interface `interface_index`:
/// any protocol, the daemon's default domain, no flags.
pub open spec fn browser_params(kind: Seq<char>, interface_index: i32)
    -> ManagedAvahiServiceBrowserParamsView {
    ManagedAvahiServiceBrowserParamsView {
        interface: interface_index,
        protocol: AVAHI_PROTO_UNSPEC,
        kind,
        domain: None,
        flags: 0,
    }
}

/// The arguments for resolving the instance that the browser reported on
/// `interface` and `protocol`: an address of any protocol, no flags.
pub open spec fn resolver_params(
    interface: i32,
    protocol: i32,
    name: Seq<char>,
    kind: Seq<char>,
    domain: Seq<char>,
) -> ManagedAvahiServiceResolverParamsView {
    ManagedAvahiServiceResolverParamsView {
        interface,
        protocol,
        name,
        kind,
        domain,
        aprotocol: AVAHI_PROTO_UNSPEC,
        flags: 0,
    }
}

/// The event for the instance `name` of type `kind` in `domain` having
/// vanished.
pub open spec fn removed_event(name: Seq<char>, kind: Seq<char>, domain: Seq<char>)
    -> BrowserEventView {
    BrowserEventView::Remove(ServiceRemovalView { name, kind, domain })
}

/// What a resolved instance gives: the discovery, where the instance's kind
/// parses as a service type, and else the error of parsing it.
pub open spec fn found_event(
    host_name: Seq<char>,
    address: Seq<char>,
    name: Seq<char>,
    kind: Seq<char>,
    domain: Seq<char>,
    port: u16,
    txt: Option<Seq<Pair>>,
) -> Result<BrowserEventView, ErrorView> {
    match ServiceTypeView::parsed(kind) {
        Err(e) => Err(e),
        Ok(service_type) => Ok(
            BrowserEventView::Add(
                ServiceDiscoveryView { name, service_type, domain, host_name, address, port, txt },
            ),
        ),
    }
}

/// What the callback of a resolver gives for the user: the discovery or the
/// error of [`found_event`] where the instance was resolved, the failure
/// with the client's last error code where it was not, and nothing for any
/// other event.
pub open spec fn resolved_event(
    event: AvahiResolverEventView,
    name: Seq<char>,
    kind: Seq<char>,
    domain: Seq<char>,
    code: i32,
) -> Option<Result<BrowserEventView, ErrorView>> {
    match event {
        AvahiResolverEventView::Failure => Some(
            Err(
                ErrorView::MdnsSystemError {
                    code: code as int,
                    message: unresolved_message(name, kind, domain),
                },
            ),
        ),
        AvahiResolverEventView::Found { host_name, address, port, txt } => Some(
            found_event(host_name, address, name, kind, domain, port, txt),
        ),
        AvahiResolverEventView::Other => None,
    }
}

/// The step after the callback of a resolver: the user is told what
/// [`resolved_event`] gives, where it gives anything.
pub open spec fn resolved_step(
    event: AvahiResolverEventView,
    name: Seq<char>,
    kind: Seq<char>,
    domain: Seq<char>,
    code: i32,
) -> BrowserStepView {
    match resolved_event(event, name, kind, domain, code) {
        Some(result) => BrowserStepView::Notify(result),
        None => BrowserStepView::Done,
    }
}

/// The event for an instance having vanished. It needs no resolving: what
/// the browser's callback brings is all there is to say.
pub fn handle_browser_remove(name: &str, kind: &str, domain: &str) -> (r: Result<BrowserEvent, Error>)
    ensures
        result_view(r) == Ok::<BrowserEventView, ErrorView>(removed_event(name@, kind@, domain@)),
{
    let built = ServiceRemovalBuilder::default().name(name.to_owned()).kind(
        kind.to_owned(),
    ).domain(domain.to_owned()).build();
    match built {
        Ok(removal) => Ok(BrowserEvent::Remove(removal)),
        Err(e) => Err(e),
    }
}

/// The event for an instance having been resolved.
pub fn handle_resolver_found(
    host_name: String,
    address: String,
    name: &str,
    kind: &str,
    domain: &str,
    port: u16,
    txt: Option<TxtRecord>,
) -> (r: Result<BrowserEvent, Error>)
    ensures
        result_view(r) == found_event(
            host_name@,
            address@,
            name@,
            kind@,
            domain@,
            port,
            txt.deep_view(),
        ),
{
    let service_type = match ServiceType::from_str(kind) {
        Ok(service_type) => service_type,
        Err(e) => {
            return Err(e);
        },
    };
    let built = ServiceDiscoveryBuilder::default().name(name.to_owned()).service_type(
        service_type,
    ).domain(domain.to_owned()).host_name(host_name).address(address).port(port).txt(txt).build();
    match built {
        Ok(discovery) => Ok(BrowserEvent::Add(discovery)),
        Err(e) => Err(e),
    }
}

/// The state of one browser: what it browses for, and the resolvers that it
/// has in flight. `R` is the wrapper that owns a native resolver.
#[derive(Debug)]
pub struct AvahiBrowserContext<R> {
    resolvers: ServiceResolverSet<R>,
    interface_index: i32,
    kind: String,
    has_client: bool,
    has_browser: bool,
}

/// What an [`AvahiBrowserContext`] holds.
pub struct AvahiBrowserContextView<R> {
    /// The resolvers in flight, each under its native handle.
    pub resolvers: Map<usize, R>,
    pub interface_index: i32,
    /// The type that is browsed for, as Avahi writes it.
    pub kind: Seq<char>,
    /// Whether the native client exists.
    pub has_client: bool,
    /// Whether the native browser exists.
    pub has_browser: bool,
}

impl<R> View for AvahiBrowserContext<R> {
    type V = AvahiBrowserContextView<R>;

    closed spec fn view(&self) -> AvahiBrowserContextView<R> {
        AvahiBrowserContextView {
            resolvers: self.resolvers@,
            interface_index: self.interface_index,
            kind: self.kind@,
            has_client: self.has_client,
            has_browser: self.has_browser,
        }
    }
}

impl<R> AvahiBrowserContextView<R> {
    /// Begins browsing. Without a client that is an error.
    pub open spec fn browsing(self) -> BrowserStepView {
        if !self.has_client {
            BrowserStepView::Notify(Err(ErrorView::BrowserError("could not get client as ref"@)))
        } else {
            BrowserStepView::Run(
                BrowserCommandView::CreateBrowser(browser_params(self.kind, self.interface_index)),
            )
        }
    }

    /// What a new instance asks for: a resolver for it. Without a client
    /// that is an error.
    pub open spec fn discovered(
        self,
        interface: i32,
        protocol: i32,
        name: Seq<char>,
        kind: Seq<char>,
        domain: Seq<char>,
    ) -> Result<ManagedAvahiServiceResolverParamsView, ErrorView> {
        if !self.has_client {
            Err(ErrorView::BrowserError("expected initialized client"@))
        } else {
            Ok(resolver_params(interface, protocol, name, kind, domain))
        }
    }

    /// What an event of the browser asks for.
    ///
    /// * A new instance: a resolver for it.
    /// * A vanished instance: the user is told.
    /// * A failure: the user is told, with the client's last error code.
    /// * Anything else: nothing.
    pub open spec fn browsed(
        self,
        event: AvahiBrowserEvent,
        interface: i32,
        protocol: i32,
        name: Seq<char>,
        kind: Seq<char>,
        domain: Seq<char>,
        code: i32,
    ) -> BrowserStepView {
        match event {
            AvahiBrowserEvent::New => match self.discovered(interface, protocol, name, kind, domain) {
                Ok(params) => BrowserStepView::Run(BrowserCommandView::CreateResolver(params)),
                Err(e) => BrowserStepView::Notify(Err(e)),
            },
            AvahiBrowserEvent::Failure => BrowserStepView::Notify(
                Err(ErrorView::MdnsSystemError { code: code as int, message: "browser failure"@ }),
            ),
            AvahiBrowserEvent::Remove => BrowserStepView::Notify(
                Ok(removed_event(name, kind, domain)),
            ),
            _ => BrowserStepView::Done,
        }
    }
}

impl<R> AvahiBrowserContext<R> {
    /// The context of a browser for the given kind, written the way Avahi
    /// writes it, on the interface with the given Avahi index.
    pub fn new(kind: String, interface_index: i32) -> (context: Self)
        ensures
            context@ == (AvahiBrowserContextView::<R> {
                resolvers: Map::empty(),
                interface_index,
                kind: kind@,
                has_client: false,
                has_browser: false,
            }),
    {
        Self {
            resolvers: ServiceResolverSet::default(),
            interface_index,
            kind,
            has_client: false,
            has_browser: false,
        }
    }

    /// Notes that the native client exists.
    pub fn client_created(&mut self)
        ensures
            final(self)@ == (AvahiBrowserContextView { has_client: true, ..old(self)@ }),
    {
        self.has_client = true;
    }

    /// The number of resolvers in flight.
    pub fn resolvers_in_flight(&self) -> (n: usize)
        ensures
            n == self@.resolvers.len(),
            self@.resolvers.dom().finite(),
    {
        self.resolvers.len()
    }

    /// Whether the resolver with the native handle `raw` is in flight.
    pub fn is_resolving(&self, raw: usize) -> (found: bool)
        ensures
            found == self@.resolvers.contains_key(raw),
    {
        self.resolvers.contains_raw(raw)
    }

    /// Begins browsing: says to create the native browser.
    pub fn create_browser(&self) -> (step: BrowserStep)
        ensures
            step@ == self@.browsing(),
    {
        if !self.has_client {
            return BrowserStep::Notify(
                Err(Error::BrowserError("could not get client as ref".to_owned())),
            );
        }
        BrowserStep::Run(
            BrowserCommand::CreateBrowser(
                ManagedAvahiServiceBrowserParams {
                    interface: self.interface_index,
                    protocol: AVAHI_PROTO_UNSPEC,
                    kind: self.kind.clone(),
                    domain: None,
                    flags: 0,
                },
            ),
        )
    }

    /// Takes the result of creating the native browser. `code` is the
    /// client's last error code, looked at only where `created` is false.
    pub fn browser_created(&mut self, created: bool, code: i32) -> (step: BrowserStep)
        ensures
            created ==> step@ == BrowserStepView::Done && final(self)@ == (AvahiBrowserContextView {
                has_browser: true,
                ..old(self)@
            }),
            !created ==> final(self)@ == old(self)@ && step@ == BrowserStepView::Notify(
                Err(
                    ErrorView::MdnsSystemError {
                        code: code as int,
                        message: "could not initialize Avahi service browser"@,
                    },
                ),
            ),
    {
        if created {
            self.has_browser = true;
            BrowserStep::Done
        } else {
            BrowserStep::Notify(
                Err(
                    Error::MdnsSystemError {
                        code,
                        message: "could not initialize Avahi service browser".to_owned(),
                    },
                ),
            )
        }
    }

    /// Takes a change of the client's state: a failed client is reported to
    /// the user with its last error, whose code is `code` and whose
    /// description by Avahi is `description`. Other states ask for nothing.
    pub fn client_callback(&self, state: ClientState, code: i32, description: &str) -> (step:
        BrowserStep)
        ensures
            state == ClientState::Failure ==> step@ == BrowserStepView::Notify(
                Err(ErrorView::MdnsSystemError { code: code as int, message: description@ }),
            ),
            state != ClientState::Failure ==> step@ == BrowserStepView::Done,
    {
        match state {
            ClientState::Failure => BrowserStep::Notify(
                Err(Error::MdnsSystemError { code, message: description.to_owned() }),
            ),
            _ => BrowserStep::Done,
        }
    }

    /// Says how to resolve a new instance.
    pub fn handle_browser_new(
        &self,
        interface: i32,
        protocol: i32,
        name: &str,
        kind: &str,
        domain: &str,
    ) -> (r: Result<ManagedAvahiServiceResolverParams, Error>)
        ensures
            match (r, self@.discovered(interface, protocol, name@, kind@, domain@)) {
                (Ok(params), Ok(wanted)) => params@ == wanted,
                (Err(e), Err(wanted)) => e@ == wanted,
                _ => false,
            },
    {
        if !self.has_client {
            return Err(Error::BrowserError("expected initialized client".to_owned()));
        }
        Ok(
            ManagedAvahiServiceResolverParams {
                interface,
                protocol,
                name: name.to_owned(),
                kind: kind.to_owned(),
                domain: domain.to_owned(),
                aprotocol: AVAHI_PROTO_UNSPEC,
                flags: 0,
            },
        )
    }

    /// Takes an event of the native browser. `code` is the client's last
    /// error code, looked at only where the event is a failure.
    pub fn browse_callback(
        &self,
        event: AvahiBrowserEvent,
        interface: i32,
        protocol: i32,
        name: &str,
        kind: &str,
        domain: &str,
        code: i32,
    ) -> (step: BrowserStep)
        ensures
            step@ == self@.browsed(event, interface, protocol, name@, kind@, domain@, code),
    {
        match event {
            AvahiBrowserEvent::New => {
                match self.handle_browser_new(interface, protocol, name, kind, domain) {
                    Ok(params) => BrowserStep::Run(BrowserCommand::CreateResolver(params)),
                    Err(e) => BrowserStep::Notify(Err(e)),
                }
            },
            AvahiBrowserEvent::Failure => BrowserStep::Notify(
                Err(Error::MdnsSystemError { code, message: "browser failure".to_owned() }),
            ),
            AvahiBrowserEvent::Remove => BrowserStep::Notify(
                handle_browser_remove(name, kind, domain),
            ),
            _ => BrowserStep::Done,
        }
    }

    /// Takes the result of creating a native resolver: the resolver joins
    /// the resolvers in flight under its native handle `raw`. Where none
    /// could be created the user is told, with the client's last error code
    /// `code`, and the set stays as it is.
    pub fn resolver_created(&mut self, raw: usize, resolver: Option<R>, code: i32) -> (step:
        BrowserStep)
        ensures
            match resolver {
                Some(r) => step@ == BrowserStepView::Done && final(self)@ == (
                AvahiBrowserContextView {
                    resolvers: old(self)@.resolvers.insert(raw, r),
                    ..old(self)@
                }),
                None => final(self)@ == old(self)@ && step@ == BrowserStepView::Notify(
                    Err(
                        ErrorView::MdnsSystemError {
                            code: code as int,
                            message: "could not initialize AvahiServiceResolver"@,
                        },
                    ),
                ),
            },
    {
        match resolver {
            Some(r) => {
                self.resolvers.insert(raw, r);
                BrowserStep::Done
            },
            None => BrowserStep::Notify(
                Err(
                    Error::MdnsSystemError {
                        code,
                        message: "could not initialize AvahiServiceResolver".to_owned(),
                    },
                ),
            ),
        }
    }

    /// Takes what the callback of the resolver with the native handle
    /// `resolver` reports for the instance `name` of type `kind` in `domain`.
    /// `code` is the client's last error code, looked at only where the
    /// instance could not be resolved.
    ///
    /// A resolved instance and a failure go to the user; any other event
    /// does not. Whatever is reported, the resolver is done: it leaves the
    /// resolvers in flight, and is dropped.
    pub fn resolve_callback(
        &mut self,
        resolver: usize,
        event: AvahiResolverEvent,
        name: &str,
        kind: &str,
        domain: &str,
        code: i32,
    ) -> (step: BrowserStep)
        ensures
            step@ == resolved_step(event@, name@, kind@, domain@, code),
            final(self)@ == (AvahiBrowserContextView {
                resolvers: old(self)@.resolvers.remove(resolver),
                ..old(self)@
            }),
            !final(self)@.resolvers.contains_key(resolver),
    {
        let step = match event {
            AvahiResolverEvent::Failure => {
                let mut message = "failed to resolve service `".to_owned();
                message.append(name);
                message.append("` of type `");
                message.append(kind);
                message.append("` in domain `");
                message.append(domain);
                message.append("`");
                BrowserStep::Notify(Err(Error::MdnsSystemError { code, message }))
            },
            AvahiResolverEvent::Found { host_name, address, port, txt } => BrowserStep::Notify(
                handle_resolver_found(host_name, address, name, kind, domain, port, txt),
            ),
            AvahiResolverEvent::Other => BrowserStep::Done,
        };
        self.resolvers.remove_raw(resolver);
        step
    }
}

/// A browser for Avahi: what to browse for, and the state of the browsing.
#[derive(Debug)]
pub struct AvahiMdnsBrowser<R> {
    context: AvahiBrowserContext<R>,
}

impl<R> View for AvahiMdnsBrowser<R> {
    type V = AvahiBrowserContextView<R>;

    closed spec fn view(&self) -> AvahiBrowserContextView<R> {
        self.context@
    }
}

impl<R> AvahiMdnsBrowser<R> {
    /// Creates a new browser that browses for the specified service type on
    /// all interfaces. Of several sub-types only the first is browsed for.
    pub fn new(service_type: ServiceType) -> (browser: Self)
        ensures
            browser@ == (AvahiBrowserContextView::<R> {
                resolvers: Map::empty(),
                interface_index: AVAHI_IF_UNSPEC,
                kind: browser_kind(service_type@),
                has_client: false,
                has_browser: false,
            }),
    {
        Self {
            context: AvahiBrowserContext::new(format_browser_type(&service_type), AVAHI_IF_UNSPEC),
        }
    }

    /// Sets the network interface on which to browse for services on.
    pub fn set_network_interface(&mut self, interface: NetworkInterface)
        ensures
            final(self)@ == (AvahiBrowserContextView {
                interface_index: interface_index_spec(interface) as i32,
                ..old(self)@
            }),
    {
        self.context.interface_index = interface_index(interface);
    }

    /// Returns the network interface on which to browse for services on.
    pub fn network_interface(&self) -> (interface: NetworkInterface)
        ensures
            interface == interface_from_index_spec(self@.interface_index),
    {
        interface_from_index(self.context.interface_index)
    }

    /// Starts the browser, once the native client has been created: says to
    /// create the native browser.
    pub fn browse_services(&mut self) -> (step: BrowserStep)
        ensures
            final(self)@ == (AvahiBrowserContextView { has_client: true, ..old(self)@ }),
            step@ == final(self)@.browsing(),
    {
        self.context.client_created();
        self.context.create_browser()
    }

    /// Takes the result of creating the native browser; see
    /// [`AvahiBrowserContext::browser_created`].
    pub fn browser_created(&mut self, created: bool, code: i32) -> (step: BrowserStep)
        ensures
            created ==> step@ == BrowserStepView::Done && final(self)@ == (AvahiBrowserContextView {
                has_browser: true,
                ..old(self)@
            }),
            !created ==> final(self)@ == old(self)@ && step@ == BrowserStepView::Notify(
                Err(
                    ErrorView::MdnsSystemError {
                        code: code as int,
                        message: "could not initialize Avahi service browser"@,
                    },
                ),
            ),
    {
        self.context.browser_created(created, code)
    }

    /// Takes a change of the client's state; see
    /// [`AvahiBrowserContext::client_callback`].
    pub fn client_callback(&self, state: ClientState, code: i32, description: &str) -> (step:
        BrowserStep)
        ensures
            state == ClientState::Failure ==> step@ == BrowserStepView::Notify(
                Err(ErrorView::MdnsSystemError { code: code as int, message: description@ }),
            ),
            state != ClientState::Failure ==> step@ == BrowserStepView::Done,
    {
        self.context.client_callback(state, code, description)
    }

    /// Takes an event of the native browser; see
    /// [`AvahiBrowserContext::browse_callback`].
    pub fn browse_callback(
        &self,
        event: AvahiBrowserEvent,
        interface: i32,
        protocol: i32,
        name: &str,
        kind: &str,
        domain: &str,
        code: i32,
    ) -> (step: BrowserStep)
        ensures
            step@ == self@.browsed(event, interface, protocol, name@, kind@, domain@, code),
    {
        self.context.browse_callback(event, interface, protocol, name, kind, domain, code)
    }

    /// Takes the result of creating a native resolver; see
    /// [`AvahiBrowserContext::resolver_created`].
    pub fn resolver_created(&mut self, raw: usize, resolver: Option<R>, code: i32) -> (step:
        BrowserStep)
        ensures
            match resolver {
                Some(r) => step@ == BrowserStepView::Done && final(self)@ == (
                AvahiBrowserContextView {
                    resolvers: old(self)@.resolvers.insert(raw, r),
                    ..old(self)@
                }),
                None => final(self)@ == old(self)@ && step@ == BrowserStepView::Notify(
                    Err(
                        ErrorView::MdnsSystemError {
                            code: code as int,
                            message: "could not initialize AvahiServiceResolver"@,
                        },
                    ),
                ),
            },
    {
        self.context.resolver_created(raw, resolver, code)
    }

    /// Takes what the callback of a resolver reports; see
    /// [`AvahiBrowserContext::resolve_callback`].
    pub fn resolve_callback(
        &mut self,
        resolver: usize,
        event: AvahiResolverEvent,
        name: &str,
        kind: &str,
        domain: &str,
        code: i32,
    ) -> (step: BrowserStep)
        ensures
            step@ == resolved_step(event@, name@, kind@, domain@, code),
            final(self)@ == (AvahiBrowserContextView {
                resolvers: old(self)@.resolvers.remove(resolver),
                ..old(self)@
            }),
            !final(self)@.resolvers.contains_key(resolver),
    {
        self.context.resolve_callback(resolver, event, name, kind, domain, code)
    }

    /// The number of resolvers in flight.
    pub fn resolvers_in_flight(&self) -> (n: usize)
        ensures
            n == self@.resolvers.len(),
    {
        self.context.resolvers_in_flight()
    }
}

/// A resolver reports what the daemon announced.
///
/// Let a resolver report an instance of the valid service type
/// `service_type`, written `_name._protocol` as Avahi writes it. Then the
/// user is told of the discovery of exactly that: the name, the service type
/// without sub-types, the domain, the host name, the address, the port and
/// the TXT record as reported.
pub proof fn lemma_found_reports_what_was_announced(
    service_type: ServiceTypeView,
    host_name: Seq<char>,
    address: Seq<char>,
    name: Seq<char>,
    domain: Seq<char>,
    port: u16,
    txt: Option<Seq<Pair>>,
    code: i32,
)
    requires
        service_type.is_valid(),
    ensures
        resolved_event(
            AvahiResolverEventView::Found { host_name, address, port, txt },
            name,
            service_kind(service_type),
            domain,
            code,
        ) == Some(
            Ok::<BrowserEventView, ErrorView>(
                BrowserEventView::Add(
                    ServiceDiscoveryView {
                        name,
                        service_type: ServiceTypeView {
                            name: service_type.name,
                            protocol: service_type.protocol,
                            sub_types: Seq::empty(),
                        },
                        domain,
                        host_name,
                        address,
                        port,
                        txt,
                    },
                ),
            ),
        ),
{
    lemma_parse_service_kind(service_type);
}

} // verus!
