//! What is handed to `avahi_service_browser_new`, as plain values.

use vstd::prelude::*;

verus! {

/// Holds parameters for `avahi_service_browser_new`. A domain of `None`
/// leaves the choice of domain to the daemon.
#[derive(Debug, PartialEq, Eq)]
pub struct ManagedAvahiServiceBrowserParams {
    pub interface: i32,
    pub protocol: i32,
    pub kind: String,
    pub domain: Option<String>,
    pub flags: u32,
}

/// What a [`ManagedAvahiServiceBrowserParams`] holds.
pub struct ManagedAvahiServiceBrowserParamsView {
    pub interface: i32,
    pub protocol: i32,
    pub kind: Seq<char>,
    pub domain: Option<Seq<char>>,
    pub flags: u32,
}

impl View for ManagedAvahiServiceBrowserParams {
    type V = ManagedAvahiServiceBrowserParamsView;

    open spec fn view(&self) -> ManagedAvahiServiceBrowserParamsView {
        ManagedAvahiServiceBrowserParamsView {
            interface: self.interface,
            protocol: self.protocol,
            kind: self.kind@,
            domain: self.domain.deep_view(),
            flags: self.flags,
        }
    }
}

} // verus!
