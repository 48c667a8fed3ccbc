//! What is handed to the native `DNSService*` calls, as plain values.
//!
//! Each struct here lists the arguments of one native call. The caller turns
//! them into C values, adds its callback and context pointer, and makes the
//! call.

use vstd::prelude::*;

verus! {

/// `kDNSServiceFlagsForceMulticast`: answer over multicast DNS even for
/// names that unicast DNS would normally answer.
pub const DNS_SERVICE_FLAGS_FORCE_MULTICAST: u32 = 0x400;

/// Holds parameters for `DNSServiceRegister`. The port is in host byte order.
#[derive(Debug, PartialEq, Eq)]
pub struct RegisterServiceParams {
    pub flags: u32,
    pub interface_index: u32,
    pub name: Option<String>,
    pub regtype: String,
    pub domain: Option<String>,
    pub host: Option<String>,
    pub port: u16,
    pub txt_record: Option<crate::txt_record::TxtRecord>,
}

/// Holds parameters for `DNSServiceBrowse`.
#[derive(Debug, PartialEq, Eq)]
pub struct BrowseServicesParams {
    pub flags: u32,
    pub interface_index: u32,
    pub regtype: String,
    pub domain: Option<String>,
}

/// Holds parameters for `DNSServiceResolve`.
#[derive(Debug, PartialEq, Eq)]
pub struct ServiceResolveParams {
    pub flags: u32,
    pub interface_index: u32,
    pub name: String,
    pub regtype: String,
    pub domain: String,
}

/// Holds parameters for `DNSServiceGetAddrInfo`.
#[derive(Debug, PartialEq, Eq)]
pub struct GetAddressInfoParams {
    pub flags: u32,
    pub interface_index: u32,
    pub protocol: u32,
    pub hostname: String,
}

/// The port number whose two bytes, most significant first, are `wire`.
pub open spec fn network_order_port(wire: Seq<u8>) -> u16 {
    (wire[0] as int * 256 + wire[1] as int) as u16
}

/// The two bytes of `port`, most significant first.
pub open spec fn port_wire(port: u16) -> Seq<u8> {
    seq![(port / 256) as u8, (port % 256) as u8]
}

/// A port comes back from its two bytes.
pub proof fn lemma_port_round_trip(port: u16)
    ensures
        network_order_port(port_wire(port)) == port,
{
}

/// The port number whose two bytes, most significant first, are `wire`.
/// This is how a port travels in a native callback's arguments.
pub fn port_from_network_order(wire: [u8; 2]) -> (port: u16)
    ensures
        port == network_order_port(wire@),
        port == wire[0] as int * 256 + wire[1] as int,
{
    (wire[0] as u16) * 256 + (wire[1] as u16)
}

/// The two bytes of `port`, most significant first.
pub fn port_to_network_order(port: u16) -> (wire: [u8; 2])
    ensures
        wire@ == port_wire(port),
        wire[0] as int * 256 + wire[1] as int == port,
{
    let wire = [(port / 256) as u8, (port % 256) as u8];
    assert(wire@ =~= port_wire(port));
    wire
}

} // verus!
