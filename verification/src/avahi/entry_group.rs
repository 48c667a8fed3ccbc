//! What is handed to the native entry-group calls, as plain values.
//!
//! An entry group is Avahi's unit of publication: records are added to it
//! one by one and become visible together when the group is committed. Each
//! struct here lists the arguments of one native call; the caller turns them
//! into C values and makes the call.

use crate::txt_record::{Pair, TxtRecord};
use vstd::prelude::*;

verus! {

/// Holds parameters for `avahi_entry_group_add_service_strlst`.
#[derive(Debug, PartialEq, Eq)]
pub struct AddServiceParams {
    pub interface: i32,
    pub protocol: i32,
    pub flags: u32,
    pub name: String,
    pub kind: String,
    pub domain: Option<String>,
    pub host: Option<String>,
    pub port: u16,
    pub txt: Option<TxtRecord>,
}

/// What an [`AddServiceParams`] holds.
pub struct AddServiceParamsView {
    pub interface: i32,
    pub protocol: i32,
    pub flags: u32,
    pub name: Seq<char>,
    pub kind: Seq<char>,
    pub domain: Option<Seq<char>>,
    pub host: Option<Seq<char>>,
    pub port: u16,
    pub txt: Option<Seq<Pair>>,
}

impl View for AddServiceParams {
    type V = AddServiceParamsView;

    open spec fn view(&self) -> AddServiceParamsView {
        AddServiceParamsView {
            interface: self.interface,
            protocol: self.protocol,
            flags: self.flags,
            name: self.name@,
            kind: self.kind@,
            domain: self.domain.deep_view(),
            host: self.host.deep_view(),
            port: self.port,
            txt: self.txt.deep_view(),
        }
    }
}

/// Holds parameters for `avahi_entry_group_add_service_subtype`.
#[derive(Debug, PartialEq, Eq)]
pub struct AddServiceSubtypeParams {
    pub interface: i32,
    pub protocol: i32,
    pub flags: u32,
    pub name: String,
    pub kind: String,
    pub domain: Option<String>,
    pub subtype: String,
}

/// What an [`AddServiceSubtypeParams`] holds.
pub struct AddServiceSubtypeParamsView {
    pub interface: i32,
    pub protocol: i32,
    pub flags: u32,
    pub name: Seq<char>,
    pub kind: Seq<char>,
    pub domain: Option<Seq<char>>,
    pub subtype: Seq<char>,
}

impl View for AddServiceSubtypeParams {
    type V = AddServiceSubtypeParamsView;

    open spec fn view(&self) -> AddServiceSubtypeParamsView {
        AddServiceSubtypeParamsView {
            interface: self.interface,
            protocol: self.protocol,
            flags: self.flags,
            name: self.name@,
            kind: self.kind@,
            domain: self.domain.deep_view(),
            subtype: self.subtype@,
        }
    }
}

} // verus!
