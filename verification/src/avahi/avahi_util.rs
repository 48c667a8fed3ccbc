//! Utilities related to Avahi

use crate::error::{Error, ErrorView};
use crate::interface::NetworkInterface;
use crate::service_type::{ServiceType, ServiceTypeView};
use crate::service_type::{lemma_parse_pair, strip_all};
use crate::text::{lemma_split_whole, result_view, split};
use vstd::prelude::*;
use vstd::string::StringExecFns;

verus! {

/// Avahi's "any interface" index.
pub const AVAHI_IF_UNSPEC: i32 = -1;

/// Avahi's "any protocol" value.
pub const AVAHI_PROTO_UNSPEC: i32 = -1;

/// The value of a `u32` reinterpreted as a two's-complement `i32`.
pub open spec fn as_signed(i: u32) -> int {
    if i <= 0x7fff_ffff {
        i as int
    } else {
        i as int - 0x1_0000_0000
    }
}

/// The value of an `i32` reinterpreted as a `u32`.
pub open spec fn as_unsigned(i: i32) -> int {
    if i >= 0 {
        i as int
    } else {
        i as int + 0x1_0000_0000
    }
}

/// The Avahi index that stands for `interface`.
pub open spec fn interface_index_spec(interface: NetworkInterface) -> int {
    match interface {
        NetworkInterface::Unspec => AVAHI_IF_UNSPEC as int,
        NetworkInterface::AtIndex(i) => as_signed(i),
    }
}

/// The interface that the Avahi index `index` stands for.
pub open spec fn interface_from_index_spec(index: i32) -> NetworkInterface {
    if index == AVAHI_IF_UNSPEC {
        NetworkInterface::Unspec
    } else {
        NetworkInterface::AtIndex(as_unsigned(index) as u32)
    }
}

/// `_name._protocol`, the way Avahi writes a service type.
pub open spec fn service_kind(service_type: ServiceTypeView) -> Seq<char> {
    seq!['_'] + service_type.name + seq!['.', '_'] + service_type.protocol
}

/// `_sub._sub.kind`, the way Avahi writes a sub-type of `kind`. A sub-type
/// that already starts with an underscore gets no second one.
pub open spec fn sub_kind(sub_type: Seq<char>, kind: Seq<char>) -> Seq<char> {
    (if sub_type.len() > 0 && sub_type[0] == '_' {
        Seq::<char>::empty()
    } else {
        seq!['_']
    }) + sub_type + "._sub."@ + kind
}

/// The type to browse for: the plain kind, or the kind narrowed to the
/// first sub-type where there is one. Avahi browses one sub-type at most.
pub open spec fn browser_kind(service_type: ServiceTypeView) -> Seq<char> {
    if service_type.sub_types.len() == 0 {
        service_kind(service_type)
    } else {
        sub_kind(service_type.sub_types[0], service_kind(service_type))
    }
}

/// The error for a native call that returned the negative `code`:
/// what was attempted, then Avahi's own description in backquotes.
pub open spec fn native_error_spec(message: Seq<char>, code: int, description: Seq<char>) -> ErrorView {
    ErrorView::MdnsSystemError { code, message: message + ": `"@ + description + "`"@ }
}

/// Converts the specified [`NetworkInterface`] to the Avahi expected value.
pub fn interface_index(interface: NetworkInterface) -> (index: i32)
    ensures
        index == interface_index_spec(interface),
{
    match interface {
        NetworkInterface::Unspec => AVAHI_IF_UNSPEC,
        NetworkInterface::AtIndex(i) => {
            if i <= 0x7fff_ffff {
                i as i32
            } else {
                ((i - 0x8000_0000) as i32) + i32::MIN
            }
        },
    }
}

/// Converts the specified Avahi interface index to a [`NetworkInterface`].
pub fn interface_from_index(index: i32) -> (interface: NetworkInterface)
    ensures
        interface == interface_from_index_spec(index),
{
    if index == AVAHI_IF_UNSPEC {
        NetworkInterface::Unspec
    } else if index >= 0 {
        NetworkInterface::AtIndex(index as u32)
    } else {
        NetworkInterface::AtIndex(((index - i32::MIN) as u32) + 0x8000_0000)
    }
}

/// Every interface but the one at index `u32::MAX`, whose Avahi index is the
/// one that means "unspecified", comes back from its Avahi index.
pub proof fn lemma_interface_round_trip(interface: NetworkInterface)
    requires
        interface != NetworkInterface::AtIndex(u32::MAX),
    ensures
        interface_from_index_spec(interface_index_spec(interface) as i32) == interface,
{
}

/// The error for a native call that returned the negative `code`, given
/// Avahi's description of that code.
pub fn native_error(message: &str, code: i32, description: &str) -> (error: Error)
    ensures
        error@ == native_error_spec(message@, code as int, description@),
{
    let mut text = message.to_owned();
    text.append(": `");
    text.append(description);
    text.append("`");
    Error::MdnsSystemError { code, message: text }
}

/// Executes the specified closure and returns a formatted `Result`.
///
/// `func` makes the native call and hands back its return code. A code
/// below zero is a failure: `describe` is then asked for Avahi's description
/// of the code, and the error carries the code, `message` and that
/// description. `describe` is not called otherwise.
pub fn sys_exec<F: FnOnce() -> i32, D: FnOnce(i32) -> String>(
    func: F,
    message: &str,
    describe: D,
) -> (r: Result<(), Error>)
    requires
        func.requires(()),
        forall|code: i32| code < 0 ==> describe.requires((code,)),
    ensures
        exists|code: i32| #[trigger]
            func.ensures((), code) && {
                if code < 0 {
                    exists|description: String| #[trigger]
                        describe.ensures((code,), description) && result_view(r) == Err::<
                            (),
                            ErrorView,
                        >(native_error_spec(message@, code as int, description@))
                } else {
                    r is Ok
                }
            },
{
    let err = func();
    if err < 0 {
        let description = describe(err);
        Err(native_error(message, err, description.as_str()))
    } else {
        Ok(())
    }
}

/// Parsing what [`format_service_type`] writes for a valid service type
/// gives back its name and protocol, without sub-types, which Avahi's way of
/// writing a service type leaves out. For a service type that has no
/// sub-types, that is the service type itself.
pub proof fn lemma_parse_service_kind(service_type: ServiceTypeView)
    requires
        service_type.is_valid(),
    ensures
        ServiceTypeView::parsed(service_kind(service_type)) == Ok::<ServiceTypeView, ErrorView>(
            ServiceTypeView {
                name: service_type.name,
                protocol: service_type.protocol,
                sub_types: Seq::empty(),
            },
        ),
        service_type.sub_types.len() == 0 ==> ServiceTypeView::parsed(service_kind(service_type))
            == Ok::<ServiceTypeView, ErrorView>(service_type),
{
    let kind = service_kind(service_type);
    lemma_parse_pair(service_type.name, service_type.protocol);
    lemma_split_whole(kind, ',');
    let types = split(kind, ',');
    assert(types.skip(1) =~= Seq::<Seq<char>>::empty());
    assert(strip_all(types.skip(1)) =~= Seq::<Seq<char>>::empty());
    let plain = ServiceTypeView {
        name: service_type.name,
        protocol: service_type.protocol,
        sub_types: Seq::empty(),
    };
    assert(plain.checked() == Ok::<ServiceTypeView, ErrorView>(plain));
    if service_type.sub_types.len() == 0 {
        assert(service_type.sub_types =~= Seq::<Seq<char>>::empty());
    }
}

/// Formats the specified `ServiceType` as a `String` for use with Avahi
pub fn format_service_type(service_type: &ServiceType) -> (kind: String)
    ensures
        kind@ == service_kind(service_type@),
{
    let mut kind = String::new();
    kind.push('_');
    kind.append(service_type.name().as_str());
    kind.push('.');
    kind.push('_');
    kind.append(service_type.protocol().as_str());
    assert(kind@ =~= service_kind(service_type@));
    kind
}

/// Formats the specified `ServiceType` as a `String` for browsing Avahi services
pub fn format_browser_type(service_type: &ServiceType) -> (kind: String)
    ensures
        kind@ == browser_kind(service_type@),
{
    let kind = format_service_type(service_type);
    let sub_types = service_type.sub_types();
    if sub_types.len() == 0 {
        return kind;
    }
    assert(sub_types.deep_view()[0] == sub_types[0]@);
    format_sub_type(sub_types[0].as_str(), kind.as_str())
}

/// Formats the specified `sub_type` string as a `String` for use with Avahi
pub fn format_sub_type(sub_type: &str, kind: &str) -> (formatted: String)
    ensures
        formatted@ == sub_kind(sub_type@, kind@),
{
    let mut formatted = String::new();
    if !(sub_type.unicode_len() > 0 && sub_type.get_char(0) == '_') {
        formatted.push('_');
    }
    formatted.append(sub_type);
    formatted.append("._sub.");
    formatted.append(kind);
    assert(formatted@ =~= sub_kind(sub_type@, kind@));
    formatted
}

} // verus!
