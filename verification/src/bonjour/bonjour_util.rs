//! Utilities related to Bonjour

use crate::error::{Error, ErrorView};
use crate::interface::NetworkInterface;
use crate::service_type::{lemma_parse_formatted, underscored, ServiceType, ServiceTypeView};
use crate::text::{chars_of, decimal, join, result_view, string_of_range};
use vstd::prelude::*;
use vstd::string::StringExecFns;

verus! {

/// Bonjour's "any interface" index.
pub const BONJOUR_IF_UNSPEC: u32 = 0;

/// Flags for registering a service: let Bonjour pick another name when the
/// wanted one is taken.
pub const BONJOUR_RENAME_FLAGS: u32 = 0;

/// `domain` without its final dot, if it ends in one.
pub open spec fn normalized(domain: Seq<char>) -> Seq<char> {
    if domain.len() > 0 && domain.last() == '.' {
        domain.drop_last()
    } else {
        domain
    }
}

/// The Bonjour index that stands for `interface`.
pub open spec fn interface_index_spec(interface: NetworkInterface) -> u32 {
    match interface {
        NetworkInterface::Unspec => BONJOUR_IF_UNSPEC,
        NetworkInterface::AtIndex(i) => i,
    }
}

/// The interface that the Bonjour index `index` stands for.
pub open spec fn interface_from_index_spec(index: u32) -> NetworkInterface {
    if index == BONJOUR_IF_UNSPEC {
        NetworkInterface::Unspec
    } else {
        NetworkInterface::AtIndex(index)
    }
}

/// The error for a native call that returned the negative `code`: the
/// code, and what was attempted as the message. Its text is the message
/// followed by the code in brackets.
pub open spec fn native_error_spec(message: Seq<char>, code: int) -> ErrorView {
    ErrorView::MdnsSystemError { code, message }
}

/// The text of an error of the native library: `message (code: N)`.
pub open spec fn native_error_text(message: Seq<char>, code: int) -> Seq<char> {
    message + " (code: "@ + decimal(code) + ")"@
}

/// `_name._protocol,_sub1,_sub2`, the way Bonjour writes a service type
/// with its sub-types.
pub open spec fn regtype(service_type: ServiceTypeView) -> Seq<char> {
    service_type.formatted()
}

/// What parsing `text` as a Bonjour registration type gives: what parsing
/// it as a service type with sub-types gives.
pub open spec fn parsed_regtype(text: Seq<char>) -> Result<ServiceTypeView, ErrorView> {
    ServiceTypeView::parsed(text)
}

/// Normalizes the specified domain `&str` to conform to a standard enforced by this crate.
///
/// Bonjour suffixes domains with a final `'.'` character in some contexts but is not required by
/// the standard. This function removes the final dot if present.
pub fn normalize_domain(domain: &str) -> (normal: String)
    ensures
        normal@ == normalized(domain@),
{
    let chars = chars_of(domain);
    let len = chars.len();
    if len > 0 && chars[len - 1] == '.' {
        let normal = string_of_range(&chars, 0, len - 1);
        assert(chars@.subrange(0, len - 1) =~= domain@.drop_last());
        normal
    } else {
        domain.to_owned()
    }
}

/// Converts the specified [`NetworkInterface`] to the Bonjour expected value.
pub fn interface_index(interface: NetworkInterface) -> (index: u32)
    ensures
        index == interface_index_spec(interface),
{
    match interface {
        NetworkInterface::Unspec => BONJOUR_IF_UNSPEC,
        NetworkInterface::AtIndex(i) => i,
    }
}

/// Converts the specified Bonjour interface index to a [`NetworkInterface`].
pub fn interface_from_index(index: u32) -> (interface: NetworkInterface)
    ensures
        interface == interface_from_index_spec(index),
{
    if index == BONJOUR_IF_UNSPEC {
        NetworkInterface::Unspec
    } else {
        NetworkInterface::AtIndex(index)
    }
}

/// Every interface but the one at index 0, which Bonjour reads as
/// "unspecified", comes back from its Bonjour index.
pub proof fn lemma_interface_round_trip(interface: NetworkInterface)
    requires
        interface != NetworkInterface::AtIndex(0),
    ensures
        interface_from_index_spec(interface_index_spec(interface)) == interface,
{
}

/// The error for a native call that returned the negative `code`.
pub fn native_error(message: &str, code: i32) -> (error: Error)
    ensures
        error@ == native_error_spec(message@, code as int),
        error@.rendered() == native_error_text(message@, code as int),
{
    Error::MdnsSystemError { code, message: message.to_owned() }
}

/// Executes the specified closure and returns a formatted `Result`.
///
/// `func` makes the native call and hands back its return code. A code
/// below zero is a failure, reported with `message` and the code; the text
/// of the error is `message (code: N)`.
pub fn sys_exec<F: FnOnce() -> i32>(func: F, message: &str) -> (r: Result<(), Error>)
    requires
        func.requires(()),
    ensures
        exists|code: i32| #[trigger]
            func.ensures((), code) && {
                if code < 0 {
                    &&& result_view(r) == Err::<(), ErrorView>(
                        native_error_spec(message@, code as int),
                    )
                    &&& r->Err_0@.rendered() == native_error_text(message@, code as int)
                } else {
                    r is Ok
                }
            },
{
    let err = func();
    if err < 0 {
        Err(native_error(message, err))
    } else {
        Ok(())
    }
}

/// Formats the specified `ServiceType` as a `String` for use with Bonjour
pub fn format_regtype(service_type: &ServiceType) -> (formatted: String)
    ensures
        formatted@ == regtype(service_type@),
{
    let mut formatted = String::new();
    formatted.push('_');
    formatted.append(service_type.name().as_str());
    formatted.push('.');
    formatted.push('_');
    formatted.append(service_type.protocol().as_str());
    let sub_types = service_type.sub_types();
    let ghost head = seq!['_'] + service_type@.name + seq!['.', '_'] + service_type@.protocol;
    let ghost subs = underscored(service_type@.sub_types);
    assert(formatted@ =~= head);
    let mut i: usize = 0;
    while i < sub_types.len()
        invariant
            i <= sub_types.len(),
            sub_types.deep_view() == service_type@.sub_types,
            subs == underscored(service_type@.sub_types),
            formatted@ == join(seq![head] + subs.take(i as int), ','),
        decreases sub_types.len() - i,
    {
        let ghost before = formatted@;
        formatted.push(',');
        formatted.push('_');
        formatted.append(sub_types[i].as_str());
        proof {
            assert(sub_types.deep_view()[i as int] == sub_types[i as int]@);
            let piece = subs[i as int];
            assert(formatted@ =~= before + seq![','] + piece);
            lemma_join_push(seq![head] + subs.take(i as int), piece, ',');
            assert((seq![head] + subs.take(i as int)).push(piece) =~= seq![head] + subs.take(i + 1));
        }
        i = i + 1;
    }
    assert(subs.take(i as int) =~= subs);
    formatted
}

/// Joining one more piece appends the separator and the piece.
pub proof fn lemma_join_push(parts: Seq<Seq<char>>, piece: Seq<char>, sep: char)
    requires
        parts.len() > 0,
    ensures
        join(parts.push(piece), sep) == join(parts, sep) + seq![sep] + piece,
    decreases parts.len(),
{
    let all = parts.push(piece);
    if parts.len() == 1 {
        reveal_with_fuel(join, 3);
        assert(all.drop_first() =~= seq![piece]);
        assert(join(all.drop_first(), sep) == piece);
        assert(join(all, sep) =~= parts[0] + seq![sep] + piece);
    } else {
        let rest = parts.drop_first();
        lemma_join_push(rest, piece, sep);
        assert(all.drop_first() =~= rest.push(piece));
        assert(join(all, sep) =~= join(parts, sep) + seq![sep] + piece);
    }
}

/// Parsing what [`format_regtype`] writes for a valid service type, with
/// [`parse_regtype`] or with `ServiceType::from_str`, gives the service type
/// back, sub-types included.
pub proof fn lemma_parse_formatted_regtype(service_type: ServiceTypeView)
    requires
        service_type.is_valid(),
    ensures
        parsed_regtype(regtype(service_type)) == Ok::<ServiceTypeView, ErrorView>(service_type),
        ServiceTypeView::parsed(regtype(service_type)) == Ok::<ServiceTypeView, ErrorView>(
            service_type,
        ),
{
    lemma_parse_formatted(service_type);
}

/// Parses the specified `&str` into a `ServiceType`
pub fn parse_regtype(regtype: &str) -> (r: Result<ServiceType, Error>)
    ensures
        result_view(r) == parsed_regtype(regtype@),
        r matches Ok(service_type) ==> service_type.is_valid(),
{
    ServiceType::from_str(regtype)
}

} // verus!
