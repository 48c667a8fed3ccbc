//! Data type for constructing a service type

use crate::error::{Error, ErrorView};
use crate::text::{
    contains_char, join, lemma_split_first, lemma_split_join, lemma_split_pieces,
    lemma_split_whole, result_view, split, split_str,
};
use std::str::FromStr;
use vstd::prelude::*;

verus! {

/// Data type for constructing a service type to register as an mDNS service.
#[derive(Debug, PartialEq, Eq)]
pub struct ServiceType {
    name: String,
    protocol: String,
    sub_types: Vec<String>,
}

/// What a [`ServiceType`] is: its name, its protocol and its sub-types, in order.
pub struct ServiceTypeView {
    pub name: Seq<char>,
    pub protocol: Seq<char>,
    pub sub_types: Seq<Seq<char>>,
}

impl View for ServiceType {
    type V = ServiceTypeView;

    closed spec fn view(&self) -> ServiceTypeView {
        ServiceTypeView {
            name: self.name@,
            protocol: self.protocol@,
            sub_types: self.sub_types.deep_view(),
        }
    }
}

impl Clone for ServiceType {
    fn clone(&self) -> (copy: Self)
        ensures
            copy@ == self@,
    {
        let sub_types = clone_strings(&self.sub_types);
        Self { name: self.name.clone(), protocol: self.protocol.clone(), sub_types }
    }
}

impl DeepView for ServiceType {
    type V = ServiceTypeView;

    open spec fn deep_view(&self) -> ServiceTypeView {
        self@
    }
}

/// A part of a service type (name, protocol or sub-type) is acceptable when
/// it is not empty and holds neither a dot nor a comma.
pub open spec fn valid_part(part: Seq<char>) -> bool {
    &&& !part.contains('.')
    &&& !part.contains(',')
    &&& part.len() > 0
}

/// The error that rejects `part`, where it is not a [`valid_part`]. A dot is
/// reported before a comma, and a comma before emptiness.
pub open spec fn part_error(part: Seq<char>) -> ErrorView {
    if part.contains('.') {
        ErrorView::InvalidServiceType("invalid character: ."@)
    } else if part.contains(',') {
        ErrorView::InvalidServiceType("invalid character: ,"@)
    } else {
        ErrorView::InvalidServiceType("cannot be empty"@)
    }
}

/// Index of the first part that is not valid, or `parts.len()` if all are.
pub open spec fn first_invalid(parts: Seq<Seq<char>>) -> int
    decreases parts.len(),
{
    if parts.len() == 0 {
        0
    } else if !valid_part(parts[0]) {
        0
    } else {
        1 + first_invalid(parts.drop_first())
    }
}

/// `s` without one leading underscore, if it has one.
pub open spec fn strip_underscore(s: Seq<char>) -> Seq<char> {
    if s.len() > 0 && s[0] == '_' {
        s.skip(1)
    } else {
        s
    }
}

/// Each of `parts` without one leading underscore.
pub open spec fn strip_all(parts: Seq<Seq<char>>) -> Seq<Seq<char>> {
    Seq::new(parts.len(), |i: int| strip_underscore(parts[i]))
}

impl ServiceTypeView {
    /// All three components are made of valid parts.
    pub open spec fn is_valid(self) -> bool {
        &&& valid_part(self.name)
        &&& valid_part(self.protocol)
        &&& forall|i: int| 0 <= i < self.sub_types.len() ==> valid_part(#[trigger] self.sub_types[i])
    }

    /// What constructing a service type from these components gives: the
    /// components themselves when all parts are valid, else the error of the
    /// first part that is not, looking at the name, then the protocol, then
    /// the sub-types in order.
    pub open spec fn checked(self) -> Result<ServiceTypeView, ErrorView> {
        if !valid_part(self.name) {
            Err(part_error(self.name))
        } else if !valid_part(self.protocol) {
            Err(part_error(self.protocol))
        } else if first_invalid(self.sub_types) < self.sub_types.len() {
            Err(part_error(self.sub_types[first_invalid(self.sub_types)]))
        } else {
            Ok(self)
        }
    }

    /// What parsing `s` as a `name.protocol` pair gives. The text must have
    /// exactly two dot-separated parts; each is validated as written, then
    /// loses one leading underscore, and is validated again by the
    /// constructor.
    pub open spec fn parsed_pair(s: Seq<char>) -> Result<ServiceTypeView, ErrorView> {
        let parts = split(s, '.');
        if parts.len() != 2 {
            Err(ErrorView::InvalidServiceType("invalid name and protocol"@))
        } else if !valid_part(parts[0]) {
            Err(part_error(parts[0]))
        } else if !valid_part(parts[1]) {
            Err(part_error(parts[1]))
        } else {
            (ServiceTypeView {
                name: strip_underscore(parts[0]),
                protocol: strip_underscore(parts[1]),
                sub_types: Seq::empty(),
            }).checked()
        }
    }

    /// What parsing `s` as a service type gives. The text is cut at commas.
    /// The first piece is parsed as a `name.protocol` pair; each further
    /// piece is a sub-type, which loses one leading underscore and must then
    /// be a valid part. The sub-types keep their order.
    pub open spec fn parsed(s: Seq<char>) -> Result<ServiceTypeView, ErrorView> {
        let types = split(s, ',');
        match Self::parsed_pair(types[0]) {
            Err(e) => Err(e),
            Ok(service_type) => {
                let sub_types = strip_all(types.skip(1));
                if first_invalid(sub_types) < sub_types.len() {
                    Err(part_error(sub_types[first_invalid(sub_types)]))
                } else {
                    (ServiceTypeView {
                        name: service_type.name,
                        protocol: service_type.protocol,
                        sub_types,
                    }).checked()
                }
            },
        }
    }

    /// The text of a service type with its sub-types:
    /// `_name._protocol,_sub1,_sub2`.
    pub open spec fn formatted(self) -> Seq<char> {
        join(
            seq![seq!['_'] + self.name + seq!['.', '_'] + self.protocol] + underscored(
                self.sub_types,
            ),
            ',',
        )
    }
}

/// Each of `parts` with an underscore in front.
pub open spec fn underscored(parts: Seq<Seq<char>>) -> Seq<Seq<char>> {
    Seq::new(parts.len(), |i: int| seq!['_'] + parts[i])
}

/// Putting an underscore in front of a valid part gives a valid part, from
/// which stripping one underscore gives the part back.
pub proof fn lemma_underscored_part(part: Seq<char>)
    requires
        valid_part(part),
    ensures
        valid_part(seq!['_'] + part),
        strip_underscore(seq!['_'] + part) == part,
{
    let u = seq!['_'] + part;
    if u.contains('.') {
        let k = choose|k: int| 0 <= k < u.len() && u[k] == '.';
        assert(part[k - 1] == '.');
    }
    if u.contains(',') {
        let k = choose|k: int| 0 <= k < u.len() && u[k] == ',';
        assert(part[k - 1] == ',');
    }
    assert(u.skip(1) =~= part);
}

/// `_name._protocol`, for a valid name and a valid protocol, holds no comma
/// and parses as the pair of that name and that protocol.
pub proof fn lemma_parse_pair(name: Seq<char>, protocol: Seq<char>)
    requires
        valid_part(name),
        valid_part(protocol),
    ensures
        !(seq!['_'] + name + seq!['.', '_'] + protocol).contains(','),
        ServiceTypeView::parsed_pair(seq!['_'] + name + seq!['.', '_'] + protocol) == Ok::<
            ServiceTypeView,
            ErrorView,
        >(ServiceTypeView { name, protocol, sub_types: Seq::empty() }),
{
    let a = seq!['_'] + name;
    let b = seq!['_'] + protocol;
    let text = seq!['_'] + name + seq!['.', '_'] + protocol;
    lemma_underscored_part(name);
    lemma_underscored_part(protocol);
    assert(text =~= a + seq!['.'] + b);
    lemma_split_first(a, '.', b);
    lemma_split_whole(b, '.');
    assert(split(text, '.') =~= seq![a, b]);
    let plain = ServiceTypeView { name, protocol, sub_types: Seq::empty() };
    assert(plain.checked() == Ok::<ServiceTypeView, ErrorView>(plain));
    if text.contains(',') {
        let k = choose|k: int| 0 <= k < text.len() && text[k] == ',';
        if k < a.len() {
            assert(a[k] == ',');
        } else if k > a.len() {
            assert(b[k - a.len() - 1] == ',');
        }
    }
}

/// Parsing the text of a valid service type gives the service type back,
/// sub-types included and in their order.
pub proof fn lemma_parse_formatted(service_type: ServiceTypeView)
    requires
        service_type.is_valid(),
    ensures
        ServiceTypeView::parsed(service_type.formatted()) == Ok::<ServiceTypeView, ErrorView>(
            service_type,
        ),
{
    let head = seq!['_'] + service_type.name + seq!['.', '_'] + service_type.protocol;
    let subs = service_type.sub_types;
    let pieces = seq![head] + underscored(subs);
    lemma_parse_pair(service_type.name, service_type.protocol);
    assert forall|i: int| 0 <= i < pieces.len() implies !(#[trigger] pieces[i]).contains(',') by {
        if i > 0 {
            assert(pieces[i] == seq!['_'] + subs[i - 1]);
            lemma_underscored_part(subs[i - 1]);
        }
    }
    lemma_split_join(pieces, ',');
    let types = split(service_type.formatted(), ',');
    assert(types == pieces);
    let stripped = strip_all(types.skip(1));
    assert(stripped =~= subs) by {
        assert(types.skip(1) =~= underscored(subs));
        assert forall|i: int| 0 <= i < subs.len() implies stripped[i] == subs[i] by {
            lemma_underscored_part(subs[i]);
        }
    }
    lemma_first_invalid(subs);
    let rebuilt = ServiceTypeView {
        name: service_type.name,
        protocol: service_type.protocol,
        sub_types: subs,
    };
    assert(rebuilt == service_type);
}

/// `first_invalid` stays within `0..=parts.len()`, points at an invalid part
/// when inside, and every part before it is valid.
pub proof fn lemma_first_invalid(parts: Seq<Seq<char>>)
    ensures
        0 <= first_invalid(parts) <= parts.len(),
        first_invalid(parts) < parts.len() ==> !valid_part(parts[first_invalid(parts)]),
        forall|j: int| 0 <= j < first_invalid(parts) ==> valid_part(#[trigger] parts[j]),
    decreases parts.len(),
{
    if parts.len() == 0 {
    } else if !valid_part(parts[0]) {
    } else {
        let rest = parts.drop_first();
        lemma_first_invalid(rest);
        assert forall|j: int| 0 <= j < first_invalid(parts) implies valid_part(#[trigger] parts[j]) by {
            if j > 0 {
                assert(parts[j] == rest[j - 1]);
            }
        }
    }
}

impl ServiceType {
    /// Whether this value is made of valid parts. Every value that [`ServiceType::new`],
    /// [`ServiceType::with_sub_types`] or [`ServiceType::from_str`] returns is.
    pub open spec fn is_valid(&self) -> bool {
        self@.is_valid()
    }

    /// Creates a new `ServiceType` with the specified name (e.g. `http`) and protocol (e.g. `tcp`)
    pub fn new(name: &str, protocol: &str) -> (r: Result<Self, Error>)
        ensures
            result_view(r) == (ServiceTypeView {
                name: name@,
                protocol: protocol@,
                sub_types: Seq::empty(),
            }).checked(),
            r matches Ok(service_type) ==> service_type.is_valid(),
    {
        let name = match check_valid_characters(name) {
            Ok(part) => part.to_owned(),
            Err(e) => {
                return Err(e);
            },
        };
        let protocol = match check_valid_characters(protocol) {
            Ok(part) => part.to_owned(),
            Err(e) => {
                return Err(e);
            },
        };
        let service_type = Self { name, protocol, sub_types: Vec::new() };
        assert(service_type.sub_types.deep_view() =~= Seq::<Seq<char>>::empty());
        Ok(service_type)
    }

    /// Creates a new `ServiceType` with the specified name (e.g. `http`) and protocol (e.g. `tcp`)
    /// and sub-types.
    pub fn with_sub_types(name: &str, protocol: &str, sub_types: Vec<&str>) -> (r: Result<
        Self,
        Error,
    >)
        ensures
            result_view(r) == (ServiceTypeView {
                name: name@,
                protocol: protocol@,
                sub_types: sub_types.deep_view(),
            }).checked(),
            r matches Ok(service_type) ==> service_type.is_valid(),
    {
        let owned_name = match check_valid_characters(name) {
            Ok(part) => part.to_owned(),
            Err(e) => {
                return Err(e);
            },
        };
        let owned_protocol = match check_valid_characters(protocol) {
            Ok(part) => part.to_owned(),
            Err(e) => {
                return Err(e);
            },
        };
        let ghost wanted = sub_types.deep_view();
        let mut checked: Vec<String> = Vec::new();
        let mut i: usize = 0;
        proof {
            lemma_first_invalid(wanted);
        }
        while i < sub_types.len()
            invariant
                i <= sub_types.len(),
                valid_part(name@),
                valid_part(protocol@),
                wanted == sub_types.deep_view(),
                checked.deep_view() == wanted.take(i as int),
                forall|j: int| 0 <= j < i ==> valid_part(#[trigger] wanted[j]),
                i <= first_invalid(wanted),
            decreases sub_types.len() - i,
        {
            let ghost before = checked.deep_view();
            proof {
                lemma_first_invalid(wanted);
                assert(wanted[i as int] == sub_types[i as int]@);
            }
            match check_valid_characters(sub_types[i]) {
                Ok(part) => {
                    checked.push(part.to_owned());
                },
                Err(e) => {
                    proof {
                        assert(!valid_part(wanted[i as int]));
                        assert(first_invalid(wanted) == i);
                        assert(e@ == part_error(wanted[i as int]));
                    }
                    return Err(e);
                },
            }
            proof {
                assert(checked.deep_view() =~= before.push(wanted[i as int]));
                assert(wanted.take(i + 1) =~= wanted.take(i as int).push(wanted[i as int]));
                if first_invalid(wanted) == i {
                    assert(!valid_part(wanted[i as int]));
                }
            }
            i = i + 1;
        }
        proof {
            lemma_first_invalid(wanted);
            assert(wanted.take(i as int) =~= wanted);
        }
        Ok(Self { name: owned_name, protocol: owned_protocol, sub_types: checked })
    }

    /// Parses a `name.protocol` pair, such as `_http._tcp`, into a
    /// `ServiceType` without sub-types.
    fn parse_pair(s: &str) -> (r: Result<Self, Error>)
        ensures
            result_view(r) == ServiceTypeView::parsed_pair(s@),
            r matches Ok(service_type) ==> service_type.is_valid(),
    {
        let parts = split_str(s, '.');
        if parts.len() != 2 {
            return Err(Error::InvalidServiceType("invalid name and protocol".to_owned()));
        }
        proof {
            assert(parts.deep_view()[0] == parts[0]@);
            assert(parts.deep_view()[1] == parts[1]@);
        }
        let name = match check_valid_characters(parts[0].as_str()) {
            Ok(part) => lstrip_underscore(part),
            Err(e) => {
                return Err(e);
            },
        };
        let protocol = match check_valid_characters(parts[1].as_str()) {
            Ok(part) => lstrip_underscore(part),
            Err(e) => {
                return Err(e);
            },
        };
        Self::new(name, protocol)
    }

    /// Parses a service type with its sub-types, such as `_http._tcp` or
    /// `_http._tcp,_printer`. Parsing what [`ServiceTypeView::formatted`]
    /// describes gives the service type back; see [`lemma_parse_formatted`].
    pub fn from_str(s: &str) -> (r: Result<Self, Error>)
        ensures
            result_view(r) == ServiceTypeView::parsed(s@),
            r matches Ok(service_type) ==> service_type.is_valid(),
    {
        let types = split_str(s, ',');
        proof {
            lemma_split_pieces(s@, ',');
            assert(types.deep_view()[0] == types[0]@);
        }
        let service_type = match Self::parse_pair(types[0].as_str()) {
            Ok(service_type) => service_type,
            Err(e) => {
                return Err(e);
            },
        };
        let ghost wanted = strip_all(types.deep_view().skip(1));
        let mut sub_types: Vec<&str> = Vec::new();
        let mut i: usize = 1;
        proof {
            lemma_first_invalid(wanted);
        }
        while i < types.len()
            invariant
                1 <= i <= types.len(),
                wanted == strip_all(types.deep_view().skip(1)),
                sub_types.deep_view() == wanted.take(i - 1),
                i - 1 <= first_invalid(wanted),
                result_view::<ServiceType, Error>(Ok(service_type)) == ServiceTypeView::parsed_pair(
                    types[0]@,
                ),
                types.deep_view() == split(s@, ','),
            decreases types.len() - i,
        {
            let ghost before = sub_types.deep_view();
            proof {
                lemma_first_invalid(wanted);
                assert(types.deep_view().skip(1)[i - 1] == types[i as int]@);
                assert(wanted[i - 1] == strip_underscore(types[i as int]@));
            }
            match check_valid_characters(lstrip_underscore(types[i].as_str())) {
                Ok(part) => {
                    sub_types.push(part);
                },
                Err(e) => {
                    proof {
                        assert(!valid_part(wanted[i - 1]));
                        assert(first_invalid(wanted) == i - 1);
                        assert(types.deep_view()[0] == types[0]@);
                    }
                    return Err(e);
                },
            }
            proof {
                assert(sub_types.deep_view() =~= before.push(wanted[i - 1]));
                assert(wanted.take(i as int) =~= wanted.take(i - 1).push(wanted[i - 1]));
            }
            i = i + 1;
        }
        proof {
            lemma_first_invalid(wanted);
            assert(wanted.take(i - 1) =~= wanted);
            assert(types.deep_view()[0] == types[0]@);
        }
        Self::with_sub_types(service_type.name.as_str(), service_type.protocol.as_str(), sub_types)
    }

    /// The name of the service type, such as `http`.
    pub fn name(&self) -> (name: &String)
        ensures
            name@ == self@.name,
    {
        &self.name
    }

    /// The protocol of the service type, such as `tcp`.
    pub fn protocol(&self) -> (protocol: &String)
        ensures
            protocol@ == self@.protocol,
    {
        &self.protocol
    }

    /// The sub-types of the service type, in the order given.
    pub fn sub_types(&self) -> (sub_types: &Vec<String>)
        ensures
            sub_types.deep_view() == self@.sub_types,
    {
        &self.sub_types
    }
}

impl FromStr for ServiceType {
    type Err = Error;

    /// Parses a service type with its sub-types as [`ServiceType::from_str`] does.
    fn from_str(s: &str) -> (r: Result<Self, Error>)
        ensures
            result_view(r) == ServiceTypeView::parsed(s@),
            r matches Ok(service_type) ==> service_type.is_valid(),
    {
        ServiceType::from_str(s)
    }
}

impl Default for ServiceType {
    /// The empty service type. It is not valid: it only serves as a blank to
    /// fill in.
    fn default() -> (service_type: Self)
        ensures
            service_type@ == (ServiceTypeView {
                name: Seq::empty(),
                protocol: Seq::empty(),
                sub_types: Seq::empty(),
            }),
    {
        let service_type = Self { name: String::new(), protocol: String::new(), sub_types: Vec::new() };
        assert(service_type.sub_types.deep_view() =~= Seq::<Seq<char>>::empty());
        service_type
    }
}

/// A copy of `strings`, text for text.
pub fn clone_strings(strings: &Vec<String>) -> (copy: Vec<String>)
    ensures
        copy.deep_view() == strings.deep_view(),
{
    let mut copy: Vec<String> = Vec::new();
    let mut i: usize = 0;
    while i < strings.len()
        invariant
            i <= strings.len(),
            copy.len() == i,
            forall|j: int| 0 <= j < i ==> copy[j]@ == strings[j]@,
        decreases strings.len() - i,
    {
        copy.push(strings[i].clone());
        i = i + 1;
    }
    assert(copy.deep_view() =~= strings.deep_view());
    copy
}

/// Accepts `part` as a component of a service type, or says why not.
pub fn check_valid_characters(part: &str) -> (r: Result<&str, Error>)
    ensures
        valid_part(part@) ==> r == Ok::<&str, Error>(part),
        !valid_part(part@) ==> r is Err && r->Err_0@ == part_error(part@),
{
    if contains_char(part, '.') {
        Err(Error::InvalidServiceType("invalid character: .".to_owned()))
    } else if contains_char(part, ',') {
        Err(Error::InvalidServiceType("invalid character: ,".to_owned()))
    } else if part.is_empty() {
        Err(Error::InvalidServiceType("cannot be empty".to_owned()))
    } else {
        Ok(part)
    }
}

/// Removes one leading underscore from `s`, if there is one.
pub fn lstrip_underscore(s: &str) -> (stripped: &str)
    ensures
        stripped@ == strip_underscore(s@),
{
    let len = s.unicode_len();
    if len > 0 && s.get_char(0) == '_' {
        s.substring_char(1, len)
    } else {
        s
    }
}

} // verus!
