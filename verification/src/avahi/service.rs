//! Avahi implementation for cross-platform service.
//!
//! Publishing a service with Avahi takes a chain of native calls whose
//! results decide what comes next: find a name, create the entry group, add
//! the service and its sub-types, commit, and then wait for the daemon's
//! verdict, which may be a name collision that starts the chain again under
//! another name. [`AvahiServiceContext`] holds the state of that chain. It
//! never makes a native call itself: each of its steps says which call to
//! make, and the call's result is handed to the next step.

use super::avahi_util::{
    format_service_type, format_sub_type, interface_from_index, interface_from_index_spec,
    interface_index, interface_index_spec, native_error, native_error_spec, service_kind, sub_kind,
    AVAHI_IF_UNSPEC, AVAHI_PROTO_UNSPEC,
};
use super::entry_group::{
    AddServiceParams, AddServiceParamsView, AddServiceSubtypeParams, AddServiceSubtypeParamsView,
};
use crate::error::{Error, ErrorView};
use crate::interface::NetworkInterface;
use crate::service::{ServiceRegistration, ServiceRegistrationBuilder, ServiceRegistrationView};
use crate::service_type::{ServiceType, ServiceTypeView};
use crate::text::{clone_text, result_view};
use crate::txt_record::{Pair, TxtRecord};
use vstd::prelude::*;
use vstd::string::StringExecFns;

verus! {

/// The states of an Avahi client, as its callback reports them.
#[derive(Clone, Copy, Debug, PartialEq, Eq, Structural)]
pub enum ClientState {
    /// The server is registering its host records.
    Registering,
    /// The server is up and running.
    Running,
    /// The server's host name collides with another host's.
    Collision,
    /// The client has failed; its last error says why.
    Failure,
    /// The client is still connecting to the daemon.
    Connecting,
}

/// The states of an Avahi entry group, as its callback reports them.
#[derive(Clone, Copy, Debug, PartialEq, Eq, Structural)]
pub enum EntryGroupState {
    /// The group has not been committed yet.
    Uncommitted,
    /// The group's records are being registered.
    Registering,
    /// The group's records are published.
    Established,
    /// A record of the group collides with one of another host.
    Collision,
    /// Publishing failed; the client's last error says why.
    Failure,
}

/// How far the publication of a service has come.
#[derive(Clone, Copy, Debug, PartialEq, Eq, Structural)]
pub enum RegistrationState {
    /// Nothing has been asked for yet.
    Idle,
    /// The client is there; the host name has been asked for, to serve as
    /// the service's name.
    ClientRunning,
    /// The name is known; the entry group is being created.
    CreatingGroup,
    /// The entry group is there; it has been asked whether it is empty.
    GroupCreated,
    /// The service is being added to the group.
    AddingService,
    /// The service is in the group, together with the given number of its
    /// sub-types; the next sub-type is being added, or, when none is left,
    /// the group is being committed.
    ServiceAdded(usize),
    /// The group is committed; the daemon's verdict is awaited.
    Committed,
    /// The daemon has published the service.
    Established,
    /// The daemon found the name taken; another name has been asked for.
    Collision,
    /// A native call or the daemon reported a failure.
    Failed,
}

/// The native call to make next.
#[derive(Debug, PartialEq, Eq)]
pub enum ServiceCommand {
    /// `avahi_client_get_host_name`
    GetHostName,
    /// `avahi_entry_group_new`
    CreateGroup,
    /// `avahi_entry_group_is_empty`
    CheckGroupEmpty,
    /// `avahi_entry_group_add_service_strlst`
    AddService(AddServiceParams),
    /// `avahi_entry_group_add_service_subtype`
    AddServiceSubtype(AddServiceSubtypeParams),
    /// `avahi_entry_group_commit`
    Commit,
    /// `avahi_alternative_service_name`, applied to the given name
    AlternativeName(String),
}

/// What a [`ServiceCommand`] is.
pub enum ServiceCommandView {
    GetHostName,
    CreateGroup,
    CheckGroupEmpty,
    AddService(AddServiceParamsView),
    AddServiceSubtype(AddServiceSubtypeParamsView),
    Commit,
    AlternativeName(Seq<char>),
}

impl View for ServiceCommand {
    type V = ServiceCommandView;

    open spec fn view(&self) -> ServiceCommandView {
        match *self {
            ServiceCommand::GetHostName => ServiceCommandView::GetHostName,
            ServiceCommand::CreateGroup => ServiceCommandView::CreateGroup,
            ServiceCommand::CheckGroupEmpty => ServiceCommandView::CheckGroupEmpty,
            ServiceCommand::AddService(params) => ServiceCommandView::AddService(params@),
            ServiceCommand::AddServiceSubtype(params) => ServiceCommandView::AddServiceSubtype(
                params@,
            ),
            ServiceCommand::Commit => ServiceCommandView::Commit,
            ServiceCommand::AlternativeName(name) => ServiceCommandView::AlternativeName(name@),
        }
    }
}

/// What a native call returned.
#[derive(Debug, PartialEq, Eq)]
pub enum NativeReply {
    /// The host name, or `None` where the client had none to give.
    HostName(Option<String>),
    /// Whether the entry group was created; where it was not, the client's
    /// last error code and Avahi's description of it.
    Group { created: bool, code: i32, description: String },
    /// Whether the entry group is empty.
    GroupEmpty(bool),
    /// The return code of adding a service, adding a sub-type or
    /// committing; where it is negative, with Avahi's description of it.
    Code { code: i32, description: String },
    /// The alternative to the name that was handed over.
    AlternativeName(String),
}

/// What a [`NativeReply`] is.
pub enum NativeReplyView {
    HostName(Option<Seq<char>>),
    Group { created: bool, code: i32, description: Seq<char> },
    GroupEmpty(bool),
    Code { code: i32, description: Seq<char> },
    AlternativeName(Seq<char>),
}

impl View for NativeReply {
    type V = NativeReplyView;

    open spec fn view(&self) -> NativeReplyView {
        match *self {
            NativeReply::HostName(name) => NativeReplyView::HostName(name.deep_view()),
            NativeReply::Group { created, code, description } => NativeReplyView::Group {
                created,
                code,
                description: description@,
            },
            NativeReply::GroupEmpty(empty) => NativeReplyView::GroupEmpty(empty),
            NativeReply::Code { code, description } => NativeReplyView::Code {
                code,
                description: description@,
            },
            NativeReply::AlternativeName(name) => NativeReplyView::AlternativeName(name@),
        }
    }
}

/// What to do after a step of the publication.
#[derive(Debug, PartialEq, Eq)]
pub enum ServiceStep {
    /// Make this native call and hand its result to
    /// [`AvahiServiceContext::advance`].
    Run(ServiceCommand),
    /// Hand this result to the user's callback.
    Notify(Result<ServiceRegistration, Error>),
    /// Nothing to do until the next native callback.
    Done,
}

/// What a [`ServiceStep`] is.
pub enum ServiceStepView {
    Run(ServiceCommandView),
    Notify(Result<ServiceRegistrationView, ErrorView>),
    Done,
}

impl View for ServiceStep {
    type V = ServiceStepView;

    open spec fn view(&self) -> ServiceStepView {
        match *self {
            ServiceStep::Run(command) => ServiceStepView::Run(command@),
            ServiceStep::Notify(result) => ServiceStepView::Notify(result_view(result)),
            ServiceStep::Done => ServiceStepView::Done,
        }
    }
}

/// The state of one service's publication.
#[derive(Debug)]
pub struct AvahiServiceContext {
    name: Option<String>,
    kind: String,
    sub_types: Vec<String>,
    port: u16,
    txt_record: Option<TxtRecord>,
    interface_index: i32,
    domain: Option<String>,
    host: Option<String>,
    has_client: bool,
    has_group: bool,
    state: RegistrationState,
}

/// What an [`AvahiServiceContext`] holds.
pub struct AvahiServiceContextView {
    /// The name to publish under; until one is set or found, none.
    pub name: Option<Seq<char>>,
    /// The service's type, as Avahi writes it.
    pub kind: Seq<char>,
    /// The service's sub-types, as Avahi writes them.
    pub sub_types: Seq<Seq<char>>,
    pub port: u16,
    pub txt_record: Option<Seq<Pair>>,
    pub interface_index: i32,
    pub domain: Option<Seq<char>>,
    pub host: Option<Seq<char>>,
    /// Whether the native client exists.
    pub has_client: bool,
    /// Whether the native entry group exists.
    pub has_group: bool,
    pub state: RegistrationState,
}

impl View for AvahiServiceContext {
    type V = AvahiServiceContextView;

    closed spec fn view(&self) -> AvahiServiceContextView {
        AvahiServiceContextView {
            name: self.name.deep_view(),
            kind: self.kind@,
            sub_types: self.sub_types.deep_view(),
            port: self.port,
            txt_record: self.txt_record.deep_view(),
            interface_index: self.interface_index,
            domain: self.domain.deep_view(),
            host: self.host.deep_view(),
            has_client: self.has_client,
            has_group: self.has_group,
            state: self.state,
        }
    }
}

impl AvahiServiceContextView {
    /// The context of a service that has not been touched yet.
    pub open spec fn fresh(kind: Seq<char>, port: u16, sub_types: Seq<Seq<char>>) -> Self {
        AvahiServiceContextView {
            name: None,
            kind,
            sub_types,
            port,
            txt_record: None,
            interface_index: AVAHI_IF_UNSPEC,
            domain: None,
            host: None,
            has_client: false,
            has_group: false,
            state: RegistrationState::Idle,
        }
    }

    /// The arguments for adding the service under `name`.
    pub open spec fn service_params(self, name: Seq<char>) -> AddServiceParamsView {
        AddServiceParamsView {
            interface: self.interface_index,
            protocol: AVAHI_PROTO_UNSPEC,
            flags: 0,
            name,
            kind: self.kind,
            domain: self.domain,
            host: self.host,
            port: self.port,
            txt: self.txt_record,
        }
    }

    /// The arguments for adding the sub-type at index `i` under `name`.
    pub open spec fn subtype_params(self, name: Seq<char>, i: int) -> AddServiceSubtypeParamsView {
        AddServiceSubtypeParamsView {
            interface: self.interface_index,
            protocol: AVAHI_PROTO_UNSPEC,
            flags: 0,
            name,
            kind: self.kind,
            domain: self.domain,
            subtype: self.sub_types[i],
        }
    }

    /// The publication fails with `error`, which goes to the user.
    pub open spec fn failed(self, error: ErrorView) -> (Self, ServiceStepView) {
        (
            AvahiServiceContextView { state: RegistrationState::Failed, ..self },
            ServiceStepView::Notify(Err(error)),
        )
    }

    /// Begins the batch: the service is added under the name held.
    pub open spec fn batch_begun(self) -> (Self, ServiceStepView) {
        match self.name {
            None => self.failed(ErrorView::ServiceError("could not get name as ref"@)),
            Some(name) => (
                AvahiServiceContextView { state: RegistrationState::AddingService, ..self },
                ServiceStepView::Run(ServiceCommandView::AddService(self.service_params(name))),
            ),
        }
    }

    /// Goes on with the batch when the service and `added` of its sub-types
    /// are in the group: the next sub-type is added, or the group committed.
    pub open spec fn batch_continued(self, added: usize) -> (Self, ServiceStepView) {
        match self.name {
            None => self.failed(ErrorView::ServiceError("could not get name as ref"@)),
            Some(name) => (
                AvahiServiceContextView { state: RegistrationState::ServiceAdded(added), ..self },
                if added < self.sub_types.len() {
                    ServiceStepView::Run(
                        ServiceCommandView::AddServiceSubtype(
                            self.subtype_params(name, added as int),
                        ),
                    )
                } else {
                    ServiceStepView::Run(ServiceCommandView::Commit)
                },
            ),
        }
    }

    /// Goes on once the name is known: the entry group is created where
    /// there is none yet, and else asked whether it is empty.
    pub open spec fn named(self) -> (Self, ServiceStepView) {
        if !self.has_group {
            (
                AvahiServiceContextView { state: RegistrationState::CreatingGroup, ..self },
                ServiceStepView::Run(ServiceCommandView::CreateGroup),
            )
        } else {
            (
                AvahiServiceContextView { state: RegistrationState::GroupCreated, ..self },
                ServiceStepView::Run(ServiceCommandView::CheckGroupEmpty),
            )
        }
    }

    /// Begins the publication. Without a client that is an error. Where no
    /// name was set, the host name is asked for first.
    pub open spec fn created(self) -> (Self, ServiceStepView) {
        if !self.has_client {
            (self, ServiceStepView::Notify(Err(ErrorView::ServiceError("expected initialized client"@))))
        } else if self.name is None {
            (
                AvahiServiceContextView { state: RegistrationState::ClientRunning, ..self },
                ServiceStepView::Run(ServiceCommandView::GetHostName),
            )
        } else {
            self.named()
        }
    }

    /// Takes the result of the native call that the last step asked for.
    ///
    /// * The host name becomes the service's name; a client without host
    ///   name fails the publication.
    /// * A created group is remembered and asked whether it is empty; a
    ///   group that could not be created fails the publication.
    /// * Into an empty group the batch goes: the service, each sub-type in
    ///   order, and the commit. A group that is not empty is left alone.
    /// * A negative return code within the batch fails the publication and
    ///   ends the batch; any other code lets the batch go on.
    /// * The alternative name becomes the service's name, and the batch
    ///   begins again under it.
    ///
    /// A result that the state of the publication did not ask for is
    /// reported to the user and changes nothing.
    pub open spec fn advanced(self, reply: NativeReplyView) -> (Self, ServiceStepView) {
        match (self.state, reply) {
            (RegistrationState::ClientRunning, NativeReplyView::HostName(Some(name))) => (
            AvahiServiceContextView { name: Some(name), ..self }).named(),
            (RegistrationState::ClientRunning, NativeReplyView::HostName(None)) => self.failed(
                ErrorView::ServiceError("could not get host name from AvahiClient"@),
            ),
            (
                RegistrationState::CreatingGroup,
                NativeReplyView::Group { created, code, description },
            ) => if created {
                (
                    AvahiServiceContextView {
                        has_group: true,
                        state: RegistrationState::GroupCreated,
                        ..self
                    },
                    ServiceStepView::Run(ServiceCommandView::CheckGroupEmpty),
                )
            } else {
                self.failed(
                    ErrorView::MdnsSystemError {
                        code: code as int,
                        message: "could not initialize AvahiEntryGroup: "@ + description,
                    },
                )
            },
            (RegistrationState::GroupCreated, NativeReplyView::GroupEmpty(empty)) => if empty {
                self.batch_begun()
            } else {
                (self, ServiceStepView::Done)
            },
            (RegistrationState::AddingService, NativeReplyView::Code { code, description }) => if code
                < 0 {
                self.failed(native_error_spec("could not register service"@, code as int, description))
            } else {
                self.batch_continued(0)
            },
            (
                RegistrationState::ServiceAdded(added),
                NativeReplyView::Code { code, description },
            ) => if added < self.sub_types.len() {
                if code < 0 {
                    self.failed(
                        native_error_spec(
                            "could not register service subtype"@,
                            code as int,
                            description,
                        ),
                    )
                } else {
                    self.batch_continued((added + 1) as usize)
                }
            } else {
                if code < 0 {
                    self.failed(
                        native_error_spec("could not commit service"@, code as int, description),
                    )
                } else {
                    (
                        AvahiServiceContextView { state: RegistrationState::Committed, ..self },
                        ServiceStepView::Done,
                    )
                }
            },
            (RegistrationState::Collision, NativeReplyView::AlternativeName(name)) => (
            AvahiServiceContextView { name: Some(name), ..self }).batch_begun(),
            _ => (
                self,
                ServiceStepView::Notify(
                    Err(ErrorView::ServiceError("unexpected result of a native call"@)),
                ),
            ),
        }
    }

    /// The registration that is reported once the daemon has published the
    /// service: the name held, the type parsed from the kind held, and the
    /// domain `local`.
    pub open spec fn established(self) -> Result<ServiceRegistrationView, ErrorView> {
        match self.name {
            None => Err(ErrorView::ServiceError("could not get name as ref"@)),
            Some(name) => match ServiceTypeView::parsed(self.kind) {
                Err(e) => Err(e),
                Ok(service_type) => Ok(
                    ServiceRegistrationView { name, service_type, domain: "local"@ },
                ),
            },
        }
    }

    /// Takes a change of the client's state, with the client's last error.
    ///
    /// A failed client, or one whose host name collides, fails the
    /// publication with the client's last error. A running client begins
    /// the publication where it has not begun yet. Other states change
    /// nothing.
    pub open spec fn client_changed(self, state: ClientState, code: i32, description: Seq<char>) -> (
        Self,
        ServiceStepView,
    ) {
        match state {
            ClientState::Failure | ClientState::Collision => self.failed(
                ErrorView::MdnsSystemError { code: code as int, message: description },
            ),
            ClientState::Running => if self.state == RegistrationState::Idle {
                (AvahiServiceContextView { has_client: true, ..self }).created()
            } else {
                (AvahiServiceContextView { has_client: true, ..self }, ServiceStepView::Done)
            },
            _ => (self, ServiceStepView::Done),
        }
    }

    /// Takes a change of the entry group's state, with the client's last
    /// error.
    ///
    /// * Established: the registration goes to the user.
    /// * Failure: the client's last error goes to the user.
    /// * Collision: nothing goes to the user. An alternative to the name
    ///   held is asked for, under which the batch will begin again.
    /// * Other states change nothing.
    pub open spec fn group_changed(self, state: EntryGroupState, code: i32, description: Seq<char>)
        -> (Self, ServiceStepView) {
        match state {
            EntryGroupState::Established => (
                AvahiServiceContextView { state: RegistrationState::Established, ..self },
                ServiceStepView::Notify(self.established()),
            ),
            EntryGroupState::Failure => self.failed(
                ErrorView::MdnsSystemError { code: code as int, message: description },
            ),
            EntryGroupState::Collision => match self.name {
                None => self.failed(ErrorView::ServiceError("expected initialized name"@)),
                Some(name) => (
                    AvahiServiceContextView { state: RegistrationState::Collision, ..self },
                    ServiceStepView::Run(ServiceCommandView::AlternativeName(name)),
                ),
            },
            _ => (self, ServiceStepView::Done),
        }
    }
}

/// A copy of `record`, or none.
fn clone_record(record: &Option<TxtRecord>) -> (copy: Option<TxtRecord>)
    ensures
        copy.deep_view() == record.deep_view(),
{
    match record {
        Some(record) => Some(record.clone()),
        None => None,
    }
}

impl AvahiServiceContext {
    /// The context of a service of the given kind on the given port, with
    /// the given sub-types, all written the way Avahi writes them.
    pub fn new(kind: String, port: u16, sub_types: Vec<String>) -> (context: Self)
        ensures
            context@ == AvahiServiceContextView::fresh(kind@, port, sub_types.deep_view()),
    {
        Self {
            name: None,
            kind,
            port,
            sub_types,
            txt_record: None,
            interface_index: AVAHI_IF_UNSPEC,
            domain: None,
            host: None,
            has_client: false,
            has_group: false,
            state: RegistrationState::Idle,
        }
    }

    /// How far the publication has come.
    pub fn state(&self) -> (state: RegistrationState)
        ensures
            state == self@.state,
    {
        self.state
    }

    /// Notes that the native client exists.
    pub fn client_created(&mut self)
        ensures
            final(self)@ == (AvahiServiceContextView { has_client: true, ..old(self)@ }),
    {
        self.has_client = true;
    }

    fn fail(&mut self, error: Error) -> (step: ServiceStep)
        ensures
            (final(self)@, step@) == old(self)@.failed(error@),
    {
        self.state = RegistrationState::Failed;
        ServiceStep::Notify(Err(error))
    }

    fn service_params(&self, name: &String) -> (params: AddServiceParams)
        ensures
            params@ == self@.service_params(name@),
    {
        AddServiceParams {
            interface: self.interface_index,
            protocol: AVAHI_PROTO_UNSPEC,
            flags: 0,
            name: name.clone(),
            kind: self.kind.clone(),
            domain: clone_text(&self.domain),
            host: clone_text(&self.host),
            port: self.port,
            txt: clone_record(&self.txt_record),
        }
    }

    fn subtype_params(&self, name: &String, i: usize) -> (params: AddServiceSubtypeParams)
        requires
            i < self@.sub_types.len(),
        ensures
            params@ == self@.subtype_params(name@, i as int),
    {
        assert(self.sub_types.deep_view()[i as int] == self.sub_types[i as int]@);
        AddServiceSubtypeParams {
            interface: self.interface_index,
            protocol: AVAHI_PROTO_UNSPEC,
            flags: 0,
            name: name.clone(),
            kind: self.kind.clone(),
            domain: clone_text(&self.domain),
            subtype: self.sub_types[i].clone(),
        }
    }

    /// Begins the batch that publishes the service: says to add the service
    /// under the name held. The sub-types and the commit follow as each
    /// native call succeeds; see [`AvahiServiceContext::advance`].
    pub fn add_services(&mut self) -> (step: ServiceStep)
        ensures
            (final(self)@, step@) == old(self)@.batch_begun(),
    {
        let params = match &self.name {
            Some(name) => self.service_params(name),
            None => {
                return self.fail(Error::ServiceError("could not get name as ref".to_owned()));
            },
        };
        self.state = RegistrationState::AddingService;
        ServiceStep::Run(ServiceCommand::AddService(params))
    }

    fn continue_batch(&mut self, added: usize) -> (step: ServiceStep)
        ensures
            (final(self)@, step@) == old(self)@.batch_continued(added),
    {
        let step = match &self.name {
            Some(name) => {
                if added < self.sub_types.len() {
                    ServiceStep::Run(
                        ServiceCommand::AddServiceSubtype(self.subtype_params(name, added)),
                    )
                } else {
                    ServiceStep::Run(ServiceCommand::Commit)
                }
            },
            None => {
                return self.fail(Error::ServiceError("could not get name as ref".to_owned()));
            },
        };
        self.state = RegistrationState::ServiceAdded(added);
        step
    }

    fn with_name(&mut self) -> (step: ServiceStep)
        ensures
            (final(self)@, step@) == old(self)@.named(),
    {
        if !self.has_group {
            self.state = RegistrationState::CreatingGroup;
            ServiceStep::Run(ServiceCommand::CreateGroup)
        } else {
            self.state = RegistrationState::GroupCreated;
            ServiceStep::Run(ServiceCommand::CheckGroupEmpty)
        }
    }

    /// Begins the publication of the service, or takes it up again.
    pub fn create_service(&mut self) -> (step: ServiceStep)
        ensures
            (final(self)@, step@) == old(self)@.created(),
    {
        if !self.has_client {
            return ServiceStep::Notify(
                Err(Error::ServiceError("expected initialized client".to_owned())),
            );
        }
        if self.name.is_none() {
            self.state = RegistrationState::ClientRunning;
            return ServiceStep::Run(ServiceCommand::GetHostName);
        }
        self.with_name()
    }

    /// Takes the result of the native call that the last step asked for,
    /// and says what to do next.
    pub fn advance(&mut self, reply: NativeReply) -> (step: ServiceStep)
        ensures
            (final(self)@, step@) == old(self)@.advanced(reply@),
    {
        match (self.state, reply) {
            (RegistrationState::ClientRunning, NativeReply::HostName(Some(name))) => {
                self.name = Some(name);
                self.with_name()
            },
            (RegistrationState::ClientRunning, NativeReply::HostName(None)) => {
                self.fail(
                    Error::ServiceError("could not get host name from AvahiClient".to_owned()),
                )
            },
            (RegistrationState::CreatingGroup, NativeReply::Group { created, code, description }) => {
                if created {
                    self.has_group = true;
                    self.state = RegistrationState::GroupCreated;
                    ServiceStep::Run(ServiceCommand::CheckGroupEmpty)
                } else {
                    let mut message = "could not initialize AvahiEntryGroup: ".to_owned();
                    message.append(description.as_str());
                    self.fail(Error::MdnsSystemError { code, message })
                }
            },
            (RegistrationState::GroupCreated, NativeReply::GroupEmpty(empty)) => {
                if empty {
                    self.add_services()
                } else {
                    ServiceStep::Done
                }
            },
            (RegistrationState::AddingService, NativeReply::Code { code, description }) => {
                if code < 0 {
                    self.fail(native_error("could not register service", code, description.as_str()))
                } else {
                    self.continue_batch(0)
                }
            },
            (RegistrationState::ServiceAdded(added), NativeReply::Code { code, description }) => {
                if added < self.sub_types.len() {
                    if code < 0 {
                        self.fail(
                            native_error(
                                "could not register service subtype",
                                code,
                                description.as_str(),
                            ),
                        )
                    } else {
                        self.continue_batch(added + 1)
                    }
                } else {
                    if code < 0 {
                        self.fail(
                            native_error("could not commit service", code, description.as_str()),
                        )
                    } else {
                        self.state = RegistrationState::Committed;
                        ServiceStep::Done
                    }
                }
            },
            (RegistrationState::Collision, NativeReply::AlternativeName(name)) => {
                self.name = Some(name);
                self.add_services()
            },
            _ => ServiceStep::Notify(
                Err(Error::ServiceError("unexpected result of a native call".to_owned())),
            ),
        }
    }

    /// The registration to report once the daemon has published the service.
    pub fn handle_group_established(&self) -> (r: Result<ServiceRegistration, Error>)
        ensures
            result_view(r) == self@.established(),
    {
        let name = match &self.name {
            Some(name) => name.clone(),
            None => {
                return Err(Error::ServiceError("could not get name as ref".to_owned()));
            },
        };
        let service_type = match ServiceType::from_str(self.kind.as_str()) {
            Ok(service_type) => service_type,
            Err(e) => {
                return Err(e);
            },
        };
        ServiceRegistrationBuilder::default().name(name).service_type(service_type).domain(
            "local".to_owned(),
        ).build()
    }

    /// Takes a change of the client's state. `code` is the client's last
    /// error code and `description` Avahi's description of it; both are
    /// looked at only where the state is a failure.
    pub fn client_callback(&mut self, state: ClientState, code: i32, description: &str) -> (step:
        ServiceStep)
        ensures
            (final(self)@, step@) == old(self)@.client_changed(state, code, description@),
    {
        match state {
            ClientState::Failure | ClientState::Collision => {
                self.fail(Error::MdnsSystemError { code, message: description.to_owned() })
            },
            ClientState::Running => {
                self.has_client = true;
                match self.state {
                    RegistrationState::Idle => self.create_service(),
                    _ => ServiceStep::Done,
                }
            },
            _ => ServiceStep::Done,
        }
    }

    /// Takes a change of the entry group's state. `code` is the client's
    /// last error code and `description` Avahi's description of it; both are
    /// looked at only where the state is a failure.
    pub fn entry_group_callback(&mut self, state: EntryGroupState, code: i32, description: &str)
        -> (step: ServiceStep)
        ensures
            (final(self)@, step@) == old(self)@.group_changed(state, code, description@),
    {
        match state {
            EntryGroupState::Established => {
                let result = self.handle_group_established();
                self.state = RegistrationState::Established;
                ServiceStep::Notify(result)
            },
            EntryGroupState::Failure => {
                self.fail(Error::MdnsSystemError { code, message: description.to_owned() })
            },
            EntryGroupState::Collision => {
                let name = match &self.name {
                    Some(name) => name.clone(),
                    None => {
                        return self.fail(
                            Error::ServiceError("expected initialized name".to_owned()),
                        );
                    },
                };
                self.state = RegistrationState::Collision;
                ServiceStep::Run(ServiceCommand::AlternativeName(name))
            },
            _ => ServiceStep::Done,
        }
    }
}

/// The kind and the sub-types of `service_type`, as Avahi writes them.
pub open spec fn formatted_sub_types(service_type: ServiceTypeView) -> Seq<Seq<char>> {
    Seq::new(
        service_type.sub_types.len(),
        |i: int| sub_kind(service_type.sub_types[i], service_kind(service_type)),
    )
}

/// A service to publish through Avahi: its configuration, and the state of
/// its publication.
#[derive(Debug)]
pub struct AvahiMdnsService {
    context: AvahiServiceContext,
}

impl View for AvahiMdnsService {
    type V = AvahiServiceContextView;

    closed spec fn view(&self) -> AvahiServiceContextView {
        self.context@
    }
}

impl AvahiMdnsService {
    /// Creates a new service of the specified type on the specified port,
    /// on all interfaces, with nothing else set.
    pub fn new(service_type: ServiceType, port: u16) -> (service: Self)
        ensures
            service@ == AvahiServiceContextView::fresh(
                service_kind(service_type@),
                port,
                formatted_sub_types(service_type@),
            ),
    {
        let kind = format_service_type(&service_type);
        let given = service_type.sub_types();
        let mut sub_types: Vec<String> = Vec::new();
        let mut i: usize = 0;
        while i < given.len()
            invariant
                i <= given.len(),
                given.deep_view() == service_type@.sub_types,
                kind@ == service_kind(service_type@),
                sub_types.len() == i,
                forall|j: int|
                    0 <= j < i ==> (#[trigger] sub_types[j])@ == formatted_sub_types(
                        service_type@,
                    )[j],
            decreases given.len() - i,
        {
            assert(given.deep_view()[i as int] == given[i as int]@);
            sub_types.push(format_sub_type(given[i].as_str(), kind.as_str()));
            i = i + 1;
        }
        assert(sub_types.deep_view() =~= formatted_sub_types(service_type@));
        Self { context: AvahiServiceContext::new(kind, port, sub_types) }
    }

    /// Sets the name to register this service under. If no name is set, the client's host name
    /// will be used instead.
    pub fn set_name(&mut self, name: &str)
        ensures
            final(self)@ == (AvahiServiceContextView { name: Some(name@), ..old(self)@ }),
    {
        self.context.name = Some(name.to_owned());
    }

    /// Returns the name to register this service under, if one is set or
    /// has been found.
    pub fn name(&self) -> (name: Option<&str>)
        ensures
            name.deep_view() == self@.name,
    {
        match &self.context.name {
            Some(name) => Some(name.as_str()),
            None => None,
        }
    }

    /// Sets the network interface to bind this service to.
    pub fn set_network_interface(&mut self, interface: NetworkInterface)
        ensures
            final(self)@ == (AvahiServiceContextView {
                interface_index: interface_index_spec(interface) as i32,
                ..old(self)@
            }),
    {
        self.context.interface_index = interface_index(interface);
    }

    /// Returns the network interface to bind this service to.
    pub fn network_interface(&self) -> (interface: NetworkInterface)
        ensures
            interface == interface_from_index_spec(self@.interface_index),
    {
        interface_from_index(self.context.interface_index)
    }

    /// Sets the domain on which to advertise the service.
    pub fn set_domain(&mut self, domain: &str)
        ensures
            final(self)@ == (AvahiServiceContextView { domain: Some(domain@), ..old(self)@ }),
    {
        self.context.domain = Some(domain.to_owned());
    }

    /// Returns the domain on which to advertise the service, if one is set.
    pub fn domain(&self) -> (domain: Option<&str>)
        ensures
            domain.deep_view() == self@.domain,
    {
        match &self.context.domain {
            Some(domain) => Some(domain.as_str()),
            None => None,
        }
    }

    /// Sets the SRV target host name.
    pub fn set_host(&mut self, host: &str)
        ensures
            final(self)@ == (AvahiServiceContextView { host: Some(host@), ..old(self)@ }),
    {
        self.context.host = Some(host.to_owned());
    }

    /// Returns the SRV target host name, if one is set.
    pub fn host(&self) -> (host: Option<&str>)
        ensures
            host.deep_view() == self@.host,
    {
        match &self.context.host {
            Some(host) => Some(host.as_str()),
            None => None,
        }
    }

    /// Sets the optional `TxtRecord` to register this service with.
    pub fn set_txt_record(&mut self, txt_record: TxtRecord)
        ensures
            final(self)@ == (AvahiServiceContextView {
                txt_record: Some(txt_record@),
                ..old(self)@
            }),
    {
        self.context.txt_record = Some(txt_record);
    }

    /// Returns the optional `TxtRecord` to register this service with.
    pub fn txt_record(&self) -> (txt_record: Option<&TxtRecord>)
        ensures
            txt_record.deep_view() == self@.txt_record,
    {
        self.context.txt_record.as_ref()
    }

    /// How far the publication has come.
    pub fn state(&self) -> (state: RegistrationState)
        ensures
            state == self@.state,
    {
        self.context.state()
    }

    /// Registers the service, once the native client has been created:
    /// begins the publication and says what to do first.
    pub fn register(&mut self) -> (step: ServiceStep)
        ensures
            (final(self)@, step@) == (AvahiServiceContextView {
                has_client: true,
                ..old(self)@
            }).created(),
    {
        self.context.client_created();
        self.context.create_service()
    }

    /// Takes the result of the native call that the last step asked for;
    /// see [`AvahiServiceContext::advance`].
    pub fn advance(&mut self, reply: NativeReply) -> (step: ServiceStep)
        ensures
            (final(self)@, step@) == old(self)@.advanced(reply@),
    {
        self.context.advance(reply)
    }

    /// Takes a change of the client's state; see
    /// [`AvahiServiceContext::client_callback`].
    pub fn client_callback(&mut self, state: ClientState, code: i32, description: &str) -> (step:
        ServiceStep)
        ensures
            (final(self)@, step@) == old(self)@.client_changed(state, code, description@),
    {
        self.context.client_callback(state, code, description)
    }

    /// Takes a change of the entry group's state; see
    /// [`AvahiServiceContext::entry_group_callback`].
    pub fn entry_group_callback(&mut self, state: EntryGroupState, code: i32, description: &str)
        -> (step: ServiceStep)
        ensures
            (final(self)@, step@) == old(self)@.group_changed(state, code, description@),
    {
        self.context.entry_group_callback(state, code, description)
    }
}

/// The context after `n` native calls in a row have succeeded.
pub open spec fn after_successes(context: AvahiServiceContextView, n: nat) -> AvahiServiceContextView
    decreases n,
{
    if n == 0 {
        context
    } else {
        after_successes(context, (n - 1) as nat).advanced(
            NativeReplyView::Code { code: 0, description: Seq::empty() },
        ).0
    }
}

/// A batch in which every native call succeeds adds the service, then each
/// sub-type in the order given, then commits, all under the same name, and
/// tells the user nothing on the way.
pub proof fn lemma_batch_order(context: AvahiServiceContextView, n: nat)
    requires
        context.state == RegistrationState::AddingService,
        context.name is Some,
        context.sub_types.len() <= usize::MAX,
        n <= context.sub_types.len() + 1,
    ensures
        n >= 1 ==> after_successes(context, n) == (AvahiServiceContextView {
            state: RegistrationState::ServiceAdded((n - 1) as usize),
            ..context
        }),
        1 <= n <= context.sub_types.len() ==> after_successes(context, (n - 1) as nat).advanced(
            NativeReplyView::Code { code: 0, description: Seq::empty() },
        ).1 == ServiceStepView::Run(
            ServiceCommandView::AddServiceSubtype(
                context.subtype_params(context.name->0, n - 1),
            ),
        ),
        n == context.sub_types.len() + 1 ==> after_successes(context, (n - 1) as nat).advanced(
            NativeReplyView::Code { code: 0, description: Seq::empty() },
        ).1 == ServiceStepView::Run(ServiceCommandView::Commit),
        n == context.sub_types.len() + 1 ==> after_successes(context, n + 1) == (
        AvahiServiceContextView { state: RegistrationState::Committed, ..context }),
    decreases n,
{
    reveal_with_fuel(after_successes, 3);
    if n >= 2 {
        lemma_batch_order(context, (n - 1) as nat);
    }
}

/// A name collision is never shown to the user: the daemon's verdict
/// "collision" asks for an alternative name; with that name the batch begins
/// again; and when every native call of the batch succeeds and the daemon
/// then reports the group as established, the user is told of a
/// registration under the alternative name.
pub proof fn lemma_collision_retry(
    context: AvahiServiceContextView,
    code: i32,
    description: Seq<char>,
    alternative: Seq<char>,
)
    requires
        context.name is Some,
        context.sub_types.len() <= usize::MAX,
        ServiceTypeView::parsed(context.kind) is Ok,
    ensures
        ({
            let collided = context.group_changed(EntryGroupState::Collision, code, description);
            let renamed = collided.0.advanced(NativeReplyView::AlternativeName(alternative));
            let committed = after_successes(renamed.0, context.sub_types.len() + 2);
            let verdict = committed.group_changed(EntryGroupState::Established, code, description);
            &&& collided.1 == ServiceStepView::Run(
                ServiceCommandView::AlternativeName(context.name->0),
            )
            &&& renamed.1 == ServiceStepView::Run(
                ServiceCommandView::AddService(
                    (AvahiServiceContextView { name: Some(alternative), ..context }).service_params(
                        alternative,
                    ),
                ),
            )
            &&& committed == (AvahiServiceContextView {
                name: Some(alternative),
                state: RegistrationState::Committed,
                ..context
            })
            &&& verdict.0.state == RegistrationState::Established
            &&& verdict.1 == ServiceStepView::Notify(
                Ok(
                    ServiceRegistrationView {
                        name: alternative,
                        service_type: ServiceTypeView::parsed(context.kind)->Ok_0,
                        domain: "local"@,
                    },
                ),
            )
        }),
{
    let collided = context.group_changed(EntryGroupState::Collision, code, description);
    let renamed = collided.0.advanced(NativeReplyView::AlternativeName(alternative));
    lemma_batch_order(renamed.0, context.sub_types.len() + 1);
}

/// The user is told of a registration only when the daemon reports the
/// entry group as established, and then once: no native call's result, no
/// change of the client's state and no other state of the group tells the
/// user of a success.
pub proof fn lemma_success_only_when_established(
    context: AvahiServiceContextView,
    reply: NativeReplyView,
    client_state: ClientState,
    group_state: EntryGroupState,
    code: i32,
    description: Seq<char>,
)
    ensures
        !(context.created().1 matches ServiceStepView::Notify(Ok(_))),
        !(context.advanced(reply).1 matches ServiceStepView::Notify(Ok(_))),
        !(context.client_changed(client_state, code, description).1 matches ServiceStepView::Notify(
            Ok(_),
        )),
        context.group_changed(group_state, code, description).1 matches ServiceStepView::Notify(
            Ok(_),
        ) ==> group_state == EntryGroupState::Established,
{
}

} // verus!
