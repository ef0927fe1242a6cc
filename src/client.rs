use vstd::prelude::*;
use crate::error::Error;
use crate::lifecycle::{ShutdownState, moves_forward};
use crate::options::{
    ChangeStreamOptions,
    ClientOptions,
    DatabaseFilter,
    DatabaseOptions,
    DatabaseSpecification,
    ReadConcern,
    SelectionCriteria,
    SessionOptions,
    WriteConcern,
    names_of,
    selected,
};
use crate::registry::Registry;
use crate::uri::{default_database_of, hosts_of, valid_uri};

verus! {

/// A handle to one database of the cluster, carrying the defaults that its
/// operations use.
#[derive(Debug)]
pub struct Database {
    pub name: String,
    pub selection_criteria: Option<SelectionCriteria>,
    pub read_concern: Option<ReadConcern>,
    pub write_concern: Option<WriteConcern>,
}

/// A live session on the server. Hand it back with `Client::release_session`.
#[derive(Debug)]
pub struct ClientSession {
    pub id: u64,
    pub options: Option<SessionOptions>,
}

/// A live change stream over the whole cluster. Hand it back with
/// `Client::release_change_stream`.
#[derive(Debug)]
pub struct ChangeStream {
    pub id: u64,
    pub pipeline: Vec<String>,
    pub options: Option<ChangeStreamOptions>,
}

/// A live change stream that runs inside a session. Hand it back with
/// `Client::release_session_change_stream`.
#[derive(Debug)]
pub struct SessionChangeStream {
    pub id: u64,
    pub session_id: u64,
    pub pipeline: Vec<String>,
    pub options: Option<ChangeStreamOptions>,
}

/// The synchronous client. It holds the connection engine's state: its
/// configuration, the database catalogue it last observed, the resource
/// handles it has handed out and not yet had back, the registry of cleanups
/// still pending, and where it stands in its lifecycle.
///
/// Every operation that would reach the server fails with
/// `Error::ClientClosed` once a shutdown has been requested. Releasing a
/// handle never waits: it leaves a cleanup record, which the background
/// worker (`run_cleanup`) or a shutdown completes.
pub struct Client {
    options: ClientOptions,
    state: ShutdownState,
    catalog: Vec<DatabaseSpecification>,
    live: Vec<u64>,
    registry: Registry,
    next_id: u64,
    finished: Ghost<Seq<u64>>,
}

impl Client {
    /// The lifecycle state.
    pub closed spec fn state_of(&self) -> ShutdownState {
        self.state
    }

    /// The handles handed out and not yet released, in order of issue.
    pub closed spec fn live_of(&self) -> Seq<u64> {
        self.live@
    }

    /// The handles released whose cleanup has not finished, oldest first.
    pub closed spec fn pending_of(&self) -> Seq<u64> {
        self.registry@
    }

    /// The handles whose cleanup has finished, in order of completion.
    pub closed spec fn finished_of(&self) -> Seq<u64> {
        self.finished@
    }

    /// The identifier the next handle will get.
    pub closed spec fn next_id_of(&self) -> u64 {
        self.next_id
    }

    /// The database catalogue last observed.
    pub closed spec fn catalog_of(&self) -> Seq<DatabaseSpecification> {
        self.catalog@
    }

    /// The configuration.
    pub closed spec fn options_of(&self) -> ClientOptions {
        self.options
    }

    /// Handles are distinct and issued, a released handle is no longer live,
    /// and a closed client has no pending cleanup.
    pub closed spec fn wf(&self) -> bool {
        &&& self.live@.no_duplicates()
        &&& self.registry.wf()
        &&& forall|i: int|
            0 <= i < self.live@.len() ==> self.live@[i] < self.next_id && !self.registry@.contains(
                #[trigger] self.live@[i],
            )
        &&& forall|i: int|
            0 <= i < self.registry@.len() ==> #[trigger] self.registry@[i] < self.next_id
        &&& (self.state == ShutdownState::Closed ==> self.registry@.len() == 0)
    }

    /// Whether the client accepts operations.
    pub open spec fn accepts(&self) -> bool {
        self.state_of() == ShutdownState::Active
    }

    /// Everything but the handle bookkeeping is as in `other`.
    pub open spec fn same_engine(&self, other: &Client) -> bool {
        &&& self.options_of() == other.options_of()
        &&& self.catalog_of() == other.catalog_of()
        &&& self.state_of() == other.state_of()
    }

    /// Creates a client connected as `options` say. The host list must not be empty.
    pub fn with_options(options: ClientOptions) -> (r: Result<Client, Error>)
        ensures
            options.hosts@.len() == 0 <==> r is Err,
            r is Err ==> r == Err::<Client, Error>(Error::InvalidArgument),
            r is Ok ==> {
                let c = r->Ok_0;
                &&& c.wf()
                &&& c.options_of() == options
                &&& c.state_of() == ShutdownState::Active
                &&& c.catalog_of().len() == 0
                &&& c.live_of().len() == 0
                &&& c.pending_of().len() == 0
                &&& c.finished_of().len() == 0
                &&& c.next_id_of() == 0
            },
    {
        if options.hosts.as_str().is_empty() {
            return Err(Error::InvalidArgument);
        }
        let registry = Registry::new();
        Ok(
            Client {
                options,
                state: ShutdownState::Active,
                catalog: Vec::new(),
                live: Vec::new(),
                registry,
                next_id: 0,
                finished: Ghost(Seq::empty()),
            },
        )
    }

    /// Creates a client from a connection string.
    pub fn with_uri_str(uri: &str) -> (r: Result<Client, Error>)
        ensures
            valid_uri(uri@) <==> r is Ok,
            !valid_uri(uri@) ==> r == Err::<Client, Error>(Error::InvalidUri),
            r is Ok ==> {
                let c = r->Ok_0;
                &&& c.wf()
                &&& c.options_of().hosts@ == hosts_of(uri@)
                &&& (match c.options_of().default_database {
                    None => default_database_of(uri@) is None,
                    Some(d) => default_database_of(uri@) == Some(d@),
                })
                &&& c.options_of().selection_criteria is None
                &&& c.options_of().read_concern is None
                &&& c.options_of().write_concern is None
                &&& c.state_of() == ShutdownState::Active
                &&& c.catalog_of().len() == 0
                &&& c.live_of().len() == 0
                &&& c.pending_of().len() == 0
                &&& c.finished_of().len() == 0
                &&& c.next_id_of() == 0
            },
    {
        match ClientOptions::parse(uri) {
            Err(e) => Err(e),
            Ok(options) => {
                proof {
                    crate::uri::lemma_hosts_nonempty(uri@);
                }
                Client::with_options(options)
            },
        }
    }

    /// The default selection criteria.
    pub fn selection_criteria(&self) -> (r: Option<SelectionCriteria>)
        ensures
            r == self.options_of().selection_criteria,
    {
        self.options.selection_criteria
    }

    /// The default read concern.
    pub fn read_concern(&self) -> (r: Option<ReadConcern>)
        ensures
            r == self.options_of().read_concern,
    {
        self.options.read_concern
    }

    /// The default write concern.
    pub fn write_concern(&self) -> (r: Option<WriteConcern>)
        ensures
            r == self.options_of().write_concern,
    {
        self.options.write_concern
    }

    /// A handle to database `name` with the client's defaults. Nothing is sent.
    pub fn database(&self, name: &str) -> (r: Database)
        ensures
            r.name@ == name@,
            r.selection_criteria == self.options_of().selection_criteria,
            r.read_concern == self.options_of().read_concern,
            r.write_concern == self.options_of().write_concern,
    {
        Database {
            name: name.to_owned(),
            selection_criteria: self.options.selection_criteria,
            read_concern: self.options.read_concern,
            write_concern: self.options.write_concern,
        }
    }

    /// A handle to database `name`; each default that `options` sets wins
    /// over the client's. Nothing is sent.
    pub fn database_with_options(&self, name: &str, options: DatabaseOptions) -> (r: Database)
        ensures
            r.name@ == name@,
            r.selection_criteria == (if options.selection_criteria is Some {
                options.selection_criteria
            } else {
                self.options_of().selection_criteria
            }),
            r.read_concern == (if options.read_concern is Some {
                options.read_concern
            } else {
                self.options_of().read_concern
            }),
            r.write_concern == (if options.write_concern is Some {
                options.write_concern
            } else {
                self.options_of().write_concern
            }),
    {
        Database {
            name: name.to_owned(),
            selection_criteria: if options.selection_criteria.is_some() {
                options.selection_criteria
            } else {
                self.options.selection_criteria
            },
            read_concern: if options.read_concern.is_some() {
                options.read_concern
            } else {
                self.options.read_concern
            },
            write_concern: if options.write_concern.is_some() {
                options.write_concern
            } else {
                self.options.write_concern
            },
        }
    }

    /// A handle to the database named in the configuration, if one is.
    pub fn default_database(&self) -> (r: Option<Database>)
        ensures
            self.options_of().default_database is None <==> r is None,
            r is Some ==> {
                let d = r->Some_0;
                &&& d.name@ == self.options_of().default_database->Some_0@
                &&& d.selection_criteria == self.options_of().selection_criteria
                &&& d.read_concern == self.options_of().read_concern
                &&& d.write_concern == self.options_of().write_concern
            },
    {
        match &self.options.default_database {
            None => None,
            Some(name) => Some(self.database(name.as_str())),
        }
    }

    /// Replaces the catalogue with what the cluster reported last.
    pub fn observe_catalog(&mut self, catalog: Vec<DatabaseSpecification>) -> (r: Result<(), Error>)
        requires
            old(self).wf(),
        ensures
            final(self).wf(),
            old(self).accepts() <==> r is Ok,
            r is Err ==> r == Err::<(), Error>(Error::ClientClosed) && *final(self) == *old(self),
            r is Ok ==> final(self).catalog_of() == catalog@ && final(self).options_of()
                == old(self).options_of() && final(self).state_of() == old(self).state_of()
                && final(self).live_of() == old(self).live_of() && final(self).pending_of()
                == old(self).pending_of() && final(self).finished_of() == old(self).finished_of()
                && final(self).next_id_of() == old(self).next_id_of(),
    {
        if !self.state.is_active() {
            return Err(Error::ClientClosed);
        }
        self.catalog = catalog;
        Ok(())
    }

    /// The databases of the catalogue that pass `filter`, in catalogue order.
    pub fn list_databases(&self, filter: Option<DatabaseFilter>) -> (r: Result<
        Vec<DatabaseSpecification>,
        Error,
    >)
        ensures
            self.accepts() <==> r is Ok,
            r is Err ==> r == Err::<Vec<DatabaseSpecification>, Error>(Error::ClientClosed),
            r is Ok ==> r->Ok_0@ == selected(self.catalog_of(), filter),
    {
        if !self.state.is_active() {
            return Err(Error::ClientClosed);
        }
        let mut out: Vec<DatabaseSpecification> = Vec::new();
        let mut i: usize = 0;
        while i < self.catalog.len()
            invariant
                i <= self.catalog@.len(),
                out@ == selected(self.catalog@.take(i as int), filter),
            decreases self.catalog@.len() - i,
        {
            let d = &self.catalog[i];
            let keep = match &filter {
                None => true,
                Some(f) => f.passes(d),
            };
            if keep {
                out.push(d.duplicate());
            }
            proof {
                assert(self.catalog@.take(i + 1).drop_last() =~= self.catalog@.take(i as int));
            }
            i = i + 1;
        }
        assert(self.catalog@.take(i as int) =~= self.catalog@);
        Ok(out)
    }

    /// The names of the databases of the catalogue that pass `filter`.
    pub fn list_database_names(&self, filter: Option<DatabaseFilter>) -> (r: Result<
        Vec<String>,
        Error,
    >)
        ensures
            self.accepts() <==> r is Ok,
            r is Err ==> r == Err::<Vec<String>, Error>(Error::ClientClosed),
            r is Ok ==> r->Ok_0@.map_values(|s: String| s@) == names_of(
                selected(self.catalog_of(), filter),
            ),
    {
        let dbs = match self.list_databases(filter) {
            Err(e) => return Err(e),
            Ok(dbs) => dbs,
        };
        let mut names: Vec<String> = Vec::new();
        let mut i: usize = 0;
        while i < dbs.len()
            invariant
                i <= dbs@.len(),
                names@.len() == i,
                forall|j: int| 0 <= j < i ==> (#[trigger] names@[j])@ == dbs@[j].name@,
            decreases dbs@.len() - i,
        {
            names.push(dbs[i].name.clone());
            i = i + 1;
        }
        assert(names@.map_values(|s: String| s@) =~= names_of(dbs@));
        Ok(names)
    }

    /// Issues a fresh handle identifier and records it as live.
    fn issue_handle(&mut self) -> (r: Result<u64, Error>)
        requires
            old(self).wf(),
        ensures
            final(self).wf(),
            final(self).same_engine(old(self)),
            final(self).pending_of() == old(self).pending_of(),
            final(self).finished_of() == old(self).finished_of(),
            !old(self).accepts() ==> r == Err::<u64, Error>(Error::ClientClosed),
            old(self).accepts() && old(self).next_id_of() == u64::MAX ==> r == Err::<u64, Error>(
                Error::IdsExhausted,
            ),
            old(self).accepts() && old(self).next_id_of() < u64::MAX ==> r == Ok::<u64, Error>(
                old(self).next_id_of(),
            ),
            r is Err ==> *final(self) == *old(self),
            r is Ok ==> final(self).live_of() == old(self).live_of().push(r->Ok_0)
                && final(self).next_id_of() == old(self).next_id_of() + 1,
    {
        if !self.state.is_active() {
            return Err(Error::ClientClosed);
        }
        if self.next_id == u64::MAX {
            return Err(Error::IdsExhausted);
        }
        let id = self.next_id;
        self.live.push(id);
        self.next_id = id + 1;
        proof {
            assert forall|i: int| 0 <= i < self.live@.len() implies self.live@[i] < self.next_id
                && !self.registry@.contains(#[trigger] self.live@[i]) by {
                if i < old(self).live@.len() {
                    assert(self.live@[i] == old(self).live@[i]);
                } else {
                    if self.registry@.contains(id) {
                        let k = self.registry@.index_of(id);
                        assert(self.registry@[k] < old(self).next_id);
                    }
                }
            }
            assert forall|a: int, b: int| 0 <= a < b < self.live@.len() implies self.live@[a]
                != self.live@[b] by {
                if b == old(self).live@.len() {
                    assert(old(self).live@[a] < old(self).next_id);
                }
            }
        }
        Ok(id)
    }

    /// Starts a session.
    pub fn start_session(&mut self, options: Option<SessionOptions>) -> (r: Result<
        ClientSession,
        Error,
    >)
        requires
            old(self).wf(),
        ensures
            final(self).wf(),
            final(self).same_engine(old(self)),
            final(self).pending_of() == old(self).pending_of(),
            final(self).finished_of() == old(self).finished_of(),
            !old(self).accepts() ==> r is Err && r->Err_0 == Error::ClientClosed,
            old(self).accepts() && old(self).next_id_of() == u64::MAX ==> r is Err && r->Err_0
                == Error::IdsExhausted,
            old(self).accepts() && old(self).next_id_of() < u64::MAX ==> r is Ok,
            r is Err ==> *final(self) == *old(self),
            r is Ok ==> r->Ok_0.id == old(self).next_id_of() && r->Ok_0.options == options
                && final(self).live_of() == old(self).live_of().push(r->Ok_0.id)
                && final(self).next_id_of() == old(self).next_id_of() + 1,
    {
        match self.issue_handle() {
            Err(e) => Err(e),
            Ok(id) => Ok(ClientSession { id, options }),
        }
    }

    /// Opens a change stream over the whole cluster.
    pub fn watch(&mut self, pipeline: Vec<String>, options: Option<ChangeStreamOptions>) -> (r:
        Result<ChangeStream, Error>)
        requires
            old(self).wf(),
        ensures
            final(self).wf(),
            final(self).same_engine(old(self)),
            final(self).pending_of() == old(self).pending_of(),
            final(self).finished_of() == old(self).finished_of(),
            !old(self).accepts() ==> r is Err && r->Err_0 == Error::ClientClosed,
            old(self).accepts() && old(self).next_id_of() == u64::MAX ==> r is Err && r->Err_0
                == Error::IdsExhausted,
            old(self).accepts() && old(self).next_id_of() < u64::MAX ==> r is Ok,
            r is Err ==> *final(self) == *old(self),
            r is Ok ==> r->Ok_0.id == old(self).next_id_of() && r->Ok_0.pipeline@ == pipeline@
                && r->Ok_0.options == options && final(self).live_of() == old(self).live_of().push(r->Ok_0.id) && final(self).next_id_of() == old(self).next_id_of()
                + 1,
    {
        match self.issue_handle() {
            Err(e) => Err(e),
            Ok(id) => Ok(ChangeStream { id, pipeline, options }),
        }
    }

    /// Opens a change stream over the whole cluster inside `session`, which
    /// must be a live session of this client.
    pub fn watch_with_session(
        &mut self,
        pipeline: Vec<String>,
        options: Option<ChangeStreamOptions>,
        session: &ClientSession,
    ) -> (r: Result<SessionChangeStream, Error>)
        requires
            old(self).wf(),
        ensures
            final(self).wf(),
            final(self).same_engine(old(self)),
            final(self).pending_of() == old(self).pending_of(),
            final(self).finished_of() == old(self).finished_of(),
            !old(self).accepts() ==> r is Err && r->Err_0 == Error::ClientClosed,
            old(self).accepts() && !old(self).live_of().contains(session.id) ==> r is Err
                && r->Err_0 == Error::UnknownHandle,
            old(self).accepts() && old(self).live_of().contains(session.id) && old(self).next_id_of() == u64::MAX ==> r is Err && r->Err_0 == Error::IdsExhausted,
            old(self).accepts() && old(self).live_of().contains(session.id) && old(self).next_id_of() < u64::MAX ==> r is Ok,
            r is Err ==> *final(self) == *old(self),
            r is Ok ==> r->Ok_0.id == old(self).next_id_of() && r->Ok_0.session_id == session.id
                && r->Ok_0.pipeline@ == pipeline@ && r->Ok_0.options == options && final(self).live_of() == old(self).live_of().push(r->Ok_0.id) && final(self).next_id_of()
                == old(self).next_id_of() + 1,
    {
        if !self.state.is_active() {
            return Err(Error::ClientClosed);
        }
        if self.find_live(session.id).is_none() {
            return Err(Error::UnknownHandle);
        }
        match self.issue_handle() {
            Err(e) => Err(e),
            Ok(id) => Ok(SessionChangeStream { id, session_id: session.id, pipeline, options }),
        }
    }

    /// The position of `id` among the live handles, if it is live.
    fn find_live(&self, id: u64) -> (r: Option<usize>)
        ensures
            r is None <==> !self.live_of().contains(id),
            r is Some ==> r->Some_0 < self.live_of().len() && self.live_of()[r->Some_0 as int]
                == id,
    {
        let mut i: usize = 0;
        while i < self.live.len()
            invariant
                i <= self.live@.len(),
                forall|j: int| 0 <= j < i ==> self.live@[j] != id,
            decreases self.live@.len() - i,
        {
            if self.live[i] == id {
                return Some(i);
            }
            i = i + 1;
        }
        None
    }

    /// Takes back handle `id`: it is no longer live, and unless the client
    /// is closed its cleanup is recorded as pending. Never waits. A handle
    /// that is not live is ignored.
    fn release_handle(&mut self, id: u64)
        requires
            old(self).wf(),
        ensures
            final(self).wf(),
            final(self).same_engine(old(self)),
            final(self).next_id_of() == old(self).next_id_of(),
            final(self).finished_of() == old(self).finished_of(),
            !old(self).live_of().contains(id) ==> *final(self) == *old(self),
            old(self).live_of().contains(id) ==> exists|i: int|
                0 <= i < old(self).live_of().len() && old(self).live_of()[i] == id && final(self).live_of() == old(self).live_of().remove(i),
            old(self).live_of().contains(id) && old(self).state_of() != ShutdownState::Closed
                ==> final(self).pending_of() == old(self).pending_of().push(id),
            old(self).live_of().contains(id) && old(self).state_of() == ShutdownState::Closed
                ==> final(self).pending_of() == old(self).pending_of(),
    {
        match self.find_live(id) {
            None => {},
            Some(i) => {
                self.live.remove(i);
                if !self.state.is_closed() {
                    self.registry.register(id);
                }
                proof {
                    let ol = old(self).live@;
                    assert forall|k: int| 0 <= k < self.live@.len() implies self.live@[k]
                        < self.next_id && !self.registry@.contains(#[trigger] self.live@[k]) by {
                        let src = if k < i { k } else { k + 1 };
                        assert(self.live@[k] == ol[src]);
                        assert(ol[src] != ol[i as int]);
                        if self.registry@.contains(self.live@[k]) {
                            let m = self.registry@.index_of(self.live@[k]);
                            if m < old(self).registry@.len() {
                                assert(old(self).registry@[m] == self.live@[k]);
                            }
                        }
                    }
                    assert forall|a: int, b: int| 0 <= a < b < self.live@.len() implies self.live@[a]
                        != self.live@[b] by {
                        let sa = if a < i { a } else { a + 1 };
                        let sb = if b < i { b } else { b + 1 };
                        assert(self.live@[a] == ol[sa]);
                        assert(self.live@[b] == ol[sb]);
                    }
                    assert forall|k: int| 0 <= k < self.registry@.len() implies #[trigger] self.registry@[k]
                        < self.next_id by {
                        if k < old(self).registry@.len() {
                            assert(self.registry@[k] == old(self).registry@[k]);
                        }
                    }
                }
            },
        }
    }

    /// Hands a session back. Never waits: its server-side end is left to the
    /// background worker or to a shutdown.
    pub fn release_session(&mut self, session: ClientSession)
        requires
            old(self).wf(),
        ensures
            final(self).wf(),
            final(self).same_engine(old(self)),
            final(self).next_id_of() == old(self).next_id_of(),
            final(self).finished_of() == old(self).finished_of(),
            !old(self).live_of().contains(session.id) ==> *final(self) == *old(self),
            old(self).live_of().contains(session.id) ==> exists|i: int|
                0 <= i < old(self).live_of().len() && old(self).live_of()[i] == session.id
                    && final(self).live_of() == old(self).live_of().remove(i),
            old(self).live_of().contains(session.id) && old(self).state_of()
                != ShutdownState::Closed ==> final(self).pending_of() == old(self).pending_of().push(
                session.id,
            ),
            old(self).live_of().contains(session.id) && old(self).state_of()
                == ShutdownState::Closed ==> final(self).pending_of() == old(self).pending_of(),
    {
        self.release_handle(session.id);
    }

    /// Hands a change stream back. Never waits: killing its cursor is left to
    /// the background worker or to a shutdown.
    pub fn release_change_stream(&mut self, stream: ChangeStream)
        requires
            old(self).wf(),
        ensures
            final(self).wf(),
            final(self).same_engine(old(self)),
            final(self).next_id_of() == old(self).next_id_of(),
            final(self).finished_of() == old(self).finished_of(),
            !old(self).live_of().contains(stream.id) ==> *final(self) == *old(self),
            old(self).live_of().contains(stream.id) ==> exists|i: int|
                0 <= i < old(self).live_of().len() && old(self).live_of()[i] == stream.id
                    && final(self).live_of() == old(self).live_of().remove(i),
            old(self).live_of().contains(stream.id) && old(self).state_of()
                != ShutdownState::Closed ==> final(self).pending_of() == old(self).pending_of().push(
                stream.id,
            ),
            old(self).live_of().contains(stream.id) && old(self).state_of()
                == ShutdownState::Closed ==> final(self).pending_of() == old(self).pending_of(),
    {
        self.release_handle(stream.id);
    }

    /// Hands a session change stream back. Never waits: killing its cursor is
    /// left to the background worker or to a shutdown.
    pub fn release_session_change_stream(&mut self, stream: SessionChangeStream)
        requires
            old(self).wf(),
        ensures
            final(self).wf(),
            final(self).same_engine(old(self)),
            final(self).next_id_of() == old(self).next_id_of(),
            final(self).finished_of() == old(self).finished_of(),
            !old(self).live_of().contains(stream.id) ==> *final(self) == *old(self),
            old(self).live_of().contains(stream.id) ==> exists|i: int|
                0 <= i < old(self).live_of().len() && old(self).live_of()[i] == stream.id
                    && final(self).live_of() == old(self).live_of().remove(i),
            old(self).live_of().contains(stream.id) && old(self).state_of()
                != ShutdownState::Closed ==> final(self).pending_of() == old(self).pending_of().push(
                stream.id,
            ),
            old(self).live_of().contains(stream.id) && old(self).state_of()
                == ShutdownState::Closed ==> final(self).pending_of() == old(self).pending_of(),
    {
        self.release_handle(stream.id);
    }

    /// One step of the background worker: finishes the oldest pending
    /// cleanup and returns its handle. A closed client runs no cleanup.
    pub fn run_cleanup(&mut self) -> (r: Option<u64>)
        requires
            old(self).wf(),
        ensures
            final(self).wf(),
            final(self).same_engine(old(self)),
            final(self).next_id_of() == old(self).next_id_of(),
            final(self).live_of() == old(self).live_of(),
            old(self).pending_of().len() == 0 ==> r is None && *final(self) == *old(self),
            old(self).pending_of().len() > 0 ==> r == Some(old(self).pending_of()[0])
                && final(self).pending_of() == old(self).pending_of().drop_first()
                && final(self).finished_of() == old(self).finished_of().push(r->Some_0),
    {
        let r = self.registry.complete_oldest();
        match r {
            None => {},
            Some(id) => {
                self.finished = Ghost(self.finished@.push(id));
                proof {
                    assert forall|k: int| 0 <= k < self.live@.len() implies self.live@[k]
                        < self.next_id && !self.registry@.contains(#[trigger] self.live@[k]) by {
                        if self.registry@.contains(self.live@[k]) {
                            let m = self.registry@.index_of(self.live@[k]);
                            assert(old(self).registry@[m + 1] == self.live@[k]);
                        }
                    }
                    assert forall|k: int| 0 <= k < self.registry@.len() implies #[trigger] self.registry@[k]
                        < self.next_id by {
                        assert(self.registry@[k] == old(self).registry@[k + 1]);
                    }
                }
            },
        }
        r
    }

    /// Runs every pending cleanup, oldest first.
    fn drain(&mut self)
        requires
            old(self).wf(),
        ensures
            final(self).wf(),
            final(self).same_engine(old(self)),
            final(self).next_id_of() == old(self).next_id_of(),
            final(self).live_of() == old(self).live_of(),
            final(self).pending_of().len() == 0,
            final(self).finished_of() == old(self).finished_of() + old(self).pending_of(),
    {
        while !self.registry.is_drained()
            invariant
                self.wf(),
                self.same_engine(old(self)),
                self.next_id_of() == old(self).next_id_of(),
                self.live_of() == old(self).live_of(),
                self.finished_of() + self.pending_of() == old(self).finished_of() + old(self).pending_of(),
            decreases self.pending_of().len(),
        {
            let ghost before_f = self.finished_of();
            let ghost before_p = self.pending_of();
            self.run_cleanup();
            assert(before_f.push(before_p[0]) + before_p.drop_first() =~= before_f + before_p);
        }
        assert(self.finished_of() + self.pending_of() =~= self.finished_of());
    }

    /// Moves an active client to shutting down: from here on it accepts no
    /// new operation. A client past that point is left as it is.
    pub fn begin_shutdown(&mut self)
        requires
            old(self).wf(),
        ensures
            final(self).wf(),
            old(self).state_of() == ShutdownState::Active ==> final(self).state_of()
                == ShutdownState::ShuttingDown,
            old(self).state_of() != ShutdownState::Active ==> *final(self) == *old(self),
            final(self).options_of() == old(self).options_of(),
            final(self).catalog_of() == old(self).catalog_of(),
            final(self).next_id_of() == old(self).next_id_of(),
            final(self).live_of() == old(self).live_of(),
            final(self).pending_of() == old(self).pending_of(),
            final(self).finished_of() == old(self).finished_of(),
    {
        if self.state.is_active() {
            self.state = self.state.begin_shutdown();
        }
    }

    /// One attempt to complete a shutdown, without waiting: it stops new
    /// operations, runs every pending cleanup, and closes the client when no
    /// handle is live any more. Returns whether the client is closed. A closed
    /// client is left as it is.
    pub fn poll_shutdown(&mut self) -> (r: bool)
        requires
            old(self).wf(),
        ensures
            final(self).wf(),
            old(self).state_of() == ShutdownState::Closed ==> r && *final(self) == *old(self),
            old(self).state_of() != ShutdownState::Closed ==> {
                &&& final(self).pending_of().len() == 0
                &&& final(self).finished_of() == old(self).finished_of() + old(self).pending_of()
                &&& r == (old(self).live_of().len() == 0)
                &&& final(self).state_of() == (if r {
                    ShutdownState::Closed
                } else {
                    ShutdownState::ShuttingDown
                })
            },
            final(self).options_of() == old(self).options_of(),
            final(self).catalog_of() == old(self).catalog_of(),
            final(self).next_id_of() == old(self).next_id_of(),
            final(self).live_of() == old(self).live_of(),
            moves_forward(old(self).state_of(), final(self).state_of()),
    {
        if self.state.is_closed() {
            return true;
        }
        self.begin_shutdown();
        self.drain();
        if self.live.len() == 0 {
            self.state = ShutdownState::Closed;
            true
        } else {
            false
        }
    }

    /// Shuts the client down, waiting for every released handle's cleanup to
    /// finish before it closes. Every handle must have been released first:
    /// with one still live, a shutdown could only wait for ever. A closed
    /// client is left as it is.
    pub fn shutdown(&mut self)
        requires
            old(self).wf(),
            old(self).state_of() != ShutdownState::Closed ==> old(self).live_of().len() == 0,
        ensures
            final(self).wf(),
            final(self).state_of() == ShutdownState::Closed,
            old(self).state_of() == ShutdownState::Closed ==> *final(self) == *old(self),
            old(self).state_of() != ShutdownState::Closed ==> final(self).finished_of() == old(self).finished_of() + old(self).pending_of(),
            final(self).pending_of().len() == 0,
            final(self).options_of() == old(self).options_of(),
            final(self).catalog_of() == old(self).catalog_of(),
            final(self).next_id_of() == old(self).next_id_of(),
            final(self).live_of() == old(self).live_of(),
    {
        self.poll_shutdown();
    }

    /// Shuts the client down at once: pending cleanups are abandoned and
    /// nothing is waited for. A closed client is left as it is.
    pub fn shutdown_immediate(&mut self)
        requires
            old(self).wf(),
        ensures
            final(self).wf(),
            final(self).state_of() == ShutdownState::Closed,
            old(self).state_of() == ShutdownState::Closed ==> *final(self) == *old(self),
            final(self).pending_of().len() == 0,
            final(self).finished_of() == old(self).finished_of(),
            final(self).options_of() == old(self).options_of(),
            final(self).catalog_of() == old(self).catalog_of(),
            final(self).next_id_of() == old(self).next_id_of(),
            final(self).live_of() == old(self).live_of(),
    {
        if self.state.is_closed() {
            return;
        }
        self.registry.abandon_all();
        self.state = ShutdownState::Closed;
    }

    /// The lifecycle state.
    pub fn state(&self) -> (r: ShutdownState)
        ensures
            r == self.state_of(),
    {
        self.state
    }

    /// How many handles are out and not yet released.
    pub fn live_handles(&self) -> (r: usize)
        ensures
            r == self.live_of().len(),
    {
        self.live.len()
    }

    /// How many released handles still wait for their cleanup.
    pub fn pending_cleanups(&self) -> (r: usize)
        ensures
            r == self.pending_of().len(),
    {
        self.registry.len()
    }
}


/// A shutdown waits for every release made before it: a handle whose cleanup
/// was pending when the shutdown began is among the finished cleanups when
/// it returns, as `shutdown` and `poll_shutdown` state of their result.
pub proof fn lemma_shutdown_observes_every_release(before: Client, after: Client, id: u64)
    requires
        before.pending_of().contains(id),
        after.finished_of() == before.finished_of() + before.pending_of(),
    ensures
        after.finished_of().contains(id),
{
    let k = before.pending_of().index_of(id);
    assert(after.finished_of()[before.finished_of().len() + k] == id);
}

} // verus!
