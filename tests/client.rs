use sync_client::client::{Client, ClientSession};
use sync_client::error::Error;
use sync_client::lifecycle::ShutdownState;
use sync_client::options::{
    ChangeStreamOptions, ClientOptions, DatabaseFilter, DatabaseOptions, DatabaseSpecification,
    ReadConcern, SelectionCriteria, SessionOptions, WriteConcern,
};

fn db_entry(name: &str, size: u64, empty: bool) -> DatabaseSpecification {
    DatabaseSpecification { name: name.to_string(), size_on_disk: size, empty }
}

fn options(hosts: &str) -> ClientOptions {
    ClientOptions {
        hosts: hosts.to_string(),
        default_database: None,
        selection_criteria: Some(SelectionCriteria::Secondary),
        read_concern: Some(ReadConcern::Majority),
        write_concern: Some(WriteConcern { w: Some(2), journal: Some(true) }),
    }
}

fn catalogued() -> Client {
    let mut c = Client::with_options(options("a:27017")).unwrap();
    c.observe_catalog(vec![db_entry("admin", 40, false), db_entry("items", 100, false), db_entry("scratch", 0, true)])
        .unwrap();
    c
}

fn names(c: &Client, filter: Option<DatabaseFilter>) -> Vec<String> {
    c.list_database_names(filter).unwrap()
}

#[test]
fn parse_plain_uri_with_database() {
    let o = ClientOptions::parse("mongodb://h1:27017,h2/inventory?w=majority").unwrap();
    assert_eq!(o.hosts, "h1:27017,h2");
    assert_eq!(o.default_database, Some("inventory".to_string()));
    assert!(o.selection_criteria.is_none());
}

#[test]
fn parse_srv_uri_without_database() {
    let o = ClientOptions::parse("mongodb+srv://cluster.example.com").unwrap();
    assert_eq!(o.hosts, "cluster.example.com");
    assert_eq!(o.default_database, None);
}

#[test]
fn parse_uri_with_empty_database_or_only_options() {
    let o = ClientOptions::parse("mongodb://h/?replicaSet=rs").unwrap();
    assert_eq!(o.hosts, "h");
    assert_eq!(o.default_database, None);
    let o = ClientOptions::parse("mongodb://h?replicaSet=rs").unwrap();
    assert_eq!(o.hosts, "h");
    assert_eq!(o.default_database, None);
}

#[test]
fn parse_rejects_bad_uris() {
    assert_eq!(ClientOptions::parse("http://h").unwrap_err(), Error::InvalidUri);
    assert_eq!(ClientOptions::parse("mongodb://").unwrap_err(), Error::InvalidUri);
    assert_eq!(ClientOptions::parse("mongodb:///db").unwrap_err(), Error::InvalidUri);
    assert_eq!(ClientOptions::parse("").unwrap_err(), Error::InvalidUri);
    assert_eq!(ClientOptions::parse("mongodb:/h").unwrap_err(), Error::InvalidUri);
}

#[test]
fn with_uri_str_gives_default_database() {
    let c = Client::with_uri_str("mongodb://example.com/items").unwrap();
    let d = c.default_database().unwrap();
    assert_eq!(d.name, "items");
    assert_eq!(c.state(), ShutdownState::Active);
    assert!(Client::with_uri_str("mongodb://example.com").unwrap().default_database().is_none());
    assert_eq!(Client::with_uri_str("example.com").err(), Some(Error::InvalidUri));
}

#[test]
fn with_options_needs_a_host() {
    assert_eq!(Client::with_options(options("")).err(), Some(Error::InvalidArgument));
    let c = Client::with_options(options("h")).unwrap();
    assert_eq!(c.selection_criteria(), Some(SelectionCriteria::Secondary));
    assert_eq!(c.read_concern(), Some(ReadConcern::Majority));
    assert_eq!(c.write_concern(), Some(WriteConcern { w: Some(2), journal: Some(true) }));
}

#[test]
fn database_inherits_and_overrides_defaults() {
    let c = Client::with_options(options("h")).unwrap();
    let d = c.database("items");
    assert_eq!(d.name, "items");
    assert_eq!(d.selection_criteria, Some(SelectionCriteria::Secondary));
    assert_eq!(d.read_concern, Some(ReadConcern::Majority));
    let o = DatabaseOptions { selection_criteria: Some(SelectionCriteria::Nearest), read_concern: None, write_concern: Some(WriteConcern { w: None, journal: None }) };
    let d = c.database_with_options("logs", o);
    assert_eq!(d.name, "logs");
    assert_eq!(d.selection_criteria, Some(SelectionCriteria::Nearest));
    assert_eq!(d.read_concern, Some(ReadConcern::Majority));
    assert_eq!(d.write_concern, Some(WriteConcern { w: None, journal: None }));
}

#[test]
fn list_databases_filters_in_order() {
    let c = catalogued();
    let all = c.list_databases(None).unwrap();
    assert_eq!(all.len(), 3);
    assert_eq!(all[1].name, "items");
    assert_eq!(all[1].size_on_disk, 100);
    assert_eq!(names(&c, None), vec!["admin", "items", "scratch"]);
    let by_name = DatabaseFilter { name: Some("items".to_string()), empty: None };
    assert_eq!(names(&c, Some(by_name)), vec!["items"]);
    let non_empty = DatabaseFilter { name: None, empty: Some(false) };
    assert_eq!(names(&c, Some(non_empty)), vec!["admin", "items"]);
    let none = DatabaseFilter { name: Some("nope".to_string()), empty: None };
    assert!(c.list_databases(Some(none)).unwrap().is_empty());
}

#[test]
fn handles_get_distinct_ids() {
    let mut c = catalogued();
    let s = c.start_session(Some(SessionOptions { causal_consistency: Some(true), snapshot: None })).unwrap();
    let w = c.watch(vec!["{\"$match\": {}}".to_string()], Some(ChangeStreamOptions { batch_size: Some(10), full_document: None })).unwrap();
    let ws = c.watch_with_session(vec![], None, &s).unwrap();
    assert_eq!((s.id, w.id, ws.id), (0, 1, 2));
    assert_eq!(ws.session_id, s.id);
    assert_eq!(w.pipeline, vec!["{\"$match\": {}}".to_string()]);
    assert_eq!(c.live_handles(), 3);
}

#[test]
fn watch_with_unknown_session_is_refused() {
    let mut c = catalogued();
    let stray = ClientSession { id: 7, options: None };
    assert_eq!(c.watch_with_session(vec![], None, &stray).err(), Some(Error::UnknownHandle));
    assert_eq!(c.live_handles(), 0);
}

#[test]
fn release_defers_cleanup_to_the_worker() {
    let mut c = catalogued();
    let s = c.start_session(None).unwrap();
    let w = c.watch(vec![], None).unwrap();
    c.release_change_stream(w);
    c.release_session(s);
    assert_eq!(c.live_handles(), 0);
    assert_eq!(c.pending_cleanups(), 2);
    assert_eq!(c.run_cleanup(), Some(1));
    assert_eq!(c.run_cleanup(), Some(0));
    assert_eq!(c.run_cleanup(), None);
}

#[test]
fn release_of_unknown_handle_is_ignored() {
    let mut c = catalogued();
    c.release_session(ClientSession { id: 3, options: None });
    assert_eq!(c.pending_cleanups(), 0);
}

#[test]
fn released_handle_is_cleaned_before_shutdown_returns() {
    let mut c = catalogued();
    let s = c.start_session(None).unwrap();
    let ws = c.watch_with_session(vec![], None, &s).unwrap();
    c.release_session_change_stream(ws);
    c.release_session(s);
    assert_eq!(c.pending_cleanups(), 2);
    c.shutdown();
    assert_eq!(c.pending_cleanups(), 0);
    assert_eq!(c.state(), ShutdownState::Closed);
    assert_eq!(c.run_cleanup(), None);
}

#[test]
fn operations_after_shutdown_fail_closed() {
    let mut c = catalogued();
    c.shutdown();
    for _ in 0..3 {
        assert_eq!(c.list_databases(None).err(), Some(Error::ClientClosed));
        assert_eq!(c.list_database_names(None).err(), Some(Error::ClientClosed));
        assert_eq!(c.start_session(None).err(), Some(Error::ClientClosed));
        assert_eq!(c.watch(vec![], None).err(), Some(Error::ClientClosed));
        let s = ClientSession { id: 0, options: None };
        assert_eq!(c.watch_with_session(vec![], None, &s).err(), Some(Error::ClientClosed));
        assert_eq!(c.observe_catalog(vec![]).err(), Some(Error::ClientClosed));
    }
}

#[test]
fn shutdown_immediate_abandons_pending_and_live() {
    let mut c = catalogued();
    let s = c.start_session(None).unwrap();
    let w = c.watch(vec![], None).unwrap();
    c.release_change_stream(w);
    c.shutdown_immediate();
    assert_eq!(c.state(), ShutdownState::Closed);
    assert_eq!(c.pending_cleanups(), 0);
    assert_eq!(c.live_handles(), 1);
    assert_eq!(c.start_session(None).err(), Some(Error::ClientClosed));
    c.release_session(s);
    assert_eq!(c.live_handles(), 0);
    assert_eq!(c.pending_cleanups(), 0);
}

#[test]
fn second_shutdown_is_a_no_op() {
    let mut c = catalogued();
    c.shutdown();
    c.shutdown();
    c.shutdown_immediate();
    assert_eq!(c.state(), ShutdownState::Closed);
    assert_eq!(c.list_databases(None).err(), Some(Error::ClientClosed));
    let mut d = catalogued();
    d.shutdown_immediate();
    d.shutdown_immediate();
    d.shutdown();
    assert_eq!(d.state(), ShutdownState::Closed);
    assert_eq!(d.start_session(None).err(), Some(Error::ClientClosed));
}

#[test]
fn poll_shutdown_waits_for_live_handles() {
    let mut c = catalogued();
    let s = c.start_session(None).unwrap();
    let w = c.watch(vec![], None).unwrap();
    c.release_change_stream(w);
    assert!(!c.poll_shutdown());
    assert_eq!(c.state(), ShutdownState::ShuttingDown);
    assert_eq!(c.pending_cleanups(), 0);
    assert_eq!(c.list_databases(None).err(), Some(Error::ClientClosed));
    c.release_session(s);
    assert_eq!(c.pending_cleanups(), 1);
    assert!(c.poll_shutdown());
    assert_eq!(c.pending_cleanups(), 0);
    assert_eq!(c.state(), ShutdownState::Closed);
}

#[test]
fn begin_shutdown_stops_new_work() {
    let mut c = catalogued();
    c.begin_shutdown();
    assert_eq!(c.state(), ShutdownState::ShuttingDown);
    assert_eq!(c.watch(vec![], None).err(), Some(Error::ClientClosed));
    c.begin_shutdown();
    assert_eq!(c.state(), ShutdownState::ShuttingDown);
}

#[test]
fn hundred_callers_get_their_own_results() {
    let mut c = catalogued();
    let mut sessions = Vec::new();
    for i in 0..100u64 {
        let wanted = if i % 2 == 0 { "items" } else { "admin" };
        let f = DatabaseFilter { name: Some(wanted.to_string()), empty: None };
        assert_eq!(names(&c, Some(f)), vec![wanted]);
        let s = c.start_session(None).unwrap();
        assert_eq!(s.id, i);
        sessions.push(s);
    }
    assert_eq!(c.live_handles(), 100);
    for s in sessions {
        c.release_session(s);
    }
    assert_eq!(c.pending_cleanups(), 100);
    c.shutdown();
    assert_eq!(c.pending_cleanups(), 0);
}
