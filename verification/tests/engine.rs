use hubspot_fdw::column::{Cell, Column, ColumnKind};
use hubspot_fdw::engine::{ScanEngine, Step};
use hubspot_fdw::error::ScanError;
use hubspot_fdw::json::Json;
use hubspot_fdw::page::Page;
use hubspot_fdw::request::{Method, Request};
use hubspot_fdw::state::Phase;

const PAGE_ONE: &str = r#"{"results": [{"id": "1"}, {"id": "2"}], "paging": {"next": {"after": "2"}}}"#;
const PAGE_TWO: &str = r#"{"results": [{"id": "3"}]}"#;

fn engine() -> ScanEngine {
    ScanEngine::initialize(Some("secret".to_string())).unwrap()
}

fn id_column() -> Vec<Column> {
    vec![Column { name: "id".to_string(), kind: ColumnKind::String }]
}

fn id_row(id: &str) -> Result<Step, ScanError> {
    Ok(Step::Row(vec![Cell::String(id.to_string())]))
}

fn request(url: &str) -> Request {
    Request {
        method: Method::Get,
        url: url.to_string(),
        headers: vec![
            ("authorization".to_string(), "Bearer secret".to_string()),
            ("content-type".to_string(), "application/json".to_string()),
        ],
        body: String::new(),
    }
}

fn pull(engine: &mut ScanEngine) -> Result<Step, ScanError> {
    engine.pull_row(&id_column(), &vec![None])
}

fn opened(selector: &str, first_page: &str) -> ScanEngine {
    let mut e = engine();
    e.open_scan(Some(selector)).unwrap();
    e.receive(Ok(first_page.to_string())).unwrap();
    e
}

#[test]
fn initialize_needs_the_api_key() {
    match ScanEngine::initialize(None) {
        Err(error) => assert_eq!(error, ScanError::Configuration("api_key".to_string())),
        Ok(_) => panic!("initialized without a key"),
    }
    let e = engine();
    assert_eq!(e.phase(), Phase::Idle);
    assert_eq!(e.buffered(), 0);
    assert_eq!(e.position(), 0);
    assert_eq!(e.cursor(), None);
    assert!(!e.has_more());
}

#[test]
fn default_engine_is_idle_and_has_no_key() {
    let mut e = ScanEngine::default();
    assert_eq!(e.phase(), Phase::Idle);
    let first = e.open_scan(Some("deals")).unwrap();
    assert_eq!(first.headers[0], ("authorization".to_string(), "Bearer ".to_string()));
    assert_eq!(first.url, "https://api.hubapi.com/crm/v3/objects/deals?limit=100");
}

#[test]
fn host_version() {
    assert_eq!(ScanEngine::host_version_requirement(), "^0.1.0");
}

#[test]
fn open_asks_for_the_first_page_once() {
    for (selector, path) in [
        ("contacts", "/crm/v3/objects/contacts"),
        ("companies", "/crm/v3/objects/companies"),
        ("deals", "/crm/v3/objects/deals"),
    ] {
        let mut e = engine();
        let first = e.open_scan(Some(selector)).unwrap();
        let wanted = request(&format!("https://api.hubapi.com{}?limit=100", path));
        assert_eq!(first, wanted);
        assert_eq!(e.phase(), Phase::Opening);
        assert_eq!(e.buffered(), 0);
        // Until the page has come a pull hands out nothing.
        assert_eq!(pull(&mut e), Ok(Step::Fetch(wanted)));
        assert_eq!(e.phase(), Phase::Opening);
        assert_eq!(e.receive(Ok(PAGE_ONE.to_string())), Ok(2));
        assert_eq!(e.phase(), Phase::Ready);
        assert_eq!(pull(&mut e), id_row("1"));
    }
}

#[test]
fn open_rejects_an_unknown_selector() {
    let mut e = engine();
    assert_eq!(
        e.open_scan(Some("tickets")),
        Err(ScanError::UnsupportedSelector("tickets".to_string()))
    );
    assert_eq!(e.phase(), Phase::Idle);
    assert_eq!(pull(&mut e), Ok(Step::End));
    assert_eq!(e.receive(Ok(PAGE_ONE.to_string())), Ok(0));
    assert_eq!(e.buffered(), 0);
}

#[test]
fn open_needs_the_object_option() {
    let mut e = opened("contacts", PAGE_ONE);
    assert_eq!(e.open_scan(None), Err(ScanError::Configuration("object".to_string())));
    assert_eq!(e.phase(), Phase::Idle);
    assert_eq!(e.buffered(), 0);
    assert!(!e.has_more());
    assert_eq!(e.cursor(), None);
}

#[test]
fn open_drops_the_scan_before() {
    let mut e = opened("contacts", PAGE_ONE);
    assert_eq!(pull(&mut e), id_row("1"));
    let first = e.open_scan(Some("deals")).unwrap();
    assert_eq!(first.url, "https://api.hubapi.com/crm/v3/objects/deals?limit=100");
    assert_eq!(e.buffered(), 0);
    assert_eq!(e.position(), 0);
    assert_eq!(e.cursor(), None);
    assert!(!e.has_more());
}

#[test]
fn last_page_ends_the_scan_without_a_fetch() {
    let mut e = opened("contacts", PAGE_TWO);
    assert!(!e.has_more());
    assert_eq!(pull(&mut e), id_row("3"));
    assert_eq!(pull(&mut e), Ok(Step::End));
    assert_eq!(pull(&mut e), Ok(Step::End));
    assert_eq!(e.phase(), Phase::Ready);
    assert_eq!(e.position(), 1);
}

#[test]
fn exhausted_buffer_asks_for_the_page_after_the_cursor() {
    let mut e = opened("contacts", PAGE_ONE);
    assert!(e.has_more());
    assert_eq!(e.cursor(), Some("2".to_string()));
    assert_eq!(pull(&mut e), id_row("1"));
    assert_eq!(pull(&mut e), id_row("2"));
    let wanted = request("https://api.hubapi.com/crm/v3/objects/contacts?limit=100&after=2");
    assert_eq!(pull(&mut e), Ok(Step::Fetch(wanted)));
    assert_eq!(e.phase(), Phase::Refilling);
    assert_eq!(e.receive(Ok(PAGE_TWO.to_string())), Ok(3));
    assert_eq!(e.phase(), Phase::Refilled);
    assert!(!e.has_more());
    assert_eq!(pull(&mut e), id_row("3"));
    assert_eq!(e.phase(), Phase::Ready);
    assert_eq!(pull(&mut e), Ok(Step::End));
}

#[test]
fn a_pull_asks_for_one_page_only() {
    let empty_with_next = r#"{"results": [], "paging": {"next": {"after": "9"}}}"#;
    let mut e = opened("deals", empty_with_next);
    assert!(matches!(pull(&mut e), Ok(Step::Fetch(_))));
    assert_eq!(e.receive(Ok(empty_with_next.to_string())), Ok(0));
    // The pull that asked finds nothing and gives up.
    assert_eq!(pull(&mut e), Ok(Step::End));
    assert_eq!(e.phase(), Phase::Ready);
    // The next pull asks again.
    let wanted = request("https://api.hubapi.com/crm/v3/objects/deals?limit=100&after=9");
    assert_eq!(pull(&mut e), Ok(Step::Fetch(wanted)));
}

#[test]
fn stale_cursor_stays_and_is_not_used() {
    let mut e = opened("contacts", PAGE_ONE);
    pull(&mut e).unwrap();
    pull(&mut e).unwrap();
    pull(&mut e).unwrap();
    e.receive(Ok(PAGE_TWO.to_string())).unwrap();
    assert!(!e.has_more());
    assert_eq!(e.cursor(), Some("2".to_string()));
    assert_eq!(pull(&mut e), id_row("3"));
    assert_eq!(pull(&mut e), Ok(Step::End));
}

#[test]
fn next_without_cursor_asks_without_one() {
    let mut e = opened("contacts", r#"{"results": [], "paging": {"next": {}}}"#);
    assert!(e.has_more());
    assert_eq!(e.cursor(), None);
    let wanted = request("https://api.hubapi.com/crm/v3/objects/contacts?limit=100");
    assert_eq!(pull(&mut e), Ok(Step::Fetch(wanted)));
}

#[test]
fn restart_replays_the_buffer_without_a_fetch() {
    let mut e = opened("contacts", PAGE_ONE);
    assert_eq!(pull(&mut e), id_row("1"));
    assert_eq!(pull(&mut e), id_row("2"));
    e.restart_scan();
    assert_eq!(e.position(), 0);
    assert_eq!(e.buffered(), 2);
    assert!(e.has_more());
    assert_eq!(e.cursor(), Some("2".to_string()));
    assert_eq!(pull(&mut e), id_row("1"));
    assert_eq!(pull(&mut e), id_row("2"));
    // Only past the buffer does the scan fetch again.
    assert!(matches!(pull(&mut e), Ok(Step::Fetch(_))));
}

#[test]
fn restart_replays_all_pages_in_order() {
    let mut e = opened("contacts", PAGE_ONE);
    pull(&mut e).unwrap();
    pull(&mut e).unwrap();
    pull(&mut e).unwrap();
    e.receive(Ok(PAGE_TWO.to_string())).unwrap();
    assert_eq!(pull(&mut e), id_row("3"));
    e.restart_scan();
    assert_eq!(pull(&mut e), id_row("1"));
    assert_eq!(pull(&mut e), id_row("2"));
    assert_eq!(pull(&mut e), id_row("3"));
    assert_eq!(pull(&mut e), Ok(Step::End));
}

#[test]
fn restart_forgets_the_pull_that_asked() {
    let empty_with_next = r#"{"paging": {"next": {"after": "9"}}}"#;
    let mut e = opened("deals", empty_with_next);
    assert!(matches!(pull(&mut e), Ok(Step::Fetch(_))));
    e.receive(Ok(empty_with_next.to_string())).unwrap();
    assert_eq!(e.phase(), Phase::Refilled);
    e.restart_scan();
    assert_eq!(e.phase(), Phase::Ready);
    assert!(matches!(pull(&mut e), Ok(Step::Fetch(_))));
}

#[test]
fn close_drops_everything() {
    let mut e = opened("contacts", PAGE_ONE);
    pull(&mut e).unwrap();
    e.close_scan();
    assert_eq!(e.phase(), Phase::Idle);
    assert_eq!(e.buffered(), 0);
    assert_eq!(e.position(), 0);
    assert_eq!(e.cursor(), None);
    assert!(!e.has_more());
    assert_eq!(pull(&mut e), Ok(Step::End));
    // The key outlives the scan.
    let first = e.open_scan(Some("contacts")).unwrap();
    assert_eq!(first.headers[0].1, "Bearer secret");
}

#[test]
fn transport_failure_fails_the_open() {
    let mut e = engine();
    e.open_scan(Some("contacts")).unwrap();
    assert_eq!(
        e.receive(Err("connection refused".to_string())),
        Err(ScanError::Transport("connection refused".to_string()))
    );
    assert_eq!(e.phase(), Phase::Idle);
    assert_eq!(pull(&mut e), Ok(Step::End));
}

#[test]
fn malformed_body_fails_the_open() {
    let mut e = engine();
    e.open_scan(Some("contacts")).unwrap();
    match e.receive(Ok("<html>".to_string())) {
        Err(ScanError::Parse(text)) => assert_eq!(text, "expected value at line 1 column 1"),
        other => panic!("unexpected outcome: {:?}", other),
    }
    assert_eq!(e.phase(), Phase::Idle);
    assert_eq!(e.buffered(), 0);
}

#[test]
fn failure_of_a_later_page_keeps_the_buffer() {
    let mut e = opened("contacts", PAGE_ONE);
    pull(&mut e).unwrap();
    pull(&mut e).unwrap();
    assert!(matches!(pull(&mut e), Ok(Step::Fetch(_))));
    assert_eq!(
        e.receive(Err("502 Bad Gateway".to_string())),
        Err(ScanError::Transport("502 Bad Gateway".to_string()))
    );
    assert_eq!(e.phase(), Phase::Ready);
    assert_eq!(e.buffered(), 2);
    assert_eq!(e.position(), 2);
    assert!(e.has_more());
    // A new pull asks for the same page again.
    let wanted = request("https://api.hubapi.com/crm/v3/objects/contacts?limit=100&after=2");
    assert_eq!(pull(&mut e), Ok(Step::Fetch(wanted)));
    assert!(matches!(e.receive(Ok("{".to_string())), Err(ScanError::Parse(_))));
    assert_eq!(e.phase(), Phase::Ready);
    assert_eq!(e.buffered(), 2);
}

#[test]
fn a_response_that_nothing_asked_for_is_dropped() {
    let mut e = opened("contacts", PAGE_TWO);
    assert_eq!(e.receive(Ok(PAGE_ONE.to_string())), Ok(1));
    assert_eq!(e.receive(Err("late".to_string())), Ok(1));
    assert_eq!(e.buffered(), 1);
    assert!(!e.has_more());
    assert_eq!(e.phase(), Phase::Ready);
}

#[test]
fn a_row_that_fails_fails_the_pull() {
    let mut e = opened("contacts", r#"{"results": [{"id": 1}, {"id": "2"}, {"name": "x"}]}"#);
    assert_eq!(
        pull(&mut e),
        Err(ScanError::Coercion { column: "id".to_string(), kind: "String".to_string() })
    );
    assert_eq!(e.position(), 1);
    assert_eq!(pull(&mut e), id_row("2"));
    assert_eq!(pull(&mut e), Err(ScanError::ColumnNotFound("id".to_string())));
    assert_eq!(pull(&mut e), Ok(Step::End));
}

#[test]
fn timestamp_texts_are_those_of_the_next_record() {
    let mut e = opened(
        "deals",
        r#"{"results": [{"id": "1", "createdAt": "2024-01-02T03:04:05Z"}, {"id": "2", "createdAt": 5}]}"#,
    );
    let columns = vec![
        Column { name: "id".to_string(), kind: ColumnKind::String },
        Column { name: "createdAt".to_string(), kind: ColumnKind::Timestamp },
    ];
    assert_eq!(
        e.timestamp_texts(&columns),
        vec![None, Some("2024-01-02T03:04:05Z".to_string())]
    );
    assert_eq!(
        e.pull_row(&columns, &vec![None, Some(1_704_164_645_000_000)]),
        Ok(Step::Row(vec![
            Cell::String("1".to_string()),
            Cell::Timestamp(1_704_164_645_000_000),
        ]))
    );
    assert_eq!(e.timestamp_texts(&columns), vec![None, None]);
    assert_eq!(
        e.pull_row(&columns, &vec![None, None]),
        Err(ScanError::Coercion { column: "createdAt".to_string(), kind: "Timestamp".to_string() })
    );
    assert_eq!(e.timestamp_texts(&columns), Vec::<Option<String>>::new());
}

#[test]
fn timestamp_texts_are_empty_while_no_record_is_due() {
    let columns = vec![Column { name: "t".to_string(), kind: ColumnKind::Timestamp }];
    let mut e = engine();
    assert!(e.timestamp_texts(&columns).is_empty());
    e.open_scan(Some("deals")).unwrap();
    assert!(e.timestamp_texts(&columns).is_empty());
    e.receive(Ok(r#"{"results": [{"t": "x"}]}"#.to_string())).unwrap();
    assert_eq!(e.timestamp_texts(&columns), vec![Some("x".to_string())]);
}

#[test]
fn writes_are_refused() {
    let e = engine();
    let row = vec![Cell::Bool(true), Cell::String("x".to_string())];
    let id = Cell::String("1".to_string());
    assert_eq!(e.begin_write(), Err(ScanError::ReadOnly));
    assert_eq!(e.insert(&row), Err(ScanError::ReadOnly));
    assert_eq!(e.insert(&vec![]), Err(ScanError::ReadOnly));
    assert_eq!(e.update(&id, &row), Err(ScanError::ReadOnly));
    assert_eq!(e.delete(&id), Err(ScanError::ReadOnly));
    assert_eq!(e.delete(&Cell::Timestamp(0)), Err(ScanError::ReadOnly));
    assert_eq!(e.end_write(), Err(ScanError::ReadOnly));
    assert_eq!(e.end_write().unwrap_err().message(), "This FDW is read-only");
}

#[test]
fn writes_are_refused_during_a_scan() {
    let e = opened("contacts", PAGE_ONE);
    assert_eq!(e.begin_write(), Err(ScanError::ReadOnly));
    assert_eq!(e.insert(&vec![Cell::Json("{}".to_string())]), Err(ScanError::ReadOnly));
    assert_eq!(e.buffered(), 2);
}

#[test]
fn accept_takes_a_page_in() {
    let mut e = engine();
    e.open_scan(Some("contacts")).unwrap();
    let page = Page {
        has_next: true,
        cursor: Some("c1".to_string()),
        records: vec![Json::parse(r#"{"id": "a"}"#).unwrap()],
    };
    assert_eq!(e.accept(page), 1);
    assert_eq!(e.phase(), Phase::Ready);
    assert_eq!(e.cursor(), Some("c1".to_string()));
    assert!(e.has_more());
    // A page that nothing asked for is dropped.
    let late = Page { has_next: false, cursor: None, records: vec![Json::Null] };
    assert_eq!(e.accept(late), 1);
    assert!(e.has_more());
}

#[test]
fn abandon_gives_up_the_fetch() {
    let mut e = engine();
    e.abandon();
    assert_eq!(e.phase(), Phase::Idle);
    e.open_scan(Some("contacts")).unwrap();
    e.abandon();
    assert_eq!(e.phase(), Phase::Idle);
    let mut e = opened("contacts", PAGE_ONE);
    e.abandon();
    assert_eq!(e.phase(), Phase::Ready);
    assert_eq!(e.buffered(), 2);
}
