//! What holds of the engine over a whole scan.

use crate::column::{coerced, CellView, Column, ColumnKind};
use crate::engine::write_refused;
use crate::error::{Failure, ScanError};
use crate::json::{rendered, Json};
use crate::project::projected_cell;
use crate::request::{page_request, selector_named, RequestView};
use crate::resolve::resolve;
use crate::state::{Next, Phase, ScanState};
use vstd::prelude::*;

verus! {

/// Opening a scan of a supported collection asks for its first page, without
/// a cursor, and for nothing else: until that page has come a pull hands out
/// no record and only repeats the request, and once it has come the scan is
/// ready. Opening a scan of anything else fails, names the selector, and
/// asks for nothing: the engine is idle, and a pull finds the scan exhausted.
pub proof fn lemma_open_asks_once(
    state: ScanState,
    name: Seq<char>,
    has_next: bool,
    cursor: Option<Seq<char>>,
    records: Seq<Json>,
)
    ensures
        ({
            let (opening, outcome) = state.opened(Some(name));
            match selector_named(name) {
                Some(selector) => {
                    &&& outcome == Ok::<RequestView, Failure>(
                        page_request(state.base_url, state.api_key, selector, None),
                    )
                    &&& opening.phase is Opening
                    &&& opening.rows.len() == 0
                    &&& opening.next() == (opening, Next::Fetch(outcome->Ok_0))
                    &&& opening.received(has_next, cursor, records).phase is Ready
                    &&& opening.received(has_next, cursor, records).rows == records
                },
                None => {
                    &&& outcome == Err::<RequestView, Failure>(Failure::UnsupportedSelector(name))
                    &&& opening.phase is Idle
                    &&& opening.next() == (opening, Next::Exhausted)
                },
            }
        }),
{
}

/// Once a page without a next page has come, no pull asks for a page again:
/// each hands out a buffered record or, where none is left, finds the scan
/// exhausted.
pub proof fn lemma_last_page_ends_scan(
    state: ScanState,
    cursor: Option<Seq<char>>,
    records: Seq<Json>,
    pulls: nat,
)
    requires
        state.awaiting(),
    ensures
        ({
            let last = state.received(false, cursor, records);
            let then = last.after_pulls(pulls);
            &&& !last.has_more
            &&& !then.has_more
            &&& !(then.next().1 is Fetch)
            &&& !then.unread() ==> then.next().1 is Exhausted
        }),
{
    lemma_no_fetch_without_more(state.received(false, cursor, records), pulls);
}

/// A scan that awaits nothing and knows of no further page asks for none,
/// however often it is pulled.
pub proof fn lemma_no_fetch_without_more(state: ScanState, pulls: nat)
    requires
        !state.awaiting(),
        !state.has_more,
    ensures
        ({
            let then = state.after_pulls(pulls);
            &&& !then.awaiting()
            &&& !then.has_more
            &&& !(then.next().1 is Fetch)
            &&& !then.unread() ==> then.next().1 is Exhausted
        }),
    decreases pulls,
{
    if pulls > 0 {
        lemma_no_fetch_without_more(state, (pulls - 1) as nat);
    }
}

/// Once a page has come that names a next page and its cursor, every
/// request that a later pull makes is for the page after that cursor, and a
/// pull that finds the buffer used up makes one.
pub proof fn lemma_next_fetch_carries_cursor(
    state: ScanState,
    token: Seq<char>,
    records: Seq<Json>,
    pulls: nat,
)
    requires
        state.well_formed(),
        state.awaiting(),
    ensures
        ({
            let then = state.received(true, Some(token), records).after_pulls(pulls);
            let request = page_request(
                state.base_url,
                state.api_key,
                state.selector->0,
                Some(token),
            );
            &&& request.url == state.base_url + state.selector->0.endpoint() + "?limit=100"@
                + "&after="@ + token
            &&& then.next().1 is Fetch ==> then.next().1 == Next::Fetch(request)
            &&& then.phase is Ready && !then.unread() ==> then.next().1 is Fetch
        }),
{
    let arrived = state.received(true, Some(token), records);
    lemma_pulls_keep_request(arrived, pulls);
    let request = arrived.request();
    assert(request.url =~= state.base_url + state.selector->0.endpoint() + "?limit=100"@
        + "&after="@ + token);
}

/// Pulls change neither what the engine asks for nor whether it knows of a
/// further page.
pub proof fn lemma_pulls_keep_request(state: ScanState, pulls: nat)
    ensures
        state.after_pulls(pulls).request() == state.request(),
        state.after_pulls(pulls).has_more == state.has_more,
        state.after_pulls(pulls).rows == state.rows,
    decreases pulls,
{
    if pulls > 0 {
        lemma_pulls_keep_request(state, (pulls - 1) as nat);
    }
}

/// After a restart the pulls hand out the buffered records again, from the
/// first on and in the order in which they came, and ask for no page on the
/// way: the pull that follows `index` others hands out the record at
/// `index`.
pub proof fn lemma_restart_replays(state: ScanState, index: nat)
    requires
        state.phase is Ready || state.phase is Refilled,
        index < state.rows.len(),
    ensures
        ({
            let then = state.restarted().after_pulls(index);
            &&& then == (ScanState { position: index, phase: Phase::Ready, ..state })
            &&& then.next().1 == Next::Record(state.rows[index as int])
        }),
    decreases index,
{
    if index > 0 {
        lemma_restart_replays(state, (index - 1) as nat);
    }
}

/// A page that comes joins the buffer at its end: the records that were
/// there stay where they are, so a record is handed out at the same place in
/// every pass.
pub proof fn lemma_pages_append(
    state: ScanState,
    has_next: bool,
    cursor: Option<Seq<char>>,
    records: Seq<Json>,
    index: int,
)
    requires
        0 <= index < state.rows.len(),
    ensures
        state.received(has_next, cursor, records).rows.len() >= state.rows.len(),
        state.received(has_next, cursor, records).rows[index] == state.rows[index],
        state.received(has_next, cursor, records).position == state.position,
{
}

/// Every transition keeps the state well formed.
pub proof fn lemma_well_formed_stays(
    state: ScanState,
    object: Option<Seq<char>>,
    has_next: bool,
    cursor: Option<Seq<char>>,
    records: Seq<Json>,
)
    requires
        state.well_formed(),
    ensures
        ScanState::initial(state.api_key).well_formed(),
        state.cleared().well_formed(),
        state.opened(object).0.well_formed(),
        state.received(has_next, cursor, records).well_formed(),
        state.failed().well_formed(),
        state.next().0.well_formed(),
        state.restarted().well_formed(),
{
}

/// A column of kind JSON takes any value: the cell holds the value's JSON
/// text, whatever the value is and whatever the timestamp parser said.
pub proof fn lemma_json_column_takes_anything(
    record: Json,
    name: String,
    value: Json,
    instant: Option<i64>,
)
    requires
        resolve(record, name@) == Some(value),
    ensures
        coerced(value, ColumnKind::Json, instant) == Some(CellView::Json(rendered(value))),
        projected_cell(record, Column { name, kind: ColumnKind::Json }, instant) == Ok::<
            CellView,
            Failure,
        >(CellView::Json(rendered(value))),
{
}

/// Every write is refused in the same way.
pub proof fn lemma_writes_refused_alike()
    ensures
        write_refused() == Err::<(), ScanError>(ScanError::ReadOnly),
        write_refused()->Err_0@.message() == "This FDW is read-only"@,
{
}

} // verus!
