//! The scan engine: the state of one scan, and the calls that drive it.

use crate::column::{Cell, CellView, Column};
use crate::error::{Failure, ScanError};
use crate::json::{parsed, Json};
use crate::page::{cursor_view, has_next, next_cursor, results, Page};
use crate::project::{
    project_row, projected_row, requested_texts, row_view, texts_view, timestamp_texts,
};
use crate::request::{build_request, Request, RequestView, Selector};
use crate::state::{Next, Phase, ScanState};
use vstd::prelude::*;
use vstd::string::*;

verus! {

/// What a pull of a row comes to.
#[derive(Debug, PartialEq, Eq)]
pub enum Step {
    /// The next row.
    Row(Vec<Cell>),
    /// This page has to be fetched and handed to `receive`; then the pull is
    /// made again.
    Fetch(Request),
    /// The scan has no further row.
    End,
}

/// What a `Step` holds, as the contracts speak of it.
pub enum StepView {
    Row(Seq<CellView>),
    Fetch(RequestView),
    End,
}

impl View for Step {
    type V = StepView;

    open spec fn view(&self) -> StepView {
        match self {
            Step::Row(cells) => StepView::Row(row_view(cells@)),
            Step::Fetch(request) => StepView::Fetch(request@),
            Step::End => StepView::End,
        }
    }
}

/// The outcome of an operation as the contracts speak of it.
pub open spec fn step_view(outcome: Result<Step, ScanError>) -> Result<StepView, Failure> {
    match outcome {
        Ok(step) => Ok(step@),
        Err(error) => Err(error@),
    }
}

/// What a pull of a row comes to in `state`: the row that the record at the
/// read position gives for `columns`, the request that has to be served
/// first, or the end of the scan.
pub open spec fn pulled(
    state: ScanState,
    columns: Seq<Column>,
    instants: Seq<Option<i64>>,
) -> Result<StepView, Failure> {
    match state.next().1 {
        Next::Record(record) => match projected_row(record, columns, instants) {
            Ok(cells) => Ok(StepView::Row(cells)),
            Err(failure) => Err(failure),
        },
        Next::Fetch(request) => Ok(StepView::Fetch(request)),
        Next::Exhausted => Ok(StepView::End),
    }
}

/// The name of an object as the contracts speak of it.
pub open spec fn object_view(object: Option<&str>) -> Option<Seq<char>> {
    match object {
        Some(name) => Some(name@),
        None => None,
    }
}

/// The document that a response carries: what its body reads as, where the
/// request was answered and the body is JSON.
pub open spec fn document_of(response: Result<String, String>) -> Option<Json> {
    match response {
        Ok(body) => parsed(body@),
        Err(_) => None,
    }
}

/// The state once `response` has come: the page that it carries is taken
/// in, or the fetch has failed. A response that nothing asked for changes
/// nothing.
pub open spec fn responded(state: ScanState, response: Result<String, String>) -> ScanState {
    if state.awaiting() {
        match document_of(response) {
            None => state.failed(),
            Some(document) => state.received(
                has_next(document),
                next_cursor(document),
                results(document),
            ),
        }
    } else {
        state
    }
}

/// What every write comes to: the engine only reads.
pub open spec fn write_refused() -> Result<(), ScanError> {
    Err(ScanError::ReadOnly)
}

/// The engine. It holds the state of at most one scan.
#[derive(Debug)]
pub struct ScanEngine {
    api_key: String,
    base_url: String,
    selector: Option<Selector>,
    rows: Vec<Json>,
    position: usize,
    cursor: Option<String>,
    has_more: bool,
    phase: Phase,
}

impl View for ScanEngine {
    type V = ScanState;

    closed spec fn view(&self) -> ScanState {
        ScanState {
            api_key: self.api_key@,
            base_url: self.base_url@,
            selector: self.selector,
            rows: self.rows@,
            position: self.position as nat,
            cursor: cursor_view(self.cursor),
            has_more: self.has_more,
            phase: self.phase,
        }
    }
}

impl Default for ScanEngine {
    /// An idle engine without an API key.
    fn default() -> (engine: ScanEngine)
        ensures
            engine@ == ScanState::initial(Seq::empty()),
    {
        ScanEngine {
            api_key: String::new(),
            base_url: String::from_str("https://api.hubapi.com"),
            selector: None,
            rows: Vec::new(),
            position: 0,
            cursor: None,
            has_more: false,
            phase: Phase::Idle,
        }
    }
}

impl ScanEngine {
    /// The state of an engine is well formed at all times.
    #[verifier::type_invariant]
    spec fn holds(self) -> bool {
        self@.well_formed()
    }

    /// Starts the engine with the API key of the connection. The key is
    /// required.
    pub fn initialize(api_key: Option<String>) -> (outcome: Result<ScanEngine, ScanError>)
        ensures
            match outcome {
                Ok(engine) => api_key matches Some(key) && engine@ == ScanState::initial(key@),
                Err(error) => api_key is None && error@ == Failure::Configuration("api_key"@),
            },
    {
        match api_key {
            Some(key) => {
                let mut engine = ScanEngine::default();
                engine.api_key = key;
                Ok(engine)
            },
            None => Err(ScanError::Configuration(String::from_str("api_key"))),
        }
    }

    /// The versions of the host that the engine works with.
    pub fn host_version_requirement() -> (requirement: String)
        ensures
            requirement@ == "^0.1.0"@,
    {
        String::from_str("^0.1.0")
    }

    /// The number of records in the buffer.
    pub fn buffered(&self) -> (count: usize)
        ensures
            count == self@.rows.len(),
    {
        self.rows.len()
    }

    /// The index of the next record to hand out.
    pub fn position(&self) -> (position: usize)
        ensures
            position == self@.position,
    {
        self.position
    }

    /// Whether the last page described a next page.
    pub fn has_more(&self) -> (more: bool)
        ensures
            more == self@.has_more,
    {
        self.has_more
    }

    /// The cursor that the next request carries.
    pub fn cursor(&self) -> (cursor: Option<String>)
        ensures
            cursor_view(cursor) == self@.cursor,
    {
        match &self.cursor {
            Some(token) => Some(token.clone()),
            None => None,
        }
    }

    /// Where the scan stands.
    pub fn phase(&self) -> (phase: Phase)
        ensures
            phase == self@.phase,
    {
        self.phase
    }

    /// Drops the scan: the buffer, the read position, the cursor and the
    /// knowledge of further pages.
    fn clear(&mut self)
        ensures
            final(self)@ == old(self)@.cleared(),
    {
        proof {
            use_type_invariant(&*self);
        }
        self.phase = Phase::Idle;
        self.selector = None;
        self.position = 0;
        self.rows = Vec::new();
        self.cursor = None;
        self.has_more = false;
    }

    /// Adds `records` at the end of the buffer. The buffer is taken out,
    /// extended and put back; the read position rests at zero meanwhile, so
    /// that it lies within the buffer at every step.
    fn extend(&mut self, records: Vec<Json>)
        ensures
            final(self)@ == (ScanState { rows: old(self)@.rows + records@, ..old(self)@ }),
    {
        proof {
            use_type_invariant(&*self);
        }
        let mut records = records;
        let mut rows: Vec<Json> = Vec::new();
        let position = self.position;
        self.position = 0;
        core::mem::swap(&mut self.rows, &mut rows);
        rows.append(&mut records);
        self.rows = rows;
        self.position = position;
    }

    /// Builds the request for the next page of the collection under scan.
    fn request(&self) -> (request: Request)
        requires
            self@.selector is Some,
        ensures
            request@ == self@.request(),
    {
        build_request(
            self.base_url.as_str(),
            self.api_key.as_str(),
            self.selector.unwrap(),
            &self.cursor,
        )
    }

    /// Opens a scan of the collection that `object` names. Whatever an
    /// earlier scan left is dropped. The request that comes back is for the
    /// first page; its response goes to `receive`.
    pub fn open_scan(&mut self, object: Option<&str>) -> (outcome: Result<Request, ScanError>)
        ensures
            final(self)@ == old(self)@.opened(object_view(object)).0,
            final(self)@.well_formed(),
            match outcome {
                Ok(request) => old(self)@.opened(object_view(object)).1 == Ok::<
                    RequestView,
                    Failure,
                >(request@),
                Err(error) => old(self)@.opened(object_view(object)).1 == Err::<
                    RequestView,
                    Failure,
                >(error@),
            },
    {
        self.clear();
        match object {
            None => Err(ScanError::Configuration(String::from_str("object"))),
            Some(name) => match Selector::named(name) {
                None => Err(ScanError::UnsupportedSelector(name.to_owned())),
                Some(selector) => {
                    self.selector = Some(selector);
                    self.phase = Phase::Opening;
                    Ok(self.request())
                },
            },
        }
    }

    /// Takes in a page that was asked for, and gives the number of records
    /// that the buffer then holds.
    pub fn accept(&mut self, page: Page) -> (count: usize)
        ensures
            final(self)@ == old(self)@.received(
                page.has_next,
                cursor_view(page.cursor),
                page.records@,
            ),
            final(self)@.well_formed(),
            count == final(self)@.rows.len(),
    {
        proof {
            use_type_invariant(&*self);
        }
        let next_phase = match self.phase {
            Phase::Opening => Phase::Ready,
            Phase::Refilling => Phase::Refilled,
            _ => {
                return self.rows.len();
            },
        };
        let Page { has_next, cursor, records } = page;
        self.extend(records);
        self.has_more = has_next;
        if has_next {
            self.cursor = cursor;
        }
        self.phase = next_phase;
        self.rows.len()
    }

    /// Notes that the page that was asked for will not come.
    pub fn abandon(&mut self)
        ensures
            final(self)@ == old(self)@.failed(),
            final(self)@.well_formed(),
    {
        proof {
            use_type_invariant(&*self);
        }
        match self.phase {
            Phase::Opening => {
                self.clear();
            },
            Phase::Refilling => {
                self.phase = Phase::Ready;
            },
            _ => {},
        }
    }

    /// Takes the response to the request that `open_scan` or `pull_row`
    /// gave: the body, or the transport's message where the request failed.
    /// Gives the number of records that the buffer then holds. A response
    /// that nothing asked for is dropped.
    pub fn receive(&mut self, response: Result<String, String>) -> (outcome: Result<
        usize,
        ScanError,
    >)
        ensures
            final(self)@.well_formed(),
            final(self)@ == responded(old(self)@, response),
            match outcome {
                Ok(count) => count == final(self)@.rows.len() && (old(self)@.awaiting()
                    ==> document_of(response) is Some),
                Err(error) => old(self)@.awaiting() && document_of(response) is None
                    && match response {
                    Err(reason) => error@ == Failure::Transport(reason@),
                    Ok(_) => error is Parse,
                },
            },
    {
        proof {
            use_type_invariant(&*self);
        }
        match self.phase {
            Phase::Opening | Phase::Refilling => {},
            _ => {
                return Ok(self.rows.len());
            },
        }
        match response {
            Err(reason) => {
                self.abandon();
                Err(ScanError::Transport(reason))
            },
            Ok(body) => match Json::parse(body.as_str()) {
                Err(error) => {
                    self.abandon();
                    Err(error)
                },
                Ok(document) => Ok(self.accept(Page::read(document))),
            },
        }
    }

    /// The record that the next pull hands out, if it hands one out.
    pub fn pending_record(&self) -> (record: Option<&Json>)
        ensures
            match record {
                Some(pending) => self@.pending() == Some(*pending),
                None => self@.pending() is None,
            },
    {
        match self.phase {
            Phase::Ready | Phase::Refilled => {
                if self.position < self.rows.len() {
                    Some(&self.rows[self.position])
                } else {
                    None
                }
            },
            _ => None,
        }
    }

    /// Lists, for each column, the text that the timestamp parser is to
    /// read before the next pull: the value of each timestamp column that is
    /// a string in the record which that pull hands out. Where the pull
    /// hands out no record the list is empty.
    pub fn timestamp_texts(&self, columns: &Vec<Column>) -> (texts: Vec<Option<String>>)
        ensures
            texts_view(texts@) == match self@.pending() {
                Some(record) => requested_texts(record, columns@),
                None => Seq::empty(),
            },
    {
        match self.pending_record() {
            Some(record) => timestamp_texts(record, columns),
            None => Vec::new(),
        }
    }

    /// Pulls the next row. `instants` holds, for each column, what the
    /// timestamp parser made of the text that `timestamp_texts` lists for
    /// it. A row that cannot be built fails the pull; its record is not
    /// handed out again.
    pub fn pull_row(&mut self, columns: &Vec<Column>, instants: &Vec<Option<i64>>) -> (outcome:
        Result<Step, ScanError>)
        ensures
            final(self)@ == old(self)@.next().0,
            final(self)@.well_formed(),
            step_view(outcome) == pulled(old(self)@, columns@, instants@),
    {
        proof {
            use_type_invariant(&*self);
        }
        match self.phase {
            Phase::Idle => Ok(Step::End),
            Phase::Opening | Phase::Refilling => Ok(Step::Fetch(self.request())),
            Phase::Ready => {
                if self.position < self.rows.len() {
                    self.hand_out(columns, instants)
                } else if self.has_more {
                    self.phase = Phase::Refilling;
                    Ok(Step::Fetch(self.request()))
                } else {
                    Ok(Step::End)
                }
            },
            Phase::Refilled => {
                if self.position < self.rows.len() {
                    self.hand_out(columns, instants)
                } else {
                    self.phase = Phase::Ready;
                    Ok(Step::End)
                }
            },
        }
    }

    /// Projects the record at the read position and moves on to the next.
    fn hand_out(&mut self, columns: &Vec<Column>, instants: &Vec<Option<i64>>) -> (outcome: Result<
        Step,
        ScanError,
    >)
        requires
            old(self)@.unread(),
            !(old(self)@.phase is Idle),
        ensures
            final(self)@ == old(self)@.advanced(),
            step_view(outcome) == match projected_row(
                old(self)@.rows[old(self)@.position as int],
                columns@,
                instants@,
            ) {
                Ok(cells) => Ok::<StepView, Failure>(StepView::Row(cells)),
                Err(failure) => Err::<StepView, Failure>(failure),
            },
    {
        proof {
            use_type_invariant(&*self);
        }
        assert(self.position < self.rows.len());
        let outcome = project_row(&self.rows[self.position], columns, instants);
        self.position = self.position + 1;
        self.phase = Phase::Ready;
        match outcome {
            Ok(cells) => Ok(Step::Row(cells)),
            Err(error) => Err(error),
        }
    }

    /// Starts reading over at the first buffered record. Nothing is fetched
    /// and nothing is dropped.
    pub fn restart_scan(&mut self)
        ensures
            final(self)@ == old(self)@.restarted(),
            final(self)@.well_formed(),
    {
        proof {
            use_type_invariant(&*self);
        }
        self.position = 0;
        match self.phase {
            Phase::Refilled => {
                self.phase = Phase::Ready;
            },
            _ => {},
        }
    }

    /// Ends the scan and drops what it buffered.
    pub fn close_scan(&mut self)
        ensures
            final(self)@ == old(self)@.cleared(),
            final(self)@.well_formed(),
    {
        self.clear();
    }

    /// Refuses to begin a write.
    pub fn begin_write(&self) -> (outcome: Result<(), ScanError>)
        ensures
            outcome == write_refused(),
    {
        Err(ScanError::ReadOnly)
    }

    /// Refuses to insert a row.
    pub fn insert(&self, row: &Vec<Cell>) -> (outcome: Result<(), ScanError>)
        ensures
            outcome == write_refused(),
    {
        Err(ScanError::ReadOnly)
    }

    /// Refuses to update a row.
    pub fn update(&self, row_id: &Cell, row: &Vec<Cell>) -> (outcome: Result<(), ScanError>)
        ensures
            outcome == write_refused(),
    {
        Err(ScanError::ReadOnly)
    }

    /// Refuses to delete a row.
    pub fn delete(&self, row_id: &Cell) -> (outcome: Result<(), ScanError>)
        ensures
            outcome == write_refused(),
    {
        Err(ScanError::ReadOnly)
    }

    /// Refuses to end a write.
    pub fn end_write(&self) -> (outcome: Result<(), ScanError>)
        ensures
            outcome == write_refused(),
    {
        Err(ScanError::ReadOnly)
    }
}

} // verus!
