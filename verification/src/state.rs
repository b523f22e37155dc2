//! The state of a scan and its transitions, as the contracts speak of them.
//!
//! A scan is idle until it is opened. Opening it asks for the first page.
//! Once that page has come the scan is ready: a pull hands out the record at
//! the read position and moves on, or, where the buffer is used up and the
//! collection goes on, asks for the next page. The pull that asked looks at
//! the buffer once more when the page has come, and asks no second time.

use crate::error::Failure;
use crate::json::Json;
use crate::request::{page_request, selector_named, RequestView, Selector};
use vstd::prelude::*;

verus! {

/// Where a scan stands.
#[derive(Clone, Copy, Debug, PartialEq, Eq)]
pub enum Phase {
    /// No scan is open.
    Idle,
    /// The first page has been asked for.
    Opening,
    /// Records can be pulled.
    Ready,
    /// A pull has asked for a further page.
    Refilling,
    /// The page that a pull asked for has come.
    Refilled,
}

/// The state of the engine.
pub struct ScanState {
    pub api_key: Seq<char>,
    pub base_url: Seq<char>,
    /// The collection under scan.
    pub selector: Option<Selector>,
    /// The records of all pages fetched so far, in the order they came.
    pub rows: Seq<Json>,
    /// The index of the next record to hand out.
    pub position: nat,
    /// The cursor that the last page with a next page gave.
    pub cursor: Option<Seq<char>>,
    /// Whether the last page described a next page.
    pub has_more: bool,
    pub phase: Phase,
}

/// What a pull finds.
pub enum Next {
    /// The record at the read position.
    Record(Json),
    /// A page has to be fetched first.
    Fetch(RequestView),
    /// The scan has no further record.
    Exhausted,
}

impl ScanState {
    /// The read position lies within the buffer, and a scan that is open
    /// knows its collection.
    pub open spec fn well_formed(self) -> bool {
        &&& self.position <= self.rows.len()
        &&& !(self.phase is Idle) ==> self.selector is Some
    }

    /// The state in which the engine starts.
    pub open spec fn initial(api_key: Seq<char>) -> ScanState {
        ScanState {
            api_key,
            base_url: "https://api.hubapi.com"@,
            selector: None,
            rows: Seq::empty(),
            position: 0,
            cursor: None,
            has_more: false,
            phase: Phase::Idle,
        }
    }

    /// The state without a scan: nothing buffered, no cursor, no more pages.
    pub open spec fn cleared(self) -> ScanState {
        ScanState {
            selector: None,
            rows: Seq::empty(),
            position: 0,
            cursor: None,
            has_more: false,
            phase: Phase::Idle,
            ..self
        }
    }

    /// Whether a response is awaited.
    pub open spec fn awaiting(self) -> bool {
        self.phase is Opening || self.phase is Refilling
    }

    /// Whether a record stands at the read position.
    pub open spec fn unread(self) -> bool {
        self.position < self.rows.len()
    }

    /// The request for the next page.
    pub open spec fn request(self) -> RequestView
        recommends
            self.selector is Some,
    {
        page_request(self.base_url, self.api_key, self.selector->0, self.cursor)
    }

    /// Opening a scan of the collection that `object` names: the state, and
    /// the request for the first page or the reason why there is none.
    pub open spec fn opened(self, object: Option<Seq<char>>) -> (ScanState, Result<
        RequestView,
        Failure,
    >) {
        match object {
            None => (self.cleared(), Err(Failure::Configuration("object"@))),
            Some(name) => match selector_named(name) {
                None => (self.cleared(), Err(Failure::UnsupportedSelector(name))),
                Some(selector) => {
                    let state = ScanState {
                        selector: Some(selector),
                        phase: Phase::Opening,
                        ..self.cleared()
                    };
                    (state, Ok(state.request()))
                },
            },
        }
    }

    /// A page has come. The records join the buffer behind those that are
    /// there. A next page sets the cursor; where there is none the cursor
    /// stays, and is not used again. A page that nothing asked for changes
    /// nothing.
    pub open spec fn received(
        self,
        has_next: bool,
        cursor: Option<Seq<char>>,
        records: Seq<Json>,
    ) -> ScanState {
        if self.awaiting() {
            ScanState {
                rows: self.rows + records,
                has_more: has_next,
                cursor: if has_next {
                    cursor
                } else {
                    self.cursor
                },
                phase: if self.phase is Opening {
                    Phase::Ready
                } else {
                    Phase::Refilled
                },
                ..self
            }
        } else {
            self
        }
    }

    /// The fetch has failed. A scan that was opening is not open; a scan
    /// that was refilling stays as it was before the pull.
    pub open spec fn failed(self) -> ScanState {
        match self.phase {
            Phase::Opening => self.cleared(),
            Phase::Refilling => ScanState { phase: Phase::Ready, ..self },
            _ => self,
        }
    }

    /// The state once the record at the read position has been handed out.
    pub open spec fn advanced(self) -> ScanState {
        ScanState { position: self.position + 1, phase: Phase::Ready, ..self }
    }

    /// One pull: the state after it, and what it found.
    pub open spec fn next(self) -> (ScanState, Next) {
        match self.phase {
            Phase::Idle => (self, Next::Exhausted),
            Phase::Opening | Phase::Refilling => (self, Next::Fetch(self.request())),
            Phase::Ready => if self.unread() {
                (self.advanced(), Next::Record(self.rows[self.position as int]))
            } else if self.has_more {
                (ScanState { phase: Phase::Refilling, ..self }, Next::Fetch(self.request()))
            } else {
                (self, Next::Exhausted)
            },
            Phase::Refilled => if self.unread() {
                (self.advanced(), Next::Record(self.rows[self.position as int]))
            } else {
                (ScanState { phase: Phase::Ready, ..self }, Next::Exhausted)
            },
        }
    }

    /// The state after `count` pulls in a row.
    pub open spec fn after_pulls(self, count: nat) -> ScanState
        decreases count,
    {
        if count == 0 {
            self
        } else {
            self.after_pulls((count - 1) as nat).next().0
        }
    }

    /// The record that the next pull hands out, if it hands one out.
    pub open spec fn pending(self) -> Option<Json> {
        match self.next().1 {
            Next::Record(record) => Some(record),
            _ => None,
        }
    }

    /// Reading starts over at the first buffered record. Nothing else
    /// changes, but that a pull which had asked for a page is forgotten.
    pub open spec fn restarted(self) -> ScanState {
        ScanState {
            position: 0,
            phase: if self.phase is Refilled {
                Phase::Ready
            } else {
                self.phase
            },
            ..self
        }
    }
}

} // verus!
