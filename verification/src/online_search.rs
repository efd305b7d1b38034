//! The online-search page's state and its redraw-tick decision.
//!
//! The page owns a dispatcher and the newest successful result set — the
//! records its table shows, and the ones an install action is invoked
//! on.  Each tick of the event loop polls the dispatcher once and
//! decides what the UI must do: nothing, rebuild the table from a fresh
//! result set, or report a search failure while the table keeps the last
//! successful records.

use vstd::prelude::*;

use crate::dispatcher::Dispatcher;
use crate::registry::{Record, ResultSet, SearchError, SearchOutcome};

verus! {

/// What one redraw tick tells the UI to do.
#[derive(Debug, PartialEq, Eq)]
pub enum TickAction {
    /// Nothing arrived; leave the window as it is.
    Idle,
    /// A fresh result set arrived and replaced the page's records in
    /// full; rebuild the table from them.
    Refresh,
    /// The newest search failed; show the error.  The table keeps the
    /// last successful records.
    Report(SearchError),
}

/// The search page's own state, freed of its widgets: the dispatcher
/// and the records the table currently shows.
pub struct OnlineSearchPage {
    pub dispatcher: Dispatcher,
    /// The newest successful search's records.  Replaced in full by the
    /// next successful search, and only by one: a failure leaves them.
    pub results: ResultSet,
}

impl OnlineSearchPage {
    pub open spec fn wf(self) -> bool {
        self.dispatcher.wf()
    }

    /// A page with nothing searched for and an empty table.
    pub fn new() -> (p: OnlineSearchPage)
        ensures
            p.dispatcher == Dispatcher::init(),
            p.results@ == Seq::<Record>::empty(),
            p.wf(),
    {
        OnlineSearchPage { dispatcher: Dispatcher::new(), results: ResultSet::empty() }
    }

    /// One redraw tick: polls the dispatcher once and folds whatever
    /// came out into the page.  A fresh result set replaces the records
    /// wholesale; a failure is handed back to show and changes nothing
    /// in the table; on an idle tick the page stays as it is.
    pub fn update(&mut self) -> (action: TickAction)
        requires
            old(self).wf(),
        ensures
            final(self).dispatcher == old(self).dispatcher.poll_step(),
            final(self).wf(),
            (match old(self).dispatcher.polled() {
                None => action is Idle && final(self).results == old(self).results,
                Some(SearchOutcome::Results(fresh)) => {
                    &&& action is Refresh
                    &&& final(self).results == fresh
                },
                Some(SearchOutcome::Failed(e)) => {
                    &&& action == TickAction::Report(e)
                    &&& final(self).results == old(self).results
                },
            }),
    {
        match self.dispatcher.poll() {
            None => TickAction::Idle,
            Some(SearchOutcome::Results(fresh)) => {
                self.results = fresh;
                TickAction::Refresh
            },
            Some(SearchOutcome::Failed(e)) => TickAction::Report(e),
        }
    }

    /// The package name under the table's cursor: what an install action
    /// is invoked with.
    pub fn selected_name(&self, index: usize) -> (name: &String)
        requires
            index < self.results@.len(),
        ensures
            *name == self.results@[index as int].name,
    {
        &self.results.record_at(index).name
    }
}

} // verus!
