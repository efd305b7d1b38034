//! The data a registry search hands back, as plain values.

use vstd::prelude::*;

verus! {

/// How many records one search asks the registry for.
pub const SEARCH_LIMIT: u32 = 64;

/// One package record the registry returns for a search query.
#[derive(Debug, Clone, PartialEq, Eq)]
pub struct Record {
    pub name: String,
    pub description: String,
    pub latest_version: String,
}

/// The ordered records one search returned.  A new set replaces any
/// earlier one in full; there is no incremental merge.
#[derive(Debug, PartialEq, Eq)]
pub struct ResultSet {
    pub records: Vec<Record>,
}

impl View for ResultSet {
    type V = Seq<Record>;

    open spec fn view(&self) -> Seq<Record> {
        self.records@
    }
}

impl ResultSet {
    /// The set with no records: what a search that matched nothing yields.
    pub fn empty() -> (r: ResultSet)
        ensures
            r@ == Seq::<Record>::empty(),
    {
        ResultSet { records: Vec::new() }
    }

    pub fn from_records(records: Vec<Record>) -> (r: ResultSet)
        ensures
            r == (ResultSet { records }),
            r@ == records@,
    {
        ResultSet { records }
    }

    pub fn len(&self) -> (n: usize)
        ensures
            n == self@.len(),
    {
        self.records.len()
    }

    pub fn is_empty(&self) -> (b: bool)
        ensures
            b == (self@.len() == 0),
    {
        self.records.len() == 0
    }

    /// The record under a cursor position; the install action reads the
    /// package name out of it.
    pub fn record_at(&self, index: usize) -> (r: &Record)
        requires
            index < self@.len(),
        ensures
            *r == self@[index as int],
    {
        &self.records[index]
    }
}

/// A registry failure carried back to the UI as a value, in place of the
/// worker crashing on it.
#[derive(Debug, PartialEq, Eq)]
pub struct SearchError {
    pub message: String,
}

/// What one search worker hands back: the full record set, or the failure.
#[derive(Debug, PartialEq, Eq)]
pub enum SearchOutcome {
    Results(ResultSet),
    Failed(SearchError),
}

/// Folds the registry collaborator's raw reply into the outcome the
/// dispatcher carries.  A successful reply becomes a `ResultSet` — empty
/// when nothing matched, never an error — and a failed one becomes a
/// `SearchError` value.
pub fn outcome_of_reply(reply: Result<Vec<Record>, String>) -> (o: SearchOutcome)
    ensures
        (match reply {
            Ok(records) => o == SearchOutcome::Results(ResultSet { records }),
            Err(message) => o == SearchOutcome::Failed(SearchError { message }),
        }),
{
    match reply {
        Ok(records) => SearchOutcome::Results(ResultSet::from_records(records)),
        Err(message) => SearchOutcome::Failed(SearchError { message }),
    }
}

} // verus!
