//! What is asked of the scholarly search, and what it answers.

use vstd::prelude::*;
use vstd::string::StringExecFns;
use crate::document::opt_text;

verus! {

/// The most records one search is asked for.
pub const RESULT_LIMIT: u32 = 100;

/// Seconds a search may take before it counts as timed out.
pub const SEARCH_TIMEOUT_SECS: u64 = 30;

/// One publication as the search reports it.
#[derive(Debug, PartialEq, Eq)]
pub struct Record {
    pub title: String,
    pub author: String,
    pub summary: String,
    pub venue: Option<String>,
    pub link: String,
    pub domain: String,
    pub year: Option<String>,
}

pub struct RecordView {
    pub title: Seq<char>,
    pub author: Seq<char>,
    pub summary: Seq<char>,
    pub venue: Option<Seq<char>>,
    pub link: Seq<char>,
    pub domain: Seq<char>,
    pub year: Option<Seq<char>>,
}

impl View for Record {
    type V = RecordView;

    open spec fn view(&self) -> RecordView {
        RecordView {
            title: self.title@,
            author: self.author@,
            summary: self.summary@,
            venue: opt_text(self.venue),
            link: self.link@,
            domain: self.domain@,
            year: opt_text(self.year),
        }
    }
}

/// The view of each record of a sequence, in order.
pub open spec fn record_views(records: Seq<Record>) -> Seq<RecordView> {
    records.map_values(|r: Record| r@)
}

/// A query for the search client, with the bound on how many records it may
/// return.
#[derive(Debug, PartialEq, Eq)]
pub struct SearchRequest {
    pub query: String,
    pub limit: Option<u32>,
}

pub struct SearchRequestView {
    pub query: Seq<char>,
    pub limit: Option<u32>,
}

impl View for SearchRequest {
    type V = SearchRequestView;

    open spec fn view(&self) -> SearchRequestView {
        SearchRequestView { query: self.query@, limit: self.limit }
    }
}

/// Why the search gave no records.
#[derive(Debug, Clone, Copy, PartialEq, Eq, Structural)]
pub enum UpstreamFailure {
    /// The search client reported an error.
    SearchFailed,
    /// The search did not answer in time.
    TimedOut,
}

/// The query that selects the publications of `user_id`: the user as a quoted
/// author filter.
pub open spec fn author_query(user_id: Seq<char>) -> Seq<char> {
    "author:\""@ + user_id + "\""@
}

/// The request made for `user_id`.
pub open spec fn request_for(user_id: Seq<char>) -> SearchRequestView {
    SearchRequestView { query: author_query(user_id), limit: Some(RESULT_LIMIT) }
}

/// Builds the search request for a user.
pub fn search_request(user_id: &str) -> (request: SearchRequest)
    ensures
        request@ == request_for(user_id@),
{
    let mut query = String::from_str("author:\"");
    query.append(user_id);
    query.append("\"");
    SearchRequest { query, limit: Some(RESULT_LIMIT) }
}

} // verus!
