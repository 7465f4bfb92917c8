//! Handling one request: which user the query string names, and which
//! response is owed.

use vstd::prelude::*;
use vstd::string::StringExecFns;
use crate::assembler::{assemble, assembled};
use crate::cache::{made, FeedCache, FetchError, Status};
use crate::document::{opt_text, FeedDocument};
use crate::render::{render, rendered};
use crate::search::{request_for, Record, SearchRequest, UpstreamFailure};

verus! {

/// The (name, value) pairs that `url::form_urlencoded::parse` reads from a
/// query string, in the order in which they stand in it.
pub uninterp spec fn form_pairs(query: Seq<char>) -> Seq<(Seq<char>, Seq<char>)>;

/// The text of each pair of a sequence, in order.
pub open spec fn pair_views(pairs: Seq<(String, String)>) -> Seq<(Seq<char>, Seq<char>)> {
    pairs.map_values(|p: (String, String)| (p.0@, p.1@))
}

/// Splits and decodes a query string with `url::form_urlencoded::parse`,
/// taking each pair as owned strings. The pairs depend on the query's text
/// alone.
#[verifier::external_body]
fn parse_pairs(query: &str) -> (pairs: Vec<(String, String)>)
    ensures
        pair_views(pairs@) == form_pairs(query@),
{
    url::form_urlencoded::parse(query.as_bytes()).into_owned().collect()
}

/// The value of the last pair named `name`, if any pair has that name: of two
/// pairs with one name the later one counts.
pub open spec fn last_value(pairs: Seq<(Seq<char>, Seq<char>)>, name: Seq<char>) -> Option<
    Seq<char>,
>
    decreases pairs.len(),
{
    if pairs.len() == 0 {
        None
    } else if pairs.last().0 == name {
        Some(pairs.last().1)
    } else {
        last_value(pairs.drop_last(), name)
    }
}

/// The user that the pairs of a query name: the value of `username`, unless
/// there is none or it is empty.
pub open spec fn named_user(pairs: Seq<(Seq<char>, Seq<char>)>) -> Option<Seq<char>> {
    match last_value(pairs, "username"@) {
        Some(user) => if user.len() > 0 {
            Some(user)
        } else {
            None
        },
        None => None,
    }
}

/// The pair that decides is the last one named `name`: its value is the one
/// found, whatever stands before it.
pub proof fn law_last_pair_decides(pairs: Seq<(Seq<char>, Seq<char>)>, name: Seq<char>, at: int)
    requires
        0 <= at < pairs.len(),
        pairs[at].0 == name,
        forall|j: int| at < j < pairs.len() ==> (#[trigger] pairs[j]).0 != name,
    ensures
        last_value(pairs, name) == Some(pairs[at].1),
    decreases pairs.len(),
{
    if at < pairs.len() - 1 {
        law_last_pair_decides(pairs.drop_last(), name, at);
    }
}

/// A query in which no pair is named `username` names no user, whatever other
/// pairs it holds.
pub proof fn law_other_pairs_name_no_user(pairs: Seq<(Seq<char>, Seq<char>)>)
    requires
        forall|j: int| 0 <= j < pairs.len() ==> (#[trigger] pairs[j]).0 != "username"@,
    ensures
        named_user(pairs) is None,
    decreases pairs.len(),
{
    if pairs.len() > 0 {
        law_other_pairs_name_no_user(pairs.drop_last());
    }
}

/// Finds the user among the pairs of a query.
pub fn username_param(pairs: &Vec<(String, String)>) -> (user: Option<String>)
    ensures
        opt_text(user) == named_user(pair_views(pairs@)),
{
    let name = String::from_str("username");
    let ghost all = pair_views(pairs@);
    let mut i: usize = pairs.len();
    assert(all.take(i as int) =~= all);
    while i > 0
        invariant
            i <= pairs.len(),
            all == pair_views(pairs@),
            name@ == "username"@,
            last_value(all, name@) == last_value(all.take(i as int), name@),
        decreases i,
    {
        let ghost head = all.take(i as int);
        assert(head.drop_last() =~= all.take(i - 1));
        assert(head.last() == all[i - 1]);
        i -= 1;
        if pairs[i].0 == name {
            if pairs[i].1.as_str().is_empty() {
                return None;
            } else {
                return Some(pairs[i].1.clone());
            }
        }
    }
    None
}

/// Where a request goes.
#[derive(Debug, PartialEq, Eq)]
pub enum Route {
    /// The request names no user.
    NoUsername,
    /// The request asks for the feed of this user.
    Feed(String),
}

/// The user that a request names. A request without a query string names
/// none.
pub open spec fn requested_user(query: Option<Seq<char>>) -> Option<Seq<char>> {
    match query {
        Some(q) => named_user(form_pairs(q)),
        None => None,
    }
}

/// The characters of an optional string slice.
pub open spec fn opt_str(text: Option<&str>) -> Option<Seq<char>> {
    match text {
        Some(s) => Some(s@),
        None => None,
    }
}

/// Reads the query string of a request, if it has one, and decides where the
/// request goes. Only the query string is looked at.
pub fn route(query: Option<&str>) -> (route: Route)
    ensures
        match route {
            Route::NoUsername => requested_user(opt_str(query)) is None,
            Route::Feed(user) => requested_user(opt_str(query)) == Some(user@),
        },
{
    match query {
        Some(q) => {
            let pairs = parse_pairs(q);
            match username_param(&pairs) {
                Some(user) => Route::Feed(user),
                None => Route::NoUsername,
            }
        },
        None => Route::NoUsername,
    }
}

/// A response, as the transport has to send it.
#[derive(Debug, PartialEq, Eq)]
pub struct HttpResponse {
    pub status: u16,
    pub content_type: String,
    /// The value of `Access-Control-Allow-Origin`.
    pub allow_origin: String,
    pub body: String,
}

pub struct ResponseView {
    pub status: u16,
    pub content_type: Seq<char>,
    pub allow_origin: Seq<char>,
    pub body: Seq<char>,
}

impl View for HttpResponse {
    type V = ResponseView;

    open spec fn view(&self) -> ResponseView {
        ResponseView {
            status: self.status,
            content_type: self.content_type@,
            allow_origin: self.allow_origin@,
            body: self.body@,
        }
    }
}

/// A plain-text response that any origin may read.
pub open spec fn plain_text(status: u16, body: Seq<char>) -> ResponseView {
    ResponseView { status, content_type: "text/plain"@, allow_origin: "*"@, body }
}

/// The answer to a request that names no user. It is not an error.
pub open spec fn no_username_view() -> ResponseView {
    plain_text(200, "no \"username\" param provided"@)
}

/// The answer that carries a feed.
pub open spec fn feed_view(text: Seq<char>) -> ResponseView {
    ResponseView {
        status: 200,
        content_type: "text/xml; charset=utf-8"@,
        allow_origin: "*"@,
        body: text,
    }
}

/// The answer to a request whose search failed.
pub open spec fn failure_view(failure: UpstreamFailure) -> ResponseView {
    match failure {
        UpstreamFailure::SearchFailed => plain_text(502, "upstream search failed"@),
        UpstreamFailure::TimedOut => plain_text(504, "upstream search timed out"@),
    }
}

/// The answer to a request that can neither be served nor wait.
pub open spec fn busy_view() -> ResponseView {
    plain_text(503, "feed generation in progress"@)
}

fn plain_response(status: u16, body: &str) -> (response: HttpResponse)
    ensures
        response@ == plain_text(status, body@),
{
    HttpResponse {
        status,
        content_type: String::from_str("text/plain"),
        allow_origin: String::from_str("*"),
        body: String::from_str(body),
    }
}

/// Answers a request that names no user.
pub fn no_username_response() -> (response: HttpResponse)
    ensures
        response@ == no_username_view(),
{
    plain_response(200, "no \"username\" param provided")
}

/// Answers a request with the feed document of its user.
pub fn feed_response(document: &FeedDocument) -> (response: HttpResponse)
    ensures
        response@ == feed_view(rendered(document@)),
{
    HttpResponse {
        status: 200,
        content_type: String::from_str("text/xml; charset=utf-8"),
        allow_origin: String::from_str("*"),
        body: render(document),
    }
}

/// Answers a request whose search failed. The failure stays with this one
/// request.
pub fn failure_response(failure: UpstreamFailure) -> (response: HttpResponse)
    ensures
        response@ == failure_view(failure),
{
    match failure {
        UpstreamFailure::SearchFailed => plain_response(502, "upstream search failed"),
        UpstreamFailure::TimedOut => plain_response(504, "upstream search timed out"),
    }
}

/// Answers a request that found a generation under way and cannot wait.
pub fn busy_response() -> (response: HttpResponse)
    ensures
        response@ == busy_view(),
{
    plain_response(503, "feed generation in progress")
}

/// The response owed for what the cache returned.
pub open spec fn owed(result: Result<FeedDocument, FetchError>) -> ResponseView {
    match result {
        Ok(document) => feed_view(rendered(document@)),
        Err(FetchError::Upstream(failure)) => failure_view(failure),
        Err(FetchError::InFlight) => busy_view(),
    }
}

/// Turns what the cache returned into a response.
pub fn response_for(result: &Result<FeedDocument, FetchError>) -> (response: HttpResponse)
    ensures
        response@ == owed(*result),
{
    match result {
        Ok(document) => feed_response(document),
        Err(FetchError::Upstream(failure)) => failure_response(*failure),
        Err(FetchError::InFlight) => busy_response(),
    }
}

/// Handles one request from query string to response, running `search` at
/// most once.
///
/// A request that names no user is answered at once and leaves the cache
/// alone. A stored feed is served without a search. For a user that is absent
/// the feed is assembled from one search, stored and served; if the search
/// fails, the failure is answered and nothing is stored.
pub fn serve<S: FnOnce(SearchRequest) -> Result<Vec<Record>, UpstreamFailure>>(
    cache: &mut FeedCache,
    query: Option<&str>,
    search: S,
) -> (response: HttpResponse)
    requires
        forall|user: Seq<char>, request: SearchRequest|
            request@ == request_for(user) ==> search.requires((request,)),
    ensures
        match requested_user(opt_str(query)) {
            None => final(cache)@ == old(cache)@ && response@ == no_username_view(),
            Some(user) => match old(cache)@.status(user) {
                Status::Stored => final(cache)@ == old(cache)@ && response@ == feed_view(
                    rendered(old(cache)@.entries[user]),
                ),
                Status::InFlight => final(cache)@ == old(cache)@ && response@ == busy_view(),
                Status::Absent => exists|
                    request: SearchRequest,
                    outcome: Result<Vec<Record>, UpstreamFailure>,
                    result: Result<FeedDocument, UpstreamFailure>,
                |
                    request@ == request_for(user) && search.ensures((request,), outcome)
                        && assembled(user, outcome, result) && final(cache)@ == old(
                        cache,
                    )@.fetch(user, made(result)) && response@ == match result {
                        Ok(document) => feed_view(rendered(document@)),
                        Err(failure) => failure_view(failure),
                    },
            },
        },
{
    match route(query) {
        Route::NoUsername => no_username_response(),
        Route::Feed(user) => {
            let generator = |id: &str| -> (result: Result<FeedDocument, UpstreamFailure>)
                requires
                    id@ == user@,
                ensures
                    exists|request: SearchRequest, outcome: Result<Vec<Record>, UpstreamFailure>|
                        request@ == request_for(id@) && search.ensures((request,), outcome)
                            && assembled(id@, outcome, result),
                { assemble(id, search) };
            let result = cache.get_or_create(user.as_str(), generator);
            response_for(&result)
        },
    }
}

} // verus!
