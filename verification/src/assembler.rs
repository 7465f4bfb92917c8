//! Assembling a feed document from the records of one search.

use vstd::prelude::*;
use vstd::string::StringExecFns;
use crate::document::{
    entry_views, text_views, ChannelMeta, ChannelMetaView, Entry, EntryView, FeedDocument,
    FeedView, SourceRef, SourceRefView, TextInput, TextInputView,
};
use crate::search::{
    record_views, request_for, search_request, Record, RecordView, SearchRequest,
    UpstreamFailure,
};

verus! {

/// The reference under which a source domain is cited: the domain itself when
/// it holds a dot, else the domain with `.com` appended.
pub open spec fn normalized_source(domain: Seq<char>) -> Seq<char> {
    if domain.contains('.') {
        domain
    } else {
        domain + ".com"@
    }
}

/// Whether `text` holds a dot.
fn has_dot(text: &str) -> (found: bool)
    ensures
        found == text@.contains('.'),
{
    let mut found = false;
    for c in it: text.chars()
        invariant
            it.seq() == text@,
            found == (exists|j: int| 0 <= j < it.index() && text@[j] == '.'),
    {
        if c == '.' {
            found = true;
        }
    }
    found
}

/// Turns a record's domain into a source reference. This only shapes the
/// text; it does not check that the domain exists.
pub fn normalize_source(domain: &str) -> (url: String)
    ensures
        url@ == normalized_source(domain@),
{
    let mut url = String::from_str(domain);
    if !has_dot(domain) {
        url.append(".com");
    }
    url
}

/// The entry that stands for a record.
pub open spec fn entry_of(record: RecordView) -> EntryView {
    EntryView {
        title: record.title,
        author: record.author,
        description: record.venue,
        link: record.link,
        source: Some(
            SourceRefView { url: normalized_source(record.domain), title: record.domain },
        ),
        pub_date: record.year,
        content: record.summary,
    }
}

/// Maps one record into an entry.
pub fn entry_from_record(record: Record) -> (entry: Entry)
    ensures
        entry@ == entry_of(record@),
{
    let url = normalize_source(record.domain.as_str());
    Entry {
        title: record.title,
        author: record.author,
        description: record.venue,
        link: record.link,
        source: Some(SourceRef { url, title: record.domain }),
        pub_date: record.year,
        content: record.summary,
    }
}

/// The entries that stand for a sequence of records, in the same order.
pub open spec fn entries_of(records: Seq<RecordView>) -> Seq<EntryView> {
    records.map_values(|r: RecordView| entry_of(r))
}

/// Maps the records of a search into entries, keeping their order.
pub fn entries_from_records(records: Vec<Record>) -> (entries: Vec<Entry>)
    ensures
        entry_views(entries@) == entries_of(record_views(records@)),
{
    let ghost all = records@;
    let mut entries: Vec<Entry> = Vec::new();
    for record in it: records.into_iter()
        invariant
            it.seq() == all,
            entries@.len() == it.index(),
            forall|j: int| 0 <= j < it.index() ==> (#[trigger] entries@[j])@ == entry_of(all[j]@),
    {
        entries.push(entry_from_record(record));
    }
    assert(entry_views(entries@) =~= entries_of(record_views(all)));
    entries
}

/// The title of the feed of `user_id`.
pub open spec fn feed_title(user_id: Seq<char>) -> Seq<char> {
    user_id + " scientific publications"@
}

/// The description of the feed of `user_id`.
pub open spec fn feed_description(user_id: Seq<char>) -> Seq<char> {
    "An RSS feed for "@ + user_id + " scientific publications. Parsed from Google Scholar."@
}

/// The search box every feed carries.
pub open spec fn search_box() -> TextInputView {
    TextInputView {
        title: "Google Scholar"@,
        description: "Search Google Scholar"@,
        name: "q"@,
        link: "https://scholar.google.com/scholar"@,
    }
}

/// The metadata of the feed of `user_id` built at the time written as `stamp`.
pub open spec fn meta_of(user_id: Seq<char>, stamp: Seq<char>) -> ChannelMetaView {
    ChannelMetaView {
        title: feed_title(user_id),
        description: feed_description(user_id),
        language: "en-US"@,
        generator: "google-scholar-rss-feed"@,
        copyright: "Â© Google Scholar"@,
        ttl: "60"@,
        docs: "https://cyber.harvard.edu/rss/rss.html"@,
        text_input: search_box(),
        categories: seq!["Scientific Research"@],
        pub_date: stamp,
        last_build_date: stamp,
    }
}

/// Builds the metadata of a user's feed.
pub fn channel_meta(user_id: &str, stamp: &str) -> (meta: ChannelMeta)
    ensures
        meta@ == meta_of(user_id@, stamp@),
{
    let mut title = String::from_str(user_id);
    title.append(" scientific publications");
    let mut description = String::from_str("An RSS feed for ");
    description.append(user_id);
    description.append(" scientific publications. Parsed from Google Scholar.");
    let mut categories: Vec<String> = Vec::new();
    categories.push(String::from_str("Scientific Research"));
    assert(text_views(categories@) =~= seq!["Scientific Research"@]);
    ChannelMeta {
        title,
        description,
        language: String::from_str("en-US"),
        generator: String::from_str("google-scholar-rss-feed"),
        copyright: String::from_str("Â© Google Scholar"),
        ttl: String::from_str("60"),
        docs: String::from_str("https://cyber.harvard.edu/rss/rss.html"),
        text_input: TextInput {
            title: String::from_str("Google Scholar"),
            description: String::from_str("Search Google Scholar"),
            name: String::from_str("q"),
            link: String::from_str("https://scholar.google.com/scholar"),
        },
        categories,
        pub_date: String::from_str(stamp),
        last_build_date: String::from_str(stamp),
    }
}

/// The document of `user_id` for the given records, built at `stamp`.
pub open spec fn document_of(
    user_id: Seq<char>,
    records: Seq<RecordView>,
    stamp: Seq<char>,
) -> FeedView {
    FeedView { meta: meta_of(user_id, stamp), entries: entries_of(records) }
}

/// Builds the whole document of a user from the records of a search and the
/// time of the build. All fields are set before the document is returned. A
/// search that found nothing gives a valid document without entries, which is
/// cached like any other.
pub fn build_document(user_id: &str, records: Vec<Record>, stamp: &str) -> (document:
    FeedDocument)
    ensures
        document@ == document_of(user_id@, record_views(records@), stamp@),
{
    let meta = channel_meta(user_id, stamp);
    let entries = entries_from_records(records);
    FeedDocument { meta, entries }
}

/// The current time in UTC, written as RFC 2822 prescribes.
///
/// Calls `chrono::Utc::now` and `DateTime::to_rfc2822`. The text depends on
/// the clock, so nothing is claimed of it.
#[verifier::external_body]
fn current_stamp() -> (stamp: String) {
    chrono::Utc::now().to_rfc2822()
}

/// What a finished search owes the requester: `result` is the failure of the
/// search, or the document of `user_id` for the records found, with one time
/// of build written into both of its dates.
pub open spec fn assembled(
    user_id: Seq<char>,
    outcome: Result<Vec<Record>, UpstreamFailure>,
    result: Result<FeedDocument, UpstreamFailure>,
) -> bool {
    match outcome {
        Ok(records) => result is Ok && result->Ok_0@ == document_of(
            user_id,
            record_views(records@),
            result->Ok_0@.meta.pub_date,
        ),
        Err(failure) => result == Err::<FeedDocument, UpstreamFailure>(failure),
    }
}

/// Turns the outcome of a search into a document stamped with the current
/// time. A failed search yields its failure and no document, not even a
/// partial one.
pub fn document_from(user_id: &str, outcome: Result<Vec<Record>, UpstreamFailure>) -> (result:
    Result<FeedDocument, UpstreamFailure>)
    ensures
        assembled(user_id@, outcome, result),
{
    match outcome {
        Ok(records) => {
            let stamp = current_stamp();
            Ok(build_document(user_id, records, stamp.as_str()))
        },
        Err(failure) => Err(failure),
    }
}

/// Assembles the feed of a user: builds the request, runs `search` on it once
/// and turns what it found into a document. If the search fails, so does the
/// whole operation.
pub fn assemble<S: FnOnce(SearchRequest) -> Result<Vec<Record>, UpstreamFailure>>(
    user_id: &str,
    search: S,
) -> (result: Result<FeedDocument, UpstreamFailure>)
    requires
        forall|request: SearchRequest|
            request@ == request_for(user_id@) ==> search.requires((request,)),
    ensures
        exists|request: SearchRequest, outcome: Result<Vec<Record>, UpstreamFailure>|
            request@ == request_for(user_id@) && search.ensures((request,), outcome)
                && assembled(user_id@, outcome, result),
{
    let request = search_request(user_id);
    let outcome = search(request);
    document_from(user_id, outcome)
}

} // verus!
