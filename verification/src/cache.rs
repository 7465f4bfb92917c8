//! The feed cache: one document per user, at most one generation per user in
//! flight, and a clear that forgets every document at once.
//!
//! A request for a user that the cache does not hold starts a generation and
//! leaves a marker; until that generation is completed, every further request
//! for the same user is told to wait instead of starting a second one. The
//! generation itself runs outside the cache, so the cache is never held while
//! the search is under way.

use vstd::prelude::*;
use vstd::hash_map::StringHashMap;
use crate::document::{FeedDocument, FeedView};
use crate::search::UpstreamFailure;

verus! {

/// What the cache knows of one user.
pub enum Status {
    /// A document is stored.
    Stored,
    /// No document is stored and a generation is under way.
    InFlight,
    /// No document is stored and none is being generated.
    Absent,
}

/// The cache as a mathematical value: the stored documents by user, and the
/// users whose generation is under way.
pub struct CacheView {
    pub entries: Map<Seq<char>, FeedView>,
    pub in_flight: Set<Seq<char>>,
}

/// Something that happens to the cache.
pub enum Event {
    /// A request for the user arrives.
    Begin(Seq<char>),
    /// The generation for the user ends, with a document or without.
    Complete(Seq<char>, Option<FeedView>),
    /// The sweep clears the cache.
    Clear,
}

impl CacheView {
    /// The cache that holds nothing.
    pub open spec fn empty() -> CacheView {
        CacheView { entries: Map::empty(), in_flight: Set::empty() }
    }

    /// No user has both a stored document and a generation under way.
    pub open spec fn wf(self) -> bool {
        forall|id: Seq<char>| self.in_flight.contains(id) ==> !self.entries.contains_key(id)
    }

    pub open spec fn lookup(self, id: Seq<char>) -> Option<FeedView> {
        if self.entries.contains_key(id) {
            Some(self.entries[id])
        } else {
            None
        }
    }

    pub open spec fn status(self, id: Seq<char>) -> Status {
        if self.entries.contains_key(id) {
            Status::Stored
        } else if self.in_flight.contains(id) {
            Status::InFlight
        } else {
            Status::Absent
        }
    }

    /// The cache after a request for `id`: a user that is absent gets a
    /// marker, and nothing else changes.
    pub open spec fn begin(self, id: Seq<char>) -> CacheView {
        match self.status(id) {
            Status::Absent => CacheView { in_flight: self.in_flight.insert(id), ..self },
            _ => self,
        }
    }

    /// The cache after the generation for `id` has ended. Only a generation
    /// that is under way can end: its marker leaves, and its document, if it
    /// made one, is stored.
    pub open spec fn complete(self, id: Seq<char>, outcome: Option<FeedView>) -> CacheView {
        if self.in_flight.contains(id) {
            CacheView {
                entries: match outcome {
                    Some(document) => self.entries.insert(id, document),
                    None => self.entries,
                },
                in_flight: self.in_flight.remove(id),
            }
        } else {
            self
        }
    }

    /// The cache after a clear: no document is left. Generations under way
    /// stay marked, so that a clear never lets a second one start beside them.
    pub open spec fn clear(self) -> CacheView {
        CacheView { entries: Map::empty(), ..self }
    }

    /// The cache after a generation that ran from start to end with nothing
    /// in between: its document, if it made one, is stored.
    pub open spec fn fetch(self, id: Seq<char>, outcome: Option<FeedView>) -> CacheView {
        match outcome {
            Some(document) => CacheView { entries: self.entries.insert(id, document), ..self },
            None => self,
        }
    }

    pub open spec fn apply(self, event: Event) -> CacheView {
        match event {
            Event::Begin(id) => self.begin(id),
            Event::Complete(id, outcome) => self.complete(id, outcome),
            Event::Clear => self.clear(),
        }
    }

    /// The cache after a run of events, first to last.
    pub open spec fn run(self, events: Seq<Event>) -> CacheView
        decreases events.len(),
    {
        if events.len() == 0 {
            self
        } else {
            self.run(events.drop_last()).apply(events.last())
        }
    }
}

/// What a generation made, as the cache sees it.
pub open spec fn made(outcome: Result<FeedDocument, UpstreamFailure>) -> Option<FeedView> {
    match outcome {
        Ok(document) => Some(document@),
        Err(_) => None,
    }
}

/// What the requester has to do next.
#[derive(Debug)]
pub enum Step {
    /// The document is stored: here is a copy.
    Hit(FeedDocument),
    /// Another requester is generating the document: wait for it, then ask
    /// again.
    Wait,
    /// Nobody holds or generates the document: generate it, then call
    /// `complete`.
    Generate,
}

/// Why `get_or_create` returned no document.
#[derive(Debug, Clone, Copy, PartialEq, Eq, Structural)]
pub enum FetchError {
    /// The generator failed; nothing was stored.
    Upstream(UpstreamFailure),
    /// A generation for the user is already under way.
    InFlight,
}

/// The store of feed documents by user.
pub struct FeedCache {
    ready: StringHashMap<FeedDocument>,
    pending: StringHashMap<()>,
}

impl View for FeedCache {
    type V = CacheView;

    closed spec fn view(&self) -> CacheView {
        CacheView {
            entries: Map::new(
                |id: Seq<char>| self.ready@.contains_key(id),
                |id: Seq<char>| self.ready@[id]@,
            ),
            in_flight: self.pending@.dom(),
        }
    }
}

impl FeedCache {
    /// An empty cache.
    pub fn new() -> (cache: FeedCache)
        ensures
            cache@ == CacheView::empty(),
    {
        let cache = FeedCache { ready: StringHashMap::new(), pending: StringHashMap::new() };
        assert(cache@.entries =~= Map::empty());
        cache
    }

    /// The document stored for `id`, if there is one. Reads only.
    pub fn lookup(&self, id: &str) -> (found: Option<&FeedDocument>)
        ensures
            match found {
                Some(document) => self@.lookup(id@) == Some(document@),
                None => self@.lookup(id@) is None,
            },
    {
        self.ready.get(id)
    }

    /// Takes a request for `id` and says what the requester has to do. A user
    /// that is absent is marked as being generated, and the requester is told
    /// to generate.
    pub fn begin(&mut self, id: &str) -> (step: Step)
        ensures
            final(self)@ == old(self)@.begin(id@),
            match step {
                Step::Hit(document) => old(self)@.status(id@) is Stored && document@ == old(
                    self,
                )@.entries[id@],
                Step::Wait => old(self)@.status(id@) is InFlight,
                Step::Generate => old(self)@.status(id@) is Absent,
            },
    {
        match self.ready.get(id) {
            Some(document) => Step::Hit(document.clone()),
            None => {
                if self.pending.contains_key(id) {
                    Step::Wait
                } else {
                    self.pending.insert(id.to_owned(), ());
                    assert(self@.entries =~= old(self)@.entries);
                    Step::Generate
                }
            },
        }
    }

    /// Ends the generation for `id`. If one is under way, its marker is
    /// removed, and a document that it made is stored; a failure stores
    /// nothing, so the next request generates again. If none is under way,
    /// nothing changes.
    pub fn complete(&mut self, id: &str, outcome: &Result<FeedDocument, UpstreamFailure>)
        ensures
            final(self)@ == old(self)@.complete(id@, made(*outcome)),
    {
        if self.pending.contains_key(id) {
            self.pending.remove(id);
            match outcome {
                Ok(document) => {
                    self.ready.insert(id.to_owned(), document.clone());
                },
                Err(_) => {},
            }
            assert(self@.entries =~= old(self)@.complete(id@, made(*outcome)).entries);
        }
    }

    /// Removes every stored document at once.
    pub fn clear(&mut self)
        ensures
            final(self)@ == old(self)@.clear(),
    {
        self.ready.clear();
        assert(self@.entries =~= Map::empty());
    }

    /// Returns the document of `id`, generating it if the cache holds none.
    ///
    /// A stored document is returned as it is and the generator is not run.
    /// For a user that is absent the generator runs once; its document is
    /// stored and returned, and its failure is handed on with nothing stored.
    /// While another generation for the user is under way the call neither
    /// generates nor waits: it reports `InFlight`.
    pub fn get_or_create<G: FnOnce(&str) -> Result<FeedDocument, UpstreamFailure>>(
        &mut self,
        id: &str,
        generator: G,
    ) -> (result: Result<FeedDocument, FetchError>)
        requires
            generator.requires((id,)),
        ensures
            match old(self)@.status(id@) {
                Status::Stored => final(self)@ == old(self)@ && result is Ok && result->Ok_0@
                    == old(self)@.entries[id@],
                Status::InFlight => final(self)@ == old(self)@ && result == Err::<
                    FeedDocument,
                    FetchError,
                >(FetchError::InFlight),
                Status::Absent => exists|outcome: Result<FeedDocument, UpstreamFailure>|
                    generator.ensures((id,), outcome) && final(self)@ == old(self)@.fetch(
                        id@,
                        made(outcome),
                    ) && fetched(outcome, result),
            },
    {
        match self.begin(id) {
            Step::Hit(document) => Ok(document),
            Step::Wait => Err(FetchError::InFlight),
            Step::Generate => {
                let outcome = generator(id);
                self.complete(id, &outcome);
                let ghost generated = outcome;
                let result = match outcome {
                    Ok(document) => Ok(document),
                    Err(failure) => Err(FetchError::Upstream(failure)),
                };
                proof {
                    law_generation_round(old(self)@, id@, made(generated));
                    assert(fetched(generated, result));
                }
                result
            },
        }
    }
}

/// What `get_or_create` returns for what the generator returned.
pub open spec fn fetched(
    outcome: Result<FeedDocument, UpstreamFailure>,
    result: Result<FeedDocument, FetchError>,
) -> bool {
    match outcome {
        Ok(document) => result is Ok && result->Ok_0@ == document@,
        Err(failure) => result == Err::<FeedDocument, FetchError>(FetchError::Upstream(failure)),
    }
}

/// Whether the event ends the generation for `id`.
pub open spec fn completes(event: Event, id: Seq<char>) -> bool {
    match event {
        Event::Complete(user, _) => user == id,
        _ => false,
    }
}

/// Whether the event is a request for `id`.
pub open spec fn requests(event: Event, id: Seq<char>) -> bool {
    match event {
        Event::Begin(user) => user == id,
        _ => false,
    }
}

/// The empty cache is well formed, and every event keeps a cache well formed:
/// no user ever has both a stored document and a generation under way.
pub proof fn law_events_keep_wf(cache: CacheView, events: Seq<Event>)
    requires
        cache.wf(),
    ensures
        CacheView::empty().wf(),
        forall|event: Event| #[trigger] cache.apply(event).wf(),
        cache.run(events).wf(),
    decreases events.len(),
{
    if events.len() > 0 {
        law_events_keep_wf(cache, events.drop_last());
        law_events_keep_wf(cache.run(events.drop_last()), Seq::empty());
    }
}

/// A request for an absent user followed at once by the end of its generation
/// stores the document that was made, or leaves the cache as it was when none
/// was made.
pub proof fn law_generation_round(cache: CacheView, id: Seq<char>, outcome: Option<FeedView>)
    requires
        cache.status(id) is Absent,
    ensures
        cache.begin(id).complete(id, outcome) == cache.fetch(id, outcome),
{
    assert(cache.in_flight.insert(id).remove(id) =~= cache.in_flight);
}

/// A user that is absent stays absent for as long as nobody requests it.
pub proof fn law_unrequested_stays_absent(cache: CacheView, events: Seq<Event>, id: Seq<char>)
    requires
        cache.status(id) is Absent,
        forall|k: int| 0 <= k < events.len() ==> !requests(#[trigger] events[k], id),
    ensures
        cache.run(events).status(id) is Absent,
    decreases events.len(),
{
    if events.len() > 0 {
        law_unrequested_stays_absent(cache, events.drop_last(), id);
    }
}

/// At most one generation per user: from the request that is told to generate
/// until that generation ends, whatever else happens, clears included, no
/// request for the same user is told to generate.
pub proof fn law_single_flight(cache: CacheView, events: Seq<Event>, id: Seq<char>)
    requires
        cache.in_flight.contains(id),
        forall|k: int| 0 <= k < events.len() ==> !completes(#[trigger] events[k], id),
    ensures
        cache.run(events).in_flight.contains(id),
        !(cache.run(events).status(id) is Absent),
    decreases events.len(),
{
    if events.len() > 0 {
        law_single_flight(cache, events.drop_last(), id);
    }
}

/// Once a document is stored, every lookup finds that same document until the
/// next clear.
pub proof fn law_stored_until_clear(cache: CacheView, events: Seq<Event>, id: Seq<char>)
    requires
        cache.wf(),
        cache.entries.contains_key(id),
        forall|k: int| 0 <= k < events.len() ==> !(#[trigger] events[k] is Clear),
    ensures
        cache.run(events).lookup(id) == cache.lookup(id),
    decreases events.len(),
{
    if events.len() > 0 {
        law_stored_until_clear(cache, events.drop_last(), id);
        law_events_keep_wf(cache, events.drop_last());
    }
}

/// After a clear no lookup finds a document, whatever was stored before; a
/// user is then absent unless its generation is under way.
pub proof fn law_clear_forgets(cache: CacheView, id: Seq<char>)
    ensures
        cache.clear().lookup(id) is None,
        cache.clear().status(id) is Absent <==> !cache.in_flight.contains(id),
{
}

/// A failed generation stores nothing and leaves the user absent, so the next
/// request generates again.
pub proof fn law_failure_is_retried(cache: CacheView, id: Seq<char>)
    requires
        cache.wf(),
        cache.in_flight.contains(id),
    ensures
        cache.complete(id, None).entries == cache.entries,
        cache.complete(id, None).status(id) is Absent,
{
}

/// One generation, one document: after the request that is told to generate,
/// every request for the same user waits until the generation ends, and once
/// it has ended with a document every requester finds that document, until
/// the next clear.
pub proof fn law_one_generation_one_document(
    cache: CacheView,
    id: Seq<char>,
    document: FeedView,
    meanwhile: Seq<Event>,
    afterwards: Seq<Event>,
)
    requires
        cache.wf(),
        cache.status(id) is Absent,
        forall|k: int| 0 <= k < meanwhile.len() ==> !completes(#[trigger] meanwhile[k], id),
        forall|k: int| 0 <= k < afterwards.len() ==> !(#[trigger] afterwards[k] is Clear),
    ensures
        cache.begin(id).run(meanwhile).status(id) is InFlight,
        cache.begin(id).run(meanwhile).complete(id, Some(document)).run(afterwards).lookup(id)
            == Some(document),
{
    let started = cache.begin(id);
    law_events_keep_wf(started, meanwhile);
    law_single_flight(started, meanwhile, id);
    let waiting = started.run(meanwhile);
    let stored = waiting.complete(id, Some(document));
    law_stored_until_clear(stored, afterwards, id);
}

} // verus!
