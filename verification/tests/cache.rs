use scholar_feed::assembler::build_document;
use scholar_feed::cache::{FeedCache, FetchError, Step};
use scholar_feed::document::FeedDocument;
use scholar_feed::search::{Record, UpstreamFailure};

fn feed(user: &str, title: &str) -> FeedDocument {
    let record = Record {
        title: title.to_string(),
        author: user.to_string(),
        summary: String::new(),
        venue: None,
        link: "https://example.org".to_string(),
        domain: "example.org".to_string(),
        year: None,
    };
    build_document(user, vec![record], "Wed, 28 Oct 2026 04:08:00 +0000")
}

#[test]
fn new_cache_holds_nothing() {
    let cache = FeedCache::new();
    assert_eq!(cache.lookup("alice"), None);
    assert_eq!(cache.lookup(""), None);
}

#[test]
fn first_request_generates_once_and_stores() {
    let mut cache = FeedCache::new();
    let mut calls = 0;
    let result = cache.get_or_create("alice", |id| {
        calls += 1;
        Ok(feed(id, "first"))
    });
    assert_eq!(calls, 1);
    assert_eq!(result, Ok(feed("alice", "first")));
    assert_eq!(cache.lookup("alice"), Some(&feed("alice", "first")));
}

#[test]
fn stored_document_is_returned_without_generating() {
    let mut cache = FeedCache::new();
    let first = cache.get_or_create("alice", |id| Ok(feed(id, "first")));
    let mut calls = 0;
    let second = cache.get_or_create("alice", |id| {
        calls += 1;
        Ok(feed(id, "second"))
    });
    assert_eq!(calls, 0);
    assert_eq!(second, first);
    assert_eq!(cache.lookup("alice"), Some(&feed("alice", "first")));
}

#[test]
fn users_are_cached_apart() {
    let mut cache = FeedCache::new();
    let alice = cache.get_or_create("alice", |id| Ok(feed(id, "a")));
    let bob = cache.get_or_create("bob", |id| Ok(feed(id, "b")));
    assert_eq!(alice, Ok(feed("alice", "a")));
    assert_eq!(bob, Ok(feed("bob", "b")));
    assert_eq!(cache.lookup("alice"), Some(&feed("alice", "a")));
    assert_eq!(cache.lookup("bob"), Some(&feed("bob", "b")));
    assert_eq!(cache.lookup("carol"), None);
}

#[test]
fn failed_generation_is_handed_on_and_stores_nothing() {
    let mut cache = FeedCache::new();
    let failed = cache.get_or_create("bob", |_id| Err(UpstreamFailure::SearchFailed));
    assert_eq!(failed, Err(FetchError::Upstream(UpstreamFailure::SearchFailed)));
    assert_eq!(cache.lookup("bob"), None);
    let timed_out = cache.get_or_create("bob", |_id| Err(UpstreamFailure::TimedOut));
    assert_eq!(timed_out, Err(FetchError::Upstream(UpstreamFailure::TimedOut)));
    assert_eq!(cache.lookup("bob"), None);
}

#[test]
fn failed_generation_is_retried_by_the_next_request() {
    let mut cache = FeedCache::new();
    let _ = cache.get_or_create("bob", |_id| Err(UpstreamFailure::SearchFailed));
    let mut calls = 0;
    let retried = cache.get_or_create("bob", |id| {
        calls += 1;
        Ok(feed(id, "later"))
    });
    assert_eq!(calls, 1);
    assert_eq!(retried, Ok(feed("bob", "later")));
}

#[test]
fn clear_forgets_every_document() {
    let mut cache = FeedCache::new();
    let _ = cache.get_or_create("alice", |id| Ok(feed(id, "a")));
    let _ = cache.get_or_create("bob", |id| Ok(feed(id, "b")));
    cache.clear();
    assert_eq!(cache.lookup("alice"), None);
    assert_eq!(cache.lookup("bob"), None);
}

#[test]
fn first_request_after_clear_generates_again() {
    let mut cache = FeedCache::new();
    let _ = cache.get_or_create("alice", |id| Ok(feed(id, "old")));
    cache.clear();
    let mut calls = 0;
    let fresh = cache.get_or_create("alice", |id| {
        calls += 1;
        Ok(feed(id, "new"))
    });
    assert_eq!(calls, 1);
    assert_eq!(fresh, Ok(feed("alice", "new")));
    assert_eq!(cache.lookup("alice"), Some(&feed("alice", "new")));
}

#[test]
fn clear_of_an_empty_cache_is_harmless() {
    let mut cache = FeedCache::new();
    cache.clear();
    assert_eq!(cache.lookup("alice"), None);
    assert!(matches!(cache.begin("alice"), Step::Generate));
}

#[test]
fn only_the_first_of_many_requesters_generates() {
    let mut cache = FeedCache::new();
    assert!(matches!(cache.begin("alice"), Step::Generate));
    assert!(matches!(cache.begin("alice"), Step::Wait));
    assert!(matches!(cache.begin("alice"), Step::Wait));
    assert!(matches!(cache.begin("bob"), Step::Generate));
    assert_eq!(cache.lookup("alice"), None);
}

#[test]
fn every_requester_observes_the_one_document() {
    let mut cache = FeedCache::new();
    assert!(matches!(cache.begin("alice"), Step::Generate));
    assert!(matches!(cache.begin("alice"), Step::Wait));
    cache.complete("alice", &Ok(feed("alice", "only")));
    for _ in 0..3 {
        match cache.begin("alice") {
            Step::Hit(document) => assert_eq!(document, feed("alice", "only")),
            other => panic!("expected a hit, got {:?}", other),
        }
    }
    assert_eq!(cache.lookup("alice"), Some(&feed("alice", "only")));
}

#[test]
fn failed_generation_lets_the_next_requester_generate() {
    let mut cache = FeedCache::new();
    assert!(matches!(cache.begin("bob"), Step::Generate));
    cache.complete("bob", &Err(UpstreamFailure::TimedOut));
    assert_eq!(cache.lookup("bob"), None);
    assert!(matches!(cache.begin("bob"), Step::Generate));
}

#[test]
fn clear_keeps_a_generation_marked() {
    let mut cache = FeedCache::new();
    assert!(matches!(cache.begin("alice"), Step::Generate));
    cache.clear();
    assert!(matches!(cache.begin("alice"), Step::Wait));
    cache.complete("alice", &Ok(feed("alice", "late")));
    assert_eq!(cache.lookup("alice"), Some(&feed("alice", "late")));
}

#[test]
fn completion_without_a_generation_changes_nothing() {
    let mut cache = FeedCache::new();
    cache.complete("alice", &Ok(feed("alice", "stray")));
    assert_eq!(cache.lookup("alice"), None);
    let _ = cache.get_or_create("alice", |id| Ok(feed(id, "kept")));
    cache.complete("alice", &Ok(feed("alice", "stray")));
    assert_eq!(cache.lookup("alice"), Some(&feed("alice", "kept")));
    cache.complete("alice", &Err(UpstreamFailure::SearchFailed));
    assert_eq!(cache.lookup("alice"), Some(&feed("alice", "kept")));
}

#[test]
fn get_or_create_reports_a_generation_in_flight() {
    let mut cache = FeedCache::new();
    assert!(matches!(cache.begin("alice"), Step::Generate));
    let mut calls = 0;
    let result = cache.get_or_create("alice", |id| {
        calls += 1;
        Ok(feed(id, "second"))
    });
    assert_eq!(result, Err(FetchError::InFlight));
    assert_eq!(calls, 0);
    assert_eq!(cache.lookup("alice"), None);
    assert!(matches!(cache.begin("alice"), Step::Wait));
}

#[test]
fn empty_user_is_a_key_like_any_other() {
    let mut cache = FeedCache::new();
    let result = cache.get_or_create("", |id| Ok(feed(id, "anonymous")));
    assert_eq!(result, Ok(feed("", "anonymous")));
    assert_eq!(cache.lookup(""), Some(&feed("", "anonymous")));
    assert_eq!(cache.lookup(" "), None);
}

/// Runs `requesters` interleaved requests for one user in the order that
/// `seed` picks, and returns how many of them generated and what each got.
fn interleave(seed: u64, requesters: usize) -> (usize, Vec<FeedDocument>) {
    let mut cache = FeedCache::new();
    let mut generating: Vec<Option<u32>> = vec![None; requesters];
    let mut observed: Vec<Option<FeedDocument>> = (0..requesters).map(|_| None).collect();
    let mut generations = 0;
    let mut state = seed;
    while observed.iter().any(|o| o.is_none()) {
        state = state.wrapping_mul(6364136223846793005).wrapping_add(1442695040888963407);
        let who = (state >> 33) as usize % requesters;
        if observed[who].is_some() {
            continue;
        }
        match generating[who] {
            Some(0) => {
                let made = Ok(feed("alice", &format!("generation {}", generations)));
                cache.complete("alice", &made);
                observed[who] = made.ok();
                generating[who] = None;
            }
            Some(rounds) => generating[who] = Some(rounds - 1),
            None => match cache.begin("alice") {
                Step::Hit(document) => observed[who] = Some(document),
                Step::Wait => {}
                Step::Generate => {
                    generations += 1;
                    generating[who] = Some(3);
                }
            },
        }
    }
    (generations, observed.into_iter().map(|o| o.unwrap()).collect())
}

#[test]
fn interleaved_requesters_share_one_generation() {
    for seed in 0..200 {
        let (generations, observed) = interleave(seed, 6);
        assert_eq!(generations, 1, "seed {}", seed);
        assert_eq!(observed.len(), 6);
        for document in &observed {
            assert_eq!(document, &feed("alice", "generation 1"), "seed {}", seed);
        }
    }
}
