use scholar_feed::assembler::build_document;
use scholar_feed::document::{Entry, FeedDocument, SourceRef};
use scholar_feed::render::render;
use scholar_feed::search::Record;

const STAMP: &str = "Wed, 28 Oct 2026 04:08:00 +0000";

fn paper(title: &str) -> Record {
    Record {
        title: title.to_string(),
        author: "A Lovelace".to_string(),
        summary: "On the analytical engine.".to_string(),
        venue: Some("Scientific Memoirs".to_string()),
        link: "https://example.org/notes".to_string(),
        domain: "example".to_string(),
        year: Some("1843".to_string()),
    }
}

fn parsed(document: &FeedDocument) -> rss::Channel {
    rss::Channel::read_from(render(document).as_bytes()).unwrap()
}

#[test]
fn document_is_written_as_rss_two() {
    let document = build_document("alice", vec![paper("Notes")], STAMP);
    let expected = [
        "<?xml version=\"1.0\" encoding=\"utf-8\"?>",
        "<rss version=\"2.0\" xmlns:content=\"http://purl.org/rss/1.0/modules/content/\">",
        "<channel>",
        "<title>alice scientific publications</title>",
        "<link></link>",
        "<description>An RSS feed for alice scientific publications. ",
        "Parsed from Google Scholar.</description>",
        "<language>en-US</language>",
        "<copyright>\u{c2}\u{a9} Google Scholar</copyright>",
        "<pubDate>Wed, 28 Oct 2026 04:08:00 +0000</pubDate>",
        "<lastBuildDate>Wed, 28 Oct 2026 04:08:00 +0000</lastBuildDate>",
        "<category>Scientific Research</category>",
        "<generator>google-scholar-rss-feed</generator>",
        "<docs>https://cyber.harvard.edu/rss/rss.html</docs>",
        "<ttl>60</ttl>",
        "<textInput><title>Google Scholar</title>",
        "<description>Search Google Scholar</description>",
        "<name>q</name>",
        "<link>https://scholar.google.com/scholar</link></textInput>",
        "<item><title>Notes</title>",
        "<link>https://example.org/notes</link>",
        "<description><![CDATA[Scientific Memoirs]]></description>",
        "<author>A Lovelace</author>",
        "<pubDate>1843</pubDate>",
        "<source url=\"example.com\">example</source>",
        "<content:encoded><![CDATA[On the analytical engine.]]></content:encoded>",
        "</item>",
        "</channel></rss>",
    ]
    .concat();
    assert_eq!(render(&document), expected);
}

#[test]
fn document_without_entries_is_a_valid_feed() {
    let document = build_document("nobody", Vec::new(), STAMP);
    let channel = parsed(&document);
    assert_eq!(channel.title(), "nobody scientific publications");
    assert_eq!(channel.items().len(), 0);
    assert!(!render(&document).contains("<item>"));
}

#[test]
fn channel_metadata_survives_the_round_trip() {
    let document = build_document("alice", vec![paper("Notes")], STAMP);
    let channel = parsed(&document);
    assert_eq!(channel.title(), document.meta.title);
    assert_eq!(channel.description(), document.meta.description);
    assert_eq!(channel.language(), Some("en-US"));
    assert_eq!(channel.generator(), Some("google-scholar-rss-feed"));
    assert_eq!(channel.copyright(), Some(document.meta.copyright.as_str()));
    assert_eq!(channel.ttl(), Some("60"));
    assert_eq!(channel.docs(), Some("https://cyber.harvard.edu/rss/rss.html"));
    assert_eq!(channel.pub_date(), Some(STAMP));
    assert_eq!(channel.last_build_date(), Some(STAMP));
    let names: Vec<&str> = channel.categories().iter().map(|c| c.name()).collect();
    assert_eq!(names, vec!["Scientific Research"]);
    let input = channel.text_input().unwrap();
    assert_eq!(input.title(), "Google Scholar");
    assert_eq!(input.description(), "Search Google Scholar");
    assert_eq!(input.name(), "q");
    assert_eq!(input.link(), "https://scholar.google.com/scholar");
}

#[test]
fn entry_fields_survive_the_round_trip() {
    let entry = Entry {
        title: "Sketch of the Analytical Engine <with notes> & more".to_string(),
        author: "L. F. Menabrea, \"A. A. L.\"".to_string(),
        description: Some("Bibliothèque Universelle de Genève, n° 82".to_string()),
        link: "https://example.org/paper?id=1&lang=fr".to_string(),
        source: Some(SourceRef {
            url: "example.org".to_string(),
            title: "example.org".to_string(),
        }),
        pub_date: Some("Tue, 1 Oct 1842 00:00:00 +0000".to_string()),
        content: "x < y && y > z; see ]]> for details".to_string(),
    };
    let mut document = build_document("alice", Vec::new(), STAMP);
    document.entries.push(entry.clone());
    let channel = parsed(&document);
    assert_eq!(channel.items().len(), 1);
    let item = &channel.items()[0];
    assert_eq!(item.title(), Some(entry.title.as_str()));
    assert_eq!(item.author(), Some(entry.author.as_str()));
    assert_eq!(item.link(), Some(entry.link.as_str()));
    assert_eq!(item.description(), entry.description.as_deref());
    assert_eq!(item.pub_date(), entry.pub_date.as_deref());
    assert_eq!(item.content(), Some(entry.content.as_str()));
    let source = item.source().unwrap();
    assert_eq!(source.url(), "example.org");
    assert_eq!(source.title(), Some("example.org"));
}

#[test]
fn fields_that_were_not_set_stay_absent() {
    let entry = Entry {
        title: "Untitled".to_string(),
        author: "Anonymous".to_string(),
        description: None,
        link: "https://example.org".to_string(),
        source: None,
        pub_date: None,
        content: "text".to_string(),
    };
    let mut document = build_document("alice", Vec::new(), STAMP);
    document.entries.push(entry);
    let channel = parsed(&document);
    let item = &channel.items()[0];
    assert_eq!(item.description(), None);
    assert_eq!(item.pub_date(), None);
    assert!(item.source().is_none());
    assert_eq!(item.title(), Some("Untitled"));
}

#[test]
fn entries_are_written_in_document_order() {
    let document = build_document(
        "alice",
        vec![paper("third"), paper("first"), paper("second")],
        STAMP,
    );
    let channel = parsed(&document);
    let titles: Vec<Option<&str>> = channel.items().iter().map(|i| i.title()).collect();
    assert_eq!(titles, vec![Some("third"), Some("first"), Some("second")]);
}

#[test]
fn equal_documents_render_alike() {
    let one = build_document("alice", vec![paper("Notes")], STAMP);
    let other = one.clone();
    assert_eq!(one, other);
    assert_eq!(render(&one), render(&other));
}
