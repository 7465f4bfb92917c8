//! The feed document: channel metadata and an ordered sequence of entries.
//!
//! Every type here is plain data. Its view replaces each string by its
//! sequence of characters, so that contracts elsewhere can speak of a document
//! as a mathematical value.

use vstd::prelude::*;

verus! {

/// The characters of an optional string.
pub open spec fn opt_text(text: Option<String>) -> Option<Seq<char>> {
    match text {
        Some(s) => Some(s@),
        None => None,
    }
}

/// The characters of each string of a sequence, in order.
pub open spec fn text_views(texts: Seq<String>) -> Seq<Seq<char>> {
    texts.map_values(|s: String| s@)
}

/// Where an entry was published: a reference built from the record's domain
/// and the name shown for it.
#[derive(Debug, PartialEq, Eq)]
pub struct SourceRef {
    pub url: String,
    pub title: String,
}

pub struct SourceRefView {
    pub url: Seq<char>,
    pub title: Seq<char>,
}

impl View for SourceRef {
    type V = SourceRefView;

    open spec fn view(&self) -> SourceRefView {
        SourceRefView { url: self.url@, title: self.title@ }
    }
}

impl Clone for SourceRef {
    fn clone(&self) -> (copy: Self)
        ensures
            copy@ == self@,
    {
        SourceRef { url: self.url.clone(), title: self.title.clone() }
    }
}

/// The view of an optional source reference.
pub open spec fn opt_source(source: Option<SourceRef>) -> Option<SourceRefView> {
    match source {
        Some(s) => Some(s@),
        None => None,
    }
}

/// One publication, as a feed item. An entry has no identity beyond its
/// position in the document.
#[derive(Debug, PartialEq, Eq)]
pub struct Entry {
    pub title: String,
    pub author: String,
    /// The venue the publication appeared in, when the record names one.
    pub description: Option<String>,
    pub link: String,
    pub source: Option<SourceRef>,
    pub pub_date: Option<String>,
    /// The abstract.
    pub content: String,
}

pub struct EntryView {
    pub title: Seq<char>,
    pub author: Seq<char>,
    pub description: Option<Seq<char>>,
    pub link: Seq<char>,
    pub source: Option<SourceRefView>,
    pub pub_date: Option<Seq<char>>,
    pub content: Seq<char>,
}

impl View for Entry {
    type V = EntryView;

    open spec fn view(&self) -> EntryView {
        EntryView {
            title: self.title@,
            author: self.author@,
            description: opt_text(self.description),
            link: self.link@,
            source: opt_source(self.source),
            pub_date: opt_text(self.pub_date),
            content: self.content@,
        }
    }
}

impl Clone for Entry {
    fn clone(&self) -> (copy: Self)
        ensures
            copy@ == self@,
    {
        Entry {
            title: self.title.clone(),
            author: self.author.clone(),
            description: self.description.clone(),
            link: self.link.clone(),
            source: self.source.clone(),
            pub_date: self.pub_date.clone(),
            content: self.content.clone(),
        }
    }
}

/// The view of each entry of a sequence, in order.
pub open spec fn entry_views(entries: Seq<Entry>) -> Seq<EntryView> {
    entries.map_values(|e: Entry| e@)
}

/// The search box a reader may show with the channel.
#[derive(Debug, PartialEq, Eq)]
pub struct TextInput {
    pub title: String,
    pub description: String,
    pub name: String,
    pub link: String,
}

pub struct TextInputView {
    pub title: Seq<char>,
    pub description: Seq<char>,
    pub name: Seq<char>,
    pub link: Seq<char>,
}

impl View for TextInput {
    type V = TextInputView;

    open spec fn view(&self) -> TextInputView {
        TextInputView {
            title: self.title@,
            description: self.description@,
            name: self.name@,
            link: self.link@,
        }
    }
}

impl Clone for TextInput {
    fn clone(&self) -> (copy: Self)
        ensures
            copy@ == self@,
    {
        TextInput {
            title: self.title.clone(),
            description: self.description.clone(),
            name: self.name.clone(),
            link: self.link.clone(),
        }
    }
}

/// Channel-level metadata of a feed document.
#[derive(Debug, PartialEq, Eq)]
pub struct ChannelMeta {
    pub title: String,
    pub description: String,
    pub language: String,
    pub generator: String,
    pub copyright: String,
    /// Minutes a reader may keep the channel before asking again.
    pub ttl: String,
    pub docs: String,
    pub text_input: TextInput,
    pub categories: Vec<String>,
    pub pub_date: String,
    pub last_build_date: String,
}

pub struct ChannelMetaView {
    pub title: Seq<char>,
    pub description: Seq<char>,
    pub language: Seq<char>,
    pub generator: Seq<char>,
    pub copyright: Seq<char>,
    pub ttl: Seq<char>,
    pub docs: Seq<char>,
    pub text_input: TextInputView,
    pub categories: Seq<Seq<char>>,
    pub pub_date: Seq<char>,
    pub last_build_date: Seq<char>,
}

impl View for ChannelMeta {
    type V = ChannelMetaView;

    open spec fn view(&self) -> ChannelMetaView {
        ChannelMetaView {
            title: self.title@,
            description: self.description@,
            language: self.language@,
            generator: self.generator@,
            copyright: self.copyright@,
            ttl: self.ttl@,
            docs: self.docs@,
            text_input: self.text_input@,
            categories: text_views(self.categories@),
            pub_date: self.pub_date@,
            last_build_date: self.last_build_date@,
        }
    }
}

impl Clone for ChannelMeta {
    fn clone(&self) -> (copy: Self)
        ensures
            copy@ == self@,
    {
        let categories = self.categories.clone();
        assert(text_views(categories@) =~= text_views(self.categories@));
        ChannelMeta {
            title: self.title.clone(),
            description: self.description.clone(),
            language: self.language.clone(),
            generator: self.generator.clone(),
            copyright: self.copyright.clone(),
            ttl: self.ttl.clone(),
            docs: self.docs.clone(),
            text_input: self.text_input.clone(),
            categories,
            pub_date: self.pub_date.clone(),
            last_build_date: self.last_build_date.clone(),
        }
    }
}

/// The assembled syndication content for one user: metadata and entries, the
/// entries in the order in which the search returned them.
#[derive(Debug, PartialEq, Eq)]
pub struct FeedDocument {
    pub meta: ChannelMeta,
    pub entries: Vec<Entry>,
}

pub struct FeedView {
    pub meta: ChannelMetaView,
    pub entries: Seq<EntryView>,
}

impl View for FeedDocument {
    type V = FeedView;

    open spec fn view(&self) -> FeedView {
        FeedView { meta: self.meta@, entries: entry_views(self.entries@) }
    }
}

impl Clone for FeedDocument {
    fn clone(&self) -> (copy: Self)
        ensures
            copy@ == self@,
    {
        let entries = self.entries.clone();
        assert(entry_views(entries@) =~= entry_views(self.entries@));
        FeedDocument { meta: self.meta.clone(), entries }
    }
}

} // verus!
