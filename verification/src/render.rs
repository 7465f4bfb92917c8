//! Writing a feed document as RSS text, through the `rss` crate.
//!
//! The document is handed to `rss` piece by piece: each entry becomes an
//! `rss::Item`, metadata and items become an `rss::Channel`, and the channel
//! is written out. Verus sees none of `rss`; what each step returns is given a
//! name, and the text of a document is stated over those names.

use vstd::prelude::*;
use crate::document::{ChannelMeta, ChannelMetaView, Entry, EntryView, FeedDocument, FeedView};

verus! {

/// `rss::Item`, carried through as an opaque value.
#[verifier::external_type_specification]
#[verifier::external_body]
pub struct ExItem(rss::Item);

/// `rss::Channel`, carried through as an opaque value.
#[verifier::external_type_specification]
#[verifier::external_body]
pub struct ExChannel(rss::Channel);

/// The item that `rss::ItemBuilder` builds from the fields of an entry.
pub uninterp spec fn rss_item(entry: EntryView) -> rss::Item;

/// The channel that `rss::ChannelBuilder` builds from metadata and items.
pub uninterp spec fn rss_channel(meta: ChannelMetaView, items: Seq<rss::Item>) -> rss::Channel;

/// The text that `rss::Channel::to_string` writes for a channel.
pub uninterp spec fn rss_text(channel: rss::Channel) -> Seq<char>;

/// Builds the `rss::Item` of an entry with `rss::ItemBuilder`: title, author,
/// description, link, source, publication date and content are set from the
/// entry's fields of the same names, and `build` is called. The result
/// depends on the entry's text alone.
#[verifier::external_body]
fn to_item(entry: Entry) -> (item: rss::Item)
    ensures
        item == rss_item(entry@),
{
    rss::ItemBuilder::default()
        .title(entry.title)
        .author(entry.author)
        .description(entry.description)
        .link(entry.link)
        .source(entry.source.map(|s| rss::Source { url: s.url, title: Some(s.title) }))
        .pub_date(entry.pub_date)
        .content(entry.content)
        .build()
}

/// Builds the `rss::Channel` of a document with `rss::ChannelBuilder`: every
/// field of the metadata is set under its own name, the items are set as
/// given, and `build` is called. The result depends on the metadata's text
/// and the items alone.
#[verifier::external_body]
fn to_channel(meta: ChannelMeta, items: Vec<rss::Item>) -> (channel: rss::Channel)
    ensures
        channel == rss_channel(meta@, items@),
{
    let t = meta.text_input;
    rss::ChannelBuilder::default()
        .title(meta.title).description(meta.description)
        .language(meta.language).generator(meta.generator)
        .copyright(meta.copyright).ttl(meta.ttl).docs(meta.docs)
        .text_input(rss::TextInput {
            title: t.title, description: t.description, name: t.name, link: t.link,
        })
        .categories(meta.categories.into_iter().map(rss::Category::from).collect::<Vec<_>>())
        .items(items)
        .pub_date(meta.pub_date).last_build_date(meta.last_build_date)
        .build()
}

/// Writes a channel as RSS 2.0 text with `rss::Channel::to_string`. The text
/// depends on the channel alone.
#[verifier::external_body]
fn channel_text(channel: &rss::Channel) -> (text: String)
    ensures
        text@ == rss_text(*channel),
{
    channel.to_string()
}

/// The items of a sequence of entries, in order.
pub open spec fn rss_items(entries: Seq<EntryView>) -> Seq<rss::Item> {
    entries.map_values(|e: EntryView| rss_item(e))
}

/// The RSS text of a document.
pub open spec fn rendered(document: FeedView) -> Seq<char> {
    rss_text(rss_channel(document.meta, rss_items(document.entries)))
}

/// Serialises a document as RSS text. Entries appear in the order in which the
/// document holds them.
pub fn render(document: &FeedDocument) -> (text: String)
    ensures
        text@ == rendered(document@),
{
    let mut items: Vec<rss::Item> = Vec::new();
    let mut i: usize = 0;
    while i < document.entries.len()
        invariant
            i <= document.entries.len(),
            items@.len() == i,
            forall|j: int| 0 <= j < i ==> #[trigger] items@[j] == rss_item(document.entries@[j]@),
        decreases document.entries.len() - i,
    {
        items.push(to_item(document.entries[i].clone()));
        i += 1;
    }
    assert(items@ =~= rss_items(document@.entries));
    let channel = to_channel(document.meta.clone(), items);
    channel_text(&channel)
}

} // verus!
