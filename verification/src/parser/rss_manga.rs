//! Feeds in plain RSS: the first item of the channel is the latest chapter.

use crate::fetch::{fetched_view, FetchError, FetchErrorView, FetchedView};
use crate::time::{spec_from_rfc2822, TimeView, ZonedTime};
use crate::types::{Manga, MangaView};
use vstd::prelude::*;

verus! {

/// A decoded feed.
#[derive(Debug, Clone)]
pub struct Rss {
    pub channel: Channel,
}

/// The channel of a feed; its items come latest first.
#[derive(Debug, Clone)]
pub struct Channel {
    pub title: String,
    pub pub_date: ZonedTime,
    pub link: String,
    pub description: String,
    pub item: Vec<Item>,
}

/// One chapter of a feed.
#[derive(Debug, Clone)]
pub struct Item {
    pub title: String,
    pub link: String,
    pub guid: String,
    pub pub_date: ZonedTime,
    pub description: String,
    pub enclosure: Enclosure,
    pub author: String,
}

/// The picture that comes with a chapter.
#[derive(Debug, Clone)]
pub struct Enclosure {
    pub url: String,
    pub length: String,
    pub type_field: String,
}

/// The date that a feed gives in the form of RFC 2822, or the words of the
/// parser on why `date_string` is none.
pub fn deserialize(date_string: &str) -> (parsed: Result<ZonedTime, String>)
    ensures
        match parsed {
            Ok(time) => spec_from_rfc2822(date_string@) == Ok::<TimeView, Seq<char>>(time@),
            Err(words) => spec_from_rfc2822(date_string@) == Err::<TimeView, Seq<char>>(words@),
        },
{
    ZonedTime::from_rfc2822(date_string)
}

/// The record that the first item of a channel makes, where it has one.
pub open spec fn first_item_manga(value: Channel) -> Option<MangaView> {
    if value.item@.len() == 0 {
        None
    } else {
        let latest = value.item@[0];
        Some(
            MangaView {
                title: value.title@,
                cover_url: latest.enclosure.url@,
                author: latest.author@,
                latest_chapter_title: latest.title@,
                latest_chapter_url: latest.link@,
                latest_chapter_release_date: latest.pub_date@,
                latest_chapter_publish_day: latest.pub_date@.weekday(),
            },
        )
    }
}

/// The record of a channel: that of its first item; no chapter is found
/// where it has no item.
pub open spec fn spec_manga(value: Channel) -> FetchedView {
    match first_item_manga(value) {
        Some(manga) => Ok(manga),
        None => Err(FetchErrorView::ChapterNotFound(None)),
    }
}

/// The record that the first item of a channel makes, where it has one.
pub fn latest_of(value: Channel) -> (manga: Option<Manga>)
    ensures
        manga is Some <==> first_item_manga(value) is Some,
        manga matches Some(m) ==> Some(m@) == first_item_manga(value) && m@.consistent(),
{
    if value.item.len() == 0 {
        return None;
    }
    let latest = &value.item[0];
    Some(
        Manga::released_at(
            value.title.clone(),
            latest.enclosure.url.clone(),
            latest.author.clone(),
            latest.title.clone(),
            latest.link.clone(),
            latest.pub_date,
        ),
    )
}

/// The record of a channel.
pub fn manga_from_channel(value: Channel) -> (fetched: Result<Manga, FetchError>)
    ensures
        fetched_view(fetched) == spec_manga(value),
        fetched matches Ok(manga) ==> manga@.consistent(),
{
    match latest_of(value) {
        Some(manga) => Ok(manga),
        None => Err(FetchError::ChapterNotFound(None)),
    }
}

/// What a feed gives, where decoding it gave `decoded`.
pub open spec fn spec_from_rss_xml(decoded: Result<Rss, String>) -> FetchedView {
    match decoded {
        Ok(rss) => spec_manga(rss.channel),
        Err(words) => Err(FetchErrorView::XmlDeserializeError(Some(words@))),
    }
}

/// The record of a feed, where decoding its text gave `decoded`: the feed,
/// or the words of the decoder.
pub fn from_rss_xml(decoded: Result<Rss, String>) -> (fetched: Result<Manga, FetchError>)
    ensures
        fetched_view(fetched) == spec_from_rss_xml(decoded),
        fetched matches Ok(manga) ==> manga@.consistent(),
{
    match decoded {
        Ok(rss) => manga_from_channel(rss.channel),
        Err(words) => Err(FetchError::XmlDeserializeError(Some(words))),
    }
}

} // verus!
