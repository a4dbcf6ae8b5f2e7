//! The feed of Champion Cross, read strictly: every value must be there.

use crate::text::{trim, trim_in};
use crate::time::{spec_from_rfc2822, TimeView, ZonedTime};
use crate::types::{Manga, MangaView};
use vstd::prelude::*;

verus! {

/// Why a feed gave no record.
#[derive(Clone, Copy, Debug, PartialEq, Eq, Structural)]
pub enum ChampionCrossError {
    /// The feed could not be decoded.
    DeserializeError,
    /// The channel has no item.
    EmptyChapter,
}

/// A decoded feed.
#[derive(Debug, Clone)]
pub struct Rss {
    pub channel: Channel,
}

/// The channel of a feed; its items come latest first.
#[derive(Debug, Clone)]
pub struct Channel {
    pub title: Value,
    pub item: Vec<Item>,
}

/// One chapter of a feed.
#[derive(Debug, Clone)]
pub struct Item {
    pub title: Value,
    pub link: Value,
    pub guid: Value,
    pub pub_date: DateValue,
    pub thumbnail: Value,
    pub creator: Value,
}

/// The text of an element.
#[derive(Debug, Clone)]
pub struct Value {
    pub inner: String,
}

/// The date of an element.
#[derive(Debug, Clone)]
pub struct DateValue {
    pub date: Rfc2822Date,
}

/// A date given in the form of RFC 2822.
#[derive(Debug, Clone)]
pub struct Rfc2822Date(pub ZonedTime);

impl Rfc2822Date {
    /// The date that `s` holds, or the words of the parser on why it holds
    /// none.
    pub fn deserialize(s: &str) -> (parsed: Result<Rfc2822Date, String>)
        ensures
            match parsed {
                Ok(date) => spec_from_rfc2822(s@) == Ok::<TimeView, Seq<char>>(date.0@),
                Err(words) => spec_from_rfc2822(s@) == Err::<TimeView, Seq<char>>(words@),
            },
    {
        match ZonedTime::from_rfc2822(s) {
            Ok(time) => Ok(Rfc2822Date(time)),
            Err(words) => Err(words),
        }
    }
}

/// The record of a channel: that of its first item, the titles without the
/// white space around them.
pub open spec fn spec_manga(value: Channel) -> Result<MangaView, ChampionCrossError> {
    if value.item@.len() == 0 {
        Err(ChampionCrossError::EmptyChapter)
    } else {
        let latest = value.item@[0];
        Ok(
            MangaView {
                title: trim(value.title.inner@),
                cover_url: latest.thumbnail.inner@,
                author: latest.creator.inner@,
                latest_chapter_title: trim(latest.title.inner@),
                latest_chapter_url: latest.link.inner@,
                latest_chapter_release_date: latest.pub_date.date.0@,
                latest_chapter_publish_day: latest.pub_date.date.0@.weekday(),
            },
        )
    }
}

/// What a conversion gave, over the view of its record.
pub open spec fn converted_view(converted: Result<Manga, ChampionCrossError>) -> Result<
    MangaView,
    ChampionCrossError,
> {
    match converted {
        Ok(manga) => Ok(manga@),
        Err(error) => Err(error),
    }
}

/// The record of a channel.
pub fn manga_from_channel(value: Channel) -> (converted: Result<Manga, ChampionCrossError>)
    ensures
        converted_view(converted) == spec_manga(value),
        converted matches Ok(manga) ==> manga@.consistent(),
{
    if value.item.len() == 0 {
        return Err(ChampionCrossError::EmptyChapter);
    }
    let latest = &value.item[0];
    Ok(
        Manga::released_at(
            trim_in(value.title.inner.as_str()),
            latest.thumbnail.inner.clone(),
            latest.creator.inner.clone(),
            trim_in(latest.title.inner.as_str()),
            latest.link.inner.clone(),
            latest.pub_date.date.0,
        ),
    )
}

/// What a feed gives, where decoding it gave `decoded`.
pub open spec fn spec_parse(decoded: Option<Rss>) -> Result<MangaView, ChampionCrossError> {
    match decoded {
        Some(rss) => spec_manga(rss.channel),
        None => Err(ChampionCrossError::DeserializeError),
    }
}

/// The record of a feed, where decoding its text without the CDATA marks
/// (see `cdata_rss::strip_cdata`) gave `decoded`: the feed, or nothing where the text
/// is no feed.
pub fn parse_champion_cross_xml(decoded: Option<Rss>) -> (converted: Result<
    Manga,
    ChampionCrossError,
>)
    ensures
        converted_view(converted) == spec_parse(decoded),
        converted matches Ok(manga) ==> manga@.consistent(),
{
    match decoded {
        Some(rss) => manga_from_channel(rss.channel),
        None => Err(ChampionCrossError::DeserializeError),
    }
}

} // verus!
