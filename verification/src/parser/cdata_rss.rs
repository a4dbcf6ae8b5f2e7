//! Feeds whose values come wrapped in CDATA sections.

use crate::fetch::{fetched_view, FetchError, FetchErrorView, FetchedView};
use crate::text::{replace_all, replace_all_in, trim, trim_in};
use crate::time::{spec_from_rfc2822, TimeView, ZonedTime};
use crate::types::{Manga, MangaView};
use vstd::prelude::*;

verus! {

/// A decoded feed.
#[derive(Debug, Clone)]
pub struct Rss {
    pub channel: Channel,
}

/// The channel of a feed; its items come latest first.
#[derive(Debug, Clone)]
pub struct Channel {
    pub title: Value,
    pub item: Vec<Item>,
}

/// One chapter of a feed.
#[derive(Debug, Clone)]
pub struct Item {
    pub title: Value,
    pub link: Value,
    pub pub_date: DateValue,
    /// The picture of the chapter, as the text of the element or as its
    /// `url` attribute.
    pub thumbnail: ThumbnailValue,
    /// The author, which some feeds leave out.
    pub creator: OptionalValue,
}

/// The text of an element.
#[derive(Debug, Clone)]
pub struct Value {
    pub inner: String,
}

/// The text of an element that may have none.
#[derive(Debug, Clone)]
pub struct OptionalValue {
    pub inner: Option<String>,
}

/// The text and the `url` attribute of an element that may lack either.
#[derive(Debug, Clone)]
pub struct ThumbnailValue {
    pub inner: Option<String>,
    pub url: Option<String>,
}

/// The date of an element.
#[derive(Debug, Clone)]
pub struct DateValue {
    pub date: Rfc2822Date,
}

/// A date given in the form of RFC 2822.
#[derive(Debug, Clone)]
pub struct Rfc2822Date(pub ZonedTime);

impl Rfc2822Date {
    /// The date that `s` holds, or the words of the parser on why it holds
    /// none.
    pub fn deserialize(s: &str) -> (parsed: Result<Rfc2822Date, String>)
        ensures
            match parsed {
                Ok(date) => spec_from_rfc2822(s@) == Ok::<TimeView, Seq<char>>(date.0@),
                Err(words) => spec_from_rfc2822(s@) == Err::<TimeView, Seq<char>>(words@),
            },
    {
        match ZonedTime::from_rfc2822(s) {
            Ok(time) => Ok(Rfc2822Date(time)),
            Err(words) => Err(words),
        }
    }
}

/// The text of a feed without the marks that open and close its CDATA
/// sections.
pub open spec fn spec_strip_cdata(xml: Seq<char>) -> Seq<char> {
    replace_all(replace_all(xml, "<![CDATA["@, ""@), "]]>"@, ""@)
}

/// The text of a feed without the marks that open and close its CDATA
/// sections: the text to decode.
pub fn strip_cdata(xml: &str) -> (stripped: String)
    ensures
        stripped@ == spec_strip_cdata(xml@),
{
    let opened = replace_all_in(xml, "<![CDATA[", "");
    replace_all_in(opened.as_str(), "]]>", "")
}

/// The picture of a chapter: the text of the element where it has one, else
/// its `url` attribute, else nothing.
pub open spec fn thumbnail_of(thumbnail: ThumbnailValue) -> Seq<char> {
    match (thumbnail.inner, thumbnail.url) {
        (Some(text), _) => text@,
        (None, Some(url)) => url@,
        (None, None) => Seq::empty(),
    }
}

/// The author of a chapter, empty where the feed names none.
pub open spec fn creator_of(creator: OptionalValue) -> Seq<char> {
    match creator.inner {
        Some(name) => name@,
        None => Seq::empty(),
    }
}

/// The record of a channel: that of its first item, the titles without the
/// white space around them; no chapter is found where it has no item.
pub open spec fn spec_manga(value: Channel) -> FetchedView {
    if value.item@.len() == 0 {
        Err(FetchErrorView::ChapterNotFound(None))
    } else {
        let latest = value.item@[0];
        Ok(
            MangaView {
                title: trim(value.title.inner@),
                cover_url: thumbnail_of(latest.thumbnail),
                author: creator_of(latest.creator),
                latest_chapter_title: trim(latest.title.inner@),
                latest_chapter_url: latest.link.inner@,
                latest_chapter_release_date: latest.pub_date.date.0@,
                latest_chapter_publish_day: latest.pub_date.date.0@.weekday(),
            },
        )
    }
}

/// The record of a channel.
pub fn manga_from_channel(value: Channel) -> (fetched: Result<Manga, FetchError>)
    ensures
        fetched_view(fetched) == spec_manga(value),
        fetched matches Ok(manga) ==> manga@.consistent(),
{
    if value.item.len() == 0 {
        return Err(FetchError::ChapterNotFound(None));
    }
    let latest = &value.item[0];
    let thumbnail = match (&latest.thumbnail.inner, &latest.thumbnail.url) {
        (Some(text), _) => text.clone(),
        (None, Some(url)) => url.clone(),
        (None, None) => String::new(),
    };
    let author = match &latest.creator.inner {
        Some(name) => name.clone(),
        None => String::new(),
    };
    Ok(
        Manga::released_at(
            trim_in(value.title.inner.as_str()),
            thumbnail,
            author,
            trim_in(latest.title.inner.as_str()),
            latest.link.inner.clone(),
            latest.pub_date.date.0,
        ),
    )
}

/// What a feed gives, where decoding it gave `decoded`.
pub open spec fn spec_parse(decoded: Result<Rss, String>) -> FetchedView {
    match decoded {
        Ok(rss) => spec_manga(rss.channel),
        Err(words) => Err(FetchErrorView::XmlDeserializeError(Some(words@))),
    }
}

/// The record of a feed, where decoding its text without the CDATA marks
/// (see `strip_cdata`) gave `decoded`: the feed, or the words of the decoder.
pub fn parse_cdata_xml(decoded: Result<Rss, String>) -> (fetched: Result<Manga, FetchError>)
    ensures
        fetched_view(fetched) == spec_parse(decoded),
        fetched matches Ok(manga) ==> manga@.consistent(),
{
    match decoded {
        Ok(rss) => manga_from_channel(rss.channel),
        Err(words) => Err(FetchError::XmlDeserializeError(Some(words))),
    }
}

} // verus!
