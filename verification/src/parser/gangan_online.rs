//! Gangan Online: the page of a series carries its data as JSON in a script.

use crate::fetch::{
    chapter_missing, fetched_view, page_missing, FetchError, FetchErrorView, FetchedView,
};
use crate::html::{document_first_html, first_inner_html, parse_document};
use crate::text::{concat, concat4, decimal, decimal_of, text_view};
use crate::time::{TimeView, ZonedTime};
use crate::types::{Manga, MangaView};
use vstd::prelude::*;

verus! {

/// The data in the script of a page.
#[derive(Default, Debug, Clone, PartialEq)]
pub struct GanganOnline {
    pub props: Props,
}

#[derive(Default, Debug, Clone, PartialEq)]
pub struct Props {
    pub page_props: PageProps,
}

#[derive(Default, Debug, Clone, PartialEq)]
pub struct PageProps {
    pub data: Data,
}

#[derive(Default, Debug, Clone, PartialEq)]
pub struct Data {
    pub default: Default,
}

/// What the page says of the series; its chapters come latest first.
#[derive(Default, Debug, Clone, PartialEq)]
pub struct Default {
    pub chapters: Vec<Chapter>,
    pub title_name: String,
    pub image_url: String,
    pub author: String,
    pub description: String,
    pub impression_url: String,
    pub title_id: i64,
}

#[derive(Default, Debug, Clone, PartialEq)]
pub struct Chapter {
    pub id: i64,
    pub status: Option<i64>,
    pub thumbnail_url: String,
    pub main_text: String,
    pub sub_text: Option<String>,
    pub app_launch_url: Option<String>,
    pub publishing_period: Option<String>,
}

/// The selector of the script that carries the data.
pub open spec fn next_data_selector() -> Seq<char> {
    "script[id=\"__NEXT_DATA__\"]"@
}

/// The title of a chapter: its second line where it has one, else its first.
pub open spec fn chapter_title(chapter: Chapter) -> Seq<char> {
    match chapter.sub_text {
        Some(sub) => sub@,
        None => chapter.main_text@,
    }
}

/// The record of a series: that of its first chapter, released at `now` as
/// shown in Japan; no chapter is found where it has none.
pub open spec fn spec_manga(data: Default, now: TimeView) -> FetchedView {
    if data.chapters@.len() == 0 {
        Err(chapter_missing("chapters are empty"@))
    } else {
        let chapter = data.chapters@[0];
        Ok(
            MangaView {
                title: data.title_name@,
                cover_url: "https://www.ganganonline.com"@ + chapter.thumbnail_url@,
                author: data.author@,
                latest_chapter_title: chapter_title(chapter),
                latest_chapter_url: "https://www.ganganonline.com/title/"@ + decimal(
                    data.title_id as int,
                ) + "/chapter/"@ + decimal(chapter.id as int),
                latest_chapter_release_date: now.in_japan(),
                latest_chapter_publish_day: now.in_japan().weekday(),
            },
        )
    }
}

/// The record of a series as its page data describes it at `now`.
pub fn manga_from_data(data: &Default, now: ZonedTime) -> (fetched: Result<Manga, FetchError>)
    ensures
        fetched_view(fetched) == spec_manga(*data, now@),
        fetched matches Ok(manga) ==> manga@.consistent(),
{
    if data.chapters.len() == 0 {
        return Err(FetchError::chapter_not_found("chapters are empty"));
    }
    let chapter = &data.chapters[0];
    let latest_chapter_title = match &chapter.sub_text {
        Some(sub) => sub.clone(),
        None => chapter.main_text.clone(),
    };
    Ok(
        Manga::released_at(
            data.title_name.clone(),
            concat("https://www.ganganonline.com", chapter.thumbnail_url.as_str()),
            data.author.clone(),
            latest_chapter_title,
            concat4(
                "https://www.ganganonline.com/title/",
                decimal_of(data.title_id).as_str(),
                "/chapter/",
                decimal_of(chapter.id).as_str(),
            ),
            now.to_japan(),
        ),
    )
}

/// The JSON text that the page `html` carries, if it carries any.
pub fn next_data(html: &str) -> (text: Option<String>)
    ensures
        text_view(text) == document_first_html(html@, next_data_selector()),
{
    let doc = parse_document(html);
    first_inner_html(&doc, "script[id=\"__NEXT_DATA__\"]")
}

/// What the page `html` gives, where decoding the JSON text that it carries
/// gave `decoded`: a page without the script is not found, and a text that
/// cannot be decoded is an error of the decoder.
pub open spec fn spec_parse(html: Seq<char>, decoded: Result<GanganOnline, String>, now: TimeView)
    -> FetchedView {
    match document_first_html(html, next_data_selector()) {
        None => Err(page_missing("__NEXT_DATA__ not found"@)),
        Some(_) => match decoded {
            Err(words) => Err(FetchErrorView::JsonDeserializeError(words@)),
            Ok(data) => spec_manga(data.props.page_props.data.default, now),
        },
    }
}

/// The record of the series on the page `html`, where decoding the JSON
/// text of the page (see `next_data`) gave `decoded`: the data, or the words
/// of the decoder.
pub fn parse_gangan_online_from_html(
    html: String,
    decoded: Result<GanganOnline, String>,
    now: ZonedTime,
) -> (fetched: Result<Manga, FetchError>)
    ensures
        fetched_view(fetched) == spec_parse(html@, decoded, now@),
        fetched matches Ok(manga) ==> manga@.consistent(),
{
    match next_data(html.as_str()) {
        None => Err(FetchError::page_not_found("__NEXT_DATA__ not found")),
        Some(_) => match decoded {
            Err(words) => Err(FetchError::JsonDeserializeError(words)),
            Ok(data) => manga_from_data(&data.props.page_props.data.default, now),
        },
    }
}

} // verus!
