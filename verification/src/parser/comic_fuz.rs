//! Comic Fuz: the page of a series carries its data as JSON in a script.

use crate::fetch::{
    chapter_missing, fetched_view, page_missing, FetchError, FetchErrorView, FetchedView,
};
use crate::html::{document_first_html, first_inner_html, parse_document};
use crate::text::{concat, concat4, decimal, decimal_of, join, join_with};
use crate::time::{
    calendar_day, date_view, japan_midnight, parse_date, parsed_date, reads_calendar_day,
    TimeView, ZonedTime,
};
use crate::types::{Manga, MangaView};
use vstd::prelude::*;

verus! {

/// The data in the script of a page.
#[derive(Default, Debug, Clone, PartialEq)]
pub struct ComicFuz {
    pub props: Props,
}

#[derive(Default, Debug, Clone, PartialEq)]
pub struct Props {
    pub page_props: PageProps,
}

/// What the page says of the series.
#[derive(Default, Debug, Clone, PartialEq)]
pub struct PageProps {
    pub chapters: Vec<Chapter>,
    pub authorships: Vec<Authorship>,
    pub manga: MangaInfo,
}

/// A group of chapters, the latest first.
#[derive(Default, Debug, Clone, PartialEq)]
pub struct Chapter {
    pub chapters: Vec<ChapterDetail>,
}

#[derive(Default, Debug, Clone, PartialEq)]
pub struct ChapterDetail {
    pub chapter_id: i64,
    pub chapter_main_name: String,
    pub thumbnail_url: String,
    pub updated_date: Option<String>,
}

#[derive(Default, Debug, Clone, PartialEq)]
pub struct Authorship {
    pub author: Author,
}

#[derive(Default, Debug, Clone, PartialEq)]
pub struct Author {
    pub author_id: i64,
    pub author_name: String,
}

#[derive(Default, Debug, Clone, PartialEq)]
pub struct MangaInfo {
    pub manga_id: i64,
    pub manga_name: String,
}

/// The selector of the script that carries the data.
pub open spec fn next_data_selector() -> Seq<char> {
    "script[id=\"__NEXT_DATA__\"]"@
}

/// The pattern of the dates of chapters.
pub open spec fn date_format() -> Seq<char> {
    "%Y/%m/%d"@
}

/// The names of the authors, in their order.
pub open spec fn author_names(authorships: Seq<Authorship>) -> Seq<Seq<char>> {
    Seq::new(authorships.len(), |i: int| authorships[i].author.author_name@)
}

/// The latest chapter: the first of the first group.
pub open spec fn latest_chapter(data: PageProps) -> Option<ChapterDetail> {
    if data.chapters@.len() > 0 && data.chapters@[0].chapters@.len() > 0 {
        Some(data.chapters@[0].chapters@[0])
    } else {
        None
    }
}

/// The text of the date of the latest chapter, where there is a latest
/// chapter and it carries a date.
pub open spec fn latest_date_text(data: PageProps) -> Option<Seq<char>> {
    match latest_chapter(data) {
        Some(chapter) => match chapter.updated_date {
            Some(raw) => Some(raw@),
            None => None,
        },
        None => None,
    }
}

/// The record of a series, given what reading the date of its latest
/// chapter gave (`date`, nothing where the chapter carries no date) and the
/// current time.
///
/// Without a group of chapters, or with an empty first group, no chapter is
/// found. A date that cannot be read is an error that quotes the date and the
/// words of the parser, and so is a day that the calendar cannot name. The
/// release is the beginning of the chapter's day in Japan, or the current
/// time, shown in Japan, where the chapter carries no date.
pub open spec fn spec_assemble(data: PageProps, date: Option<Result<int, Seq<char>>>, now: TimeView)
    -> FetchedView {
    if data.chapters@.len() == 0 {
        Err(chapter_missing("chapters is empty"@))
    } else if data.chapters@[0].chapters@.len() == 0 {
        Err(chapter_missing("nested chapters is empty"@))
    } else {
        let chapter = data.chapters@[0].chapters@[0];
        let released = match (chapter.updated_date, date) {
            (Some(raw), Some(Ok(midnight))) => if calendar_day(midnight) {
                Ok(japan_midnight(midnight))
            } else {
                Err(chapter_missing("release date is out of range"@))
            },
            (Some(raw), Some(Err(words))) => Err(
                chapter_missing("error on date parse "@ + raw@ + " : "@ + words),
            ),
            _ => Ok(now.in_japan()),
        };
        match released {
            Err(error) => Err(error),
            Ok(time) => Ok(
                MangaView {
                    title: data.manga.manga_name@,
                    cover_url: "https://img.comic-fuz.com"@ + chapter.thumbnail_url@,
                    author: join(author_names(data.authorships@), ","@),
                    latest_chapter_title: chapter.chapter_main_name@,
                    latest_chapter_url: "https://comic-fuz.com/manga/viewer/"@ + decimal(
                        chapter.chapter_id as int,
                    ),
                    latest_chapter_release_date: time,
                    latest_chapter_publish_day: time.weekday(),
                },
            ),
        }
    }
}

/// The record of a series whose latest chapter, if it carries a date,
/// carries one that reads as `parsed_date` says.
pub open spec fn spec_manga(data: PageProps, now: TimeView) -> FetchedView {
    spec_assemble(
        data,
        match latest_date_text(data) {
            Some(raw) => Some(parsed_date(raw, date_format())),
            None => None,
        },
        now,
    )
}

/// What a date parser gave, if it was asked.
pub open spec fn asked_date_view(date: Option<Result<i64, String>>) -> Option<
    Result<int, Seq<char>>,
> {
    match date {
        Some(parsed) => Some(date_view(parsed)),
        None => None,
    }
}

/// The names of the authors, joined by commas.
fn authors_of(authorships: &Vec<Authorship>) -> (names: String)
    ensures
        names@ == join(author_names(authorships@), ","@),
{
    let mut names: Vec<String> = Vec::new();
    let mut i: usize = 0;
    while i < authorships.len()
        invariant
            i <= authorships.len(),
            names@.len() == i,
            forall|j: int| 0 <= j < i ==> names@[j]@ == authorships@[j].author.author_name@,
        decreases authorships.len() - i,
    {
        names.push(authorships[i].author.author_name.clone());
        i = i + 1;
    }
    assert(Seq::new(names@.len(), |i: int| names@[i]@) =~= author_names(authorships@));
    join_with(&names, ",")
}

/// The record of a series, given what reading the date of its latest
/// chapter gave and the current time.
pub fn assemble(data: &PageProps, date: Option<Result<i64, String>>, now: ZonedTime) -> (fetched:
    Result<Manga, FetchError>)
    ensures
        fetched_view(fetched) == spec_assemble(*data, asked_date_view(date), now@),
        fetched matches Ok(manga) ==> manga@.consistent(),
{
    let author = authors_of(&data.authorships);
    if data.chapters.len() == 0 {
        return Err(FetchError::chapter_not_found("chapters is empty"));
    }
    if data.chapters[0].chapters.len() == 0 {
        return Err(FetchError::chapter_not_found("nested chapters is empty"));
    }
    let chapter = &data.chapters[0].chapters[0];
    let released = match (&chapter.updated_date, date) {
        (Some(raw), Some(Ok(midnight))) => match ZonedTime::at_japan_midnight(midnight) {
            Some(time) => time,
            None => {
                return Err(FetchError::chapter_not_found("release date is out of range"));
            },
        },
        (Some(raw), Some(Err(words))) => {
            let reason = concat4("error on date parse ", raw.as_str(), " : ", words.as_str());
            return Err(FetchError::ChapterNotFound(Some(reason)));
        },
        _ => now.to_japan(),
    };
    Ok(
        Manga::released_at(
            data.manga.manga_name.clone(),
            concat("https://img.comic-fuz.com", chapter.thumbnail_url.as_str()),
            author,
            chapter.chapter_main_name.clone(),
            concat(
                "https://comic-fuz.com/manga/viewer/",
                decimal_of(chapter.chapter_id).as_str(),
            ),
            released,
        ),
    )
}

/// The record of a series as its page data describes it at `now`. The date
/// that was read, if one was, is a day that a release can fall on.
pub fn manga_from_page_props(data: &PageProps, now: ZonedTime) -> (fetched: Result<
    Manga,
    FetchError,
>)
    ensures
        fetched_view(fetched) == spec_manga(*data, now@),
        fetched matches Ok(manga) ==> manga@.consistent(),
        latest_date_text(*data) matches Some(raw) ==> reads_calendar_day(raw, date_format()),
{
    let mut date: Option<Result<i64, String>> = None;
    if data.chapters.len() > 0 && data.chapters[0].chapters.len() > 0 {
        match &data.chapters[0].chapters[0].updated_date {
            Some(raw) => {
                date = Some(parse_date(raw.as_str(), "%Y/%m/%d"));
            },
            None => {},
        }
    }
    assemble(data, date, now)
}

/// The JSON text that the page `html` carries, if it carries any.
pub fn next_data(html: &str) -> (text: Option<String>)
    ensures
        crate::text::text_view(text) == document_first_html(html@, next_data_selector()),
{
    let doc = parse_document(html);
    first_inner_html(&doc, "script[id=\"__NEXT_DATA__\"]")
}

/// What the page `html` gives, where decoding the JSON text that it carries
/// gave `decoded`: a page without the script is not found, and a text that
/// cannot be decoded is an error of the decoder.
pub open spec fn spec_parse(
    html: Seq<char>,
    decoded: Result<ComicFuz, String>,
    now: TimeView,
) -> FetchedView {
    match document_first_html(html, next_data_selector()) {
        None => Err(page_missing("__NEXT_DATA__ not found"@)),
        Some(_) => match decoded {
            Err(words) => Err(FetchErrorView::JsonDeserializeError(words@)),
            Ok(data) => spec_manga(data.props.page_props, now),
        },
    }
}

/// The record of the series on the page `html`, where decoding the JSON
/// text of the page (see `next_data`) gave `decoded`: the data, or the words
/// of the decoder.
pub fn parse_comic_fuz_from_html(html: String, decoded: Result<ComicFuz, String>, now: ZonedTime)
    -> (fetched: Result<Manga, FetchError>)
    ensures
        fetched_view(fetched) == spec_parse(html@, decoded, now@),
        fetched matches Ok(manga) ==> manga@.consistent(),
        document_first_html(html@, next_data_selector()) is Some ==> (decoded matches Ok(data)
            ==> (latest_date_text(data.props.page_props) matches Some(raw) ==> reads_calendar_day(
            raw,
            date_format(),
        ))),
{
    match next_data(html.as_str()) {
        None => Err(FetchError::page_not_found("__NEXT_DATA__ not found")),
        Some(_) => match decoded {
            Err(words) => Err(FetchError::JsonDeserializeError(words)),
            Ok(data) => manga_from_page_props(&data.props.page_props, now),
        },
    }
}

} // verus!
