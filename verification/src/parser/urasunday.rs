//! Urasunday: the page of a series, as a browser renders it.

use crate::fetch::{
    chapter_missing, fetched_view, page_missing, FetchError, FetchErrorView, FetchedView,
};
use crate::html::{
    all_inner_html_within, attribute_view, document_first_html, document_matches, element_all_html,
    element_first, element_first_attribute, element_first_html, first_attribute_within,
    first_inner_html, first_inner_html_within, first_match_within, parse_document, select,
};
use crate::text::{
    after_last, after_last_in, before_first, before_first_in, concat4, join, join_with, text_view,
    texts_view, trim, trim_in,
};
use crate::time::{
    calendar_day, date_view, day_after, japan_midnight, parse_date, parsed_date,
    reads_calendar_day, TimeView, ZonedTime, MILLIS_LIMIT, MILLIS_PER_DAY,
};
use crate::types::{Manga, MangaView};
use vstd::prelude::*;

verus! {

/// The element that holds the title of the series.
pub const TITLE_SELECTOR: &'static str = "#aboutTitle > div > div > div > h2";

/// The element that holds the author of the series.
pub const AUTHOR_SELECTOR: &'static str = "#aboutTitle > div > div > div > div > p";

/// The rows of the list of chapters. The first row is no chapter; the second
/// is the latest chapter.
pub const CHAPTER_SELECTOR: &'static str =
    "div[class=\"flex gap-3 switch:items-center items-center\"]";

/// The lines of the title of a chapter, within its row.
pub const CHAPTER_TITLE_SELECTOR: &'static str = "div[class=\"grow\"] > p";

/// The release date of a chapter, within its row.
pub const CHAPTER_RELEASE_DATE_SELECTOR: &'static str =
    "p[class=\"text-xs text-gray-700 switch:text-base\"]";

/// The picture of a chapter, within its row.
pub const CHAPTER_IMG_SELECTOR: &'static str = "img[class*=\"object-cover\"]";

/// The mark of a chapter that is not out yet, within its row.
pub const CHAPTER_NOT_RELEASED_SELECTOR: &'static str =
    "div[class=\"flex aspect-square h-6 items-center justify-center rounded-[3px] text-[9px] text-white switch:h-8 switch:rounded switch:text-xs bg-gradient-orange\"] > span";

/// The pattern of the dates of chapters.
pub const DATE_FORMAT: &'static str = "%Y/%m/%d";

/// What stands in the address of a chapter for its identifier, which the
/// page does not tell.
pub const CHAPTER_ID: &'static str = "TODO";

/// What the row of the latest chapter holds.
#[derive(Clone, Debug)]
pub struct ChapterRow {
    /// The lines of the title.
    pub titles: Vec<String>,
    /// Whether the row is marked as not out yet.
    pub upcoming: bool,
    /// The text of the release date, where the row shows one.
    pub date: Option<String>,
    /// The picture: nothing where the row has none, else its `src` attribute.
    pub cover: Option<Option<String>>,
}

/// What a page holds of a series.
#[derive(Clone, Debug)]
pub struct Page {
    pub title: Option<String>,
    pub author: Option<String>,
    /// The row of the latest chapter, where the list has one.
    pub chapter: Option<ChapterRow>,
}

/// A `ChapterRow` with its texts as sequences of characters.
pub struct ChapterRowView {
    pub titles: Seq<Seq<char>>,
    pub upcoming: bool,
    pub date: Option<Seq<char>>,
    pub cover: Option<Option<Seq<char>>>,
}

/// A `Page` with its texts as sequences of characters.
pub struct PageView {
    pub title: Option<Seq<char>>,
    pub author: Option<Seq<char>>,
    pub chapter: Option<ChapterRowView>,
}

impl View for ChapterRow {
    type V = ChapterRowView;

    open spec fn view(&self) -> ChapterRowView {
        ChapterRowView {
            titles: texts_view(self.titles@),
            upcoming: self.upcoming,
            date: text_view(self.date),
            cover: attribute_view(self.cover),
        }
    }
}

impl View for Page {
    type V = PageView;

    open spec fn view(&self) -> PageView {
        PageView {
            title: text_view(self.title),
            author: text_view(self.author),
            chapter: match self.chapter {
                Some(row) => Some(row@),
                None => None,
            },
        }
    }
}

/// What the document parsed from `html` holds of a series.
pub open spec fn spec_extract(html: Seq<char>) -> PageView {
    let rows = document_matches(html, CHAPTER_SELECTOR@);
    PageView {
        title: document_first_html(html, TITLE_SELECTOR@),
        author: document_first_html(html, AUTHOR_SELECTOR@),
        chapter: if rows.len() >= 2 {
            Some(
                ChapterRowView {
                    titles: element_all_html(html, rows[1], CHAPTER_TITLE_SELECTOR@),
                    upcoming: element_first(html, rows[1], CHAPTER_NOT_RELEASED_SELECTOR@) is Some,
                    date: element_first_html(html, rows[1], CHAPTER_RELEASE_DATE_SELECTOR@),
                    cover: element_first_attribute(html, rows[1], CHAPTER_IMG_SELECTOR@, "src"@),
                },
            )
        } else {
            None
        },
    }
}

/// The text of the date that has to be read: that of the latest chapter,
/// where it is out and shows one.
pub open spec fn date_to_read(page: PageView) -> Option<Seq<char>> {
    match page.chapter {
        Some(row) => if row.upcoming {
            None
        } else {
            row.date
        },
        None => None,
    }
}

/// When the latest chapter is released: a day after `now`, shown in Japan,
/// where it is not out yet, else at the beginning in Japan of the day that
/// its row shows, `date` being what reading that day gave.
pub open spec fn spec_released(
    row: ChapterRowView,
    date: Option<Result<int, Seq<char>>>,
    now: TimeView,
) -> Result<TimeView, FetchErrorView> {
    if row.upcoming {
        if now.millis + MILLIS_PER_DAY <= MILLIS_LIMIT {
            Ok(day_after(now.in_japan()))
        } else {
            Err(chapter_missing("release date is out of range"@))
        }
    } else {
        match (row.date, date) {
            (Some(raw), Some(Ok(midnight))) => if calendar_day(midnight) {
                Ok(japan_midnight(midnight))
            } else {
                Err(chapter_missing("release date is out of range"@))
            },
            (Some(raw), Some(Err(words))) => Err(
                chapter_missing("Error parsing date "@ + raw + " : "@ + words),
            ),
            _ => Err(chapter_missing("release date not found"@)),
        }
    }
}

/// The record of the series `manga_id`, given what its page holds, what
/// reading the date of its latest chapter gave, and the current time.
///
/// A page without title or author is not found. No chapter is found where
/// the list has no second row, where the row has no title, no date that can
/// be read, no picture, or a picture without address; the checks are made in
/// this order and the first that fails gives the error.
pub open spec fn spec_assemble(
    page: PageView,
    date: Option<Result<int, Seq<char>>>,
    manga_id: Seq<char>,
    now: TimeView,
) -> FetchedView {
    match (page.title, page.author, page.chapter) {
        (None, _, _) => Err(page_missing("series title not found"@)),
        (Some(_), None, _) => Err(page_missing("author not found"@)),
        (Some(_), Some(_), None) => Err(FetchErrorView::ChapterNotFound(None)),
        (Some(title), Some(author), Some(row)) => if row.titles.len() == 0 {
            Err(chapter_missing("chapter title not found"@))
        } else {
            match (spec_released(row, date, now), row.cover) {
                (Err(error), _) => Err(error),
                (Ok(_), None) => Err(chapter_missing("cover not found"@)),
                (Ok(_), Some(None)) => Err(chapter_missing("cover not found in src attribute"@)),
                (Ok(released), Some(Some(cover))) => Ok(
                    MangaView {
                        title: trim(title),
                        cover_url: cover,
                        author: trim(author),
                        latest_chapter_title: join(row.titles, " "@),
                        latest_chapter_url: "https://manga-one.com/manga/"@ + manga_id
                            + "/chapter/"@ + CHAPTER_ID@,
                        latest_chapter_release_date: released,
                        latest_chapter_publish_day: released.weekday(),
                    },
                ),
            }
        },
    }
}

/// The record of the series `manga_id` on the page `html` at `now`.
pub open spec fn spec_parse(html: Seq<char>, manga_id: Seq<char>, now: TimeView) -> FetchedView {
    let page = spec_extract(html);
    spec_assemble(
        page,
        match date_to_read(page) {
            Some(raw) => Some(parsed_date(raw, DATE_FORMAT@)),
            None => None,
        },
        manga_id,
        now,
    )
}

/// What a date parser gave, if it was asked.
pub open spec fn asked_date_view(date: Option<Result<i64, String>>) -> Option<
    Result<int, Seq<char>>,
> {
    match date {
        Some(parsed) => Some(date_view(parsed)),
        None => None,
    }
}

/// What the page `html` holds of a series.
pub fn extract(html: &str) -> (page: Page)
    ensures
        page@ == spec_extract(html@),
{
    let doc = parse_document(html);
    let title = first_inner_html(&doc, TITLE_SELECTOR);
    let author = first_inner_html(&doc, AUTHOR_SELECTOR);
    let rows = select(&doc, CHAPTER_SELECTOR);
    let chapter = if rows.len() >= 2 {
        let row = rows[1];
        let titles = all_inner_html_within(&doc, row, CHAPTER_TITLE_SELECTOR);
        let upcoming = first_match_within(&doc, row, CHAPTER_NOT_RELEASED_SELECTOR).is_some();
        let date = first_inner_html_within(&doc, row, CHAPTER_RELEASE_DATE_SELECTOR);
        let cover = first_attribute_within(&doc, row, CHAPTER_IMG_SELECTOR, "src");
        Some(ChapterRow { titles, upcoming, date, cover })
    } else {
        None
    };
    Page { title, author, chapter }
}

/// When the latest chapter is released.
fn released_of(row: &ChapterRow, date: Option<Result<i64, String>>, now: ZonedTime) -> (released:
    Result<ZonedTime, FetchError>)
    ensures
        match released {
            Ok(time) => spec_released(row@, asked_date_view(date), now@) == Ok::<
                TimeView,
                FetchErrorView,
            >(time@),
            Err(error) => spec_released(row@, asked_date_view(date), now@) == Err::<
                TimeView,
                FetchErrorView,
            >(error@),
        },
{
    if row.upcoming {
        return match now.to_japan().next_day() {
            Some(time) => Ok(time),
            None => Err(FetchError::chapter_not_found("release date is out of range")),
        };
    }
    match (&row.date, date) {
        (Some(raw), Some(Ok(midnight))) => match ZonedTime::at_japan_midnight(midnight) {
            Some(time) => Ok(time),
            None => Err(FetchError::chapter_not_found("release date is out of range")),
        },
        (Some(raw), Some(Err(words))) => Err(
            FetchError::ChapterNotFound(
                Some(concat4("Error parsing date ", raw.as_str(), " : ", words.as_str())),
            ),
        ),
        _ => Err(FetchError::chapter_not_found("release date not found")),
    }
}

/// The record of the series `manga_id`, given what its page holds, what
/// reading the date of its latest chapter gave, and the current time.
pub fn assemble(
    page: &Page,
    date: Option<Result<i64, String>>,
    manga_id: &str,
    now: ZonedTime,
) -> (fetched: Result<Manga, FetchError>)
    ensures
        fetched_view(fetched) == spec_assemble(page@, asked_date_view(date), manga_id@, now@),
        fetched matches Ok(manga) ==> manga@.consistent(),
{
    let title = match &page.title {
        Some(title) => title,
        None => {
            return Err(FetchError::page_not_found("series title not found"));
        },
    };
    let author = match &page.author {
        Some(author) => author,
        None => {
            return Err(FetchError::page_not_found("author not found"));
        },
    };
    let row = match &page.chapter {
        Some(row) => row,
        None => {
            return Err(FetchError::ChapterNotFound(None));
        },
    };
    if row.titles.len() == 0 {
        return Err(FetchError::chapter_not_found("chapter title not found"));
    }
    let released = match released_of(row, date, now) {
        Ok(time) => time,
        Err(error) => {
            return Err(error);
        },
    };
    let cover = match &row.cover {
        None => {
            return Err(FetchError::chapter_not_found("cover not found"));
        },
        Some(None) => {
            return Err(FetchError::chapter_not_found("cover not found in src attribute"));
        },
        Some(Some(cover)) => cover,
    };
    Ok(
        Manga::released_at(
            trim_in(title.as_str()),
            cover.clone(),
            trim_in(author.as_str()),
            join_with(&row.titles, " "),
            concat4("https://manga-one.com/manga/", manga_id, "/chapter/", CHAPTER_ID),
            released,
        ),
    )
}

/// The record of the series `manga_id` on the page `html` at `now`. The
/// date that was read, if one was, is a day that a release can fall on.
pub fn parse_urasunday_from_html(html: String, manga_id: &str, now: ZonedTime) -> (fetched: Result<
    Manga,
    FetchError,
>)
    ensures
        fetched_view(fetched) == spec_parse(html@, manga_id@, now@),
        fetched matches Ok(manga) ==> manga@.consistent(),
        date_to_read(spec_extract(html@)) matches Some(raw) ==> reads_calendar_day(
            raw,
            DATE_FORMAT@,
        ),
{
    let page = extract(html.as_str());
    let mut date: Option<Result<i64, String>> = None;
    match &page.chapter {
        Some(row) => {
            if !row.upcoming {
                match &row.date {
                    Some(raw) => {
                        date = Some(parse_date(raw.as_str(), DATE_FORMAT));
                    },
                    None => {},
                }
            }
        },
        None => {},
    }
    assemble(&page, date, manga_id, now)
}

/// The identifier of a chapter in the address of one of its pictures: what
/// stands between the last `chapter/` and the first `.webp` after it.
pub open spec fn spec_chapter_id(url: Seq<char>) -> Seq<char> {
    before_first(after_last(url, "chapter/"@), ".webp"@)
}

/// The identifier of a chapter in the address of one of its pictures.
pub fn parse_chapter_id_from_url(url: &str) -> (id: Result<String, FetchError>)
    ensures
        id matches Ok(text) && text@ == spec_chapter_id(url@),
{
    let rest = after_last_in(url, "chapter/");
    Ok(before_first_in(rest.as_str(), ".webp"))
}

} // verus!
