//! Gamma Plus: the page of a series links to its chapters, the latest first.

use crate::fetch::{
    chapter_missing, fetched_view, page_missing, FetchError, FetchErrorView, FetchedView,
};
use crate::html::{
    attribute, attribute_view, children_inner_html, document_first, document_markup,
    document_matches, element_attribute, element_children_html,
    element_first_attribute, element_first_html, first_attribute_within, first_inner_html_within,
    first_match, parse_document, select,
};
use crate::text::{concat4, replace_all, replace_all_in, text_view, texts_view, trim, trim_in};
use crate::time::{
    calendar_day, date_view, japan_midnight, parse_date, parsed_date, reads_calendar_day,
    TimeView, ZonedTime,
};
use crate::types::{Manga, MangaView};
use scraper::Html;
use vstd::prelude::*;

verus! {

/// The list that holds the title and the author of the series, in this
/// order.
pub const HEADER_SELECTOR: &'static str = "ul[class=\"manga__title\"]";

/// The links of the page that may lead to a chapter.
pub const CHAPTER_SELECTOR: &'static str = "div[class=\"read__outer\"] > a";

/// The title of a chapter, within its link.
pub const CHAPTER_TITLE_SELECTOR: &'static str = "li[class=\"episode\"]";

/// The release date of a chapter, within its link.
pub const CHAPTER_DATE_SELECTOR: &'static str = "li[class=\"episode__text\"]";

/// The picture of a chapter, within its link.
pub const CHAPTER_THUMBNAIL_SELECTOR: &'static str = "img";

/// The pattern of the dates of chapters.
pub const DATE_FORMAT: &'static str = "%Y年%m月%d日";

/// The address that the relative addresses of the page start from.
pub const SITE: &'static str = "https://gammaplus.takeshobo.co.jp/";

/// The address that leads back to the list and to no chapter.
pub const LIST_ANCHOR: &'static str = "#comics";

/// What the link of the latest chapter holds.
#[derive(Clone, Debug)]
pub struct ChapterLink {
    pub href: String,
    pub title: Option<String>,
    /// The picture: nothing where the link has none, else its `src` attribute.
    pub thumbnail: Option<Option<String>>,
    pub date: Option<String>,
}

/// What a page holds of a series.
#[derive(Clone, Debug)]
pub struct Page {
    /// The contents of the entries of the header, where the page has one.
    pub header: Option<Vec<String>>,
    /// The first link that leads to a chapter, where there is one.
    pub chapter: Option<ChapterLink>,
}

/// A `ChapterLink` with its texts as sequences of characters.
pub struct ChapterLinkView {
    pub href: Seq<char>,
    pub title: Option<Seq<char>>,
    pub thumbnail: Option<Option<Seq<char>>>,
    pub date: Option<Seq<char>>,
}

/// A `Page` with its texts as sequences of characters.
pub struct PageView {
    pub header: Option<Seq<Seq<char>>>,
    pub chapter: Option<ChapterLinkView>,
}

impl View for ChapterLink {
    type V = ChapterLinkView;

    open spec fn view(&self) -> ChapterLinkView {
        ChapterLinkView {
            href: self.href@,
            title: text_view(self.title),
            thumbnail: attribute_view(self.thumbnail),
            date: text_view(self.date),
        }
    }
}

impl View for Page {
    type V = PageView;

    open spec fn view(&self) -> PageView {
        PageView {
            header: match self.header {
                Some(entries) => Some(texts_view(entries@)),
                None => None,
            },
            chapter: match self.chapter {
                Some(link) => Some(link@),
                None => None,
            },
        }
    }
}

/// Whether the element `node` leads to a chapter: it has an address, and the
/// address is not that of the list.
pub open spec fn leads_to_chapter(html: Seq<char>, node: usize) -> bool {
    match element_attribute(html, node, "href"@) {
        Some(href) => href != LIST_ANCHOR@,
        None => false,
    }
}

/// The position in `nodes`, from `from` on, of the first element that leads
/// to a chapter.
pub open spec fn first_chapter_link(html: Seq<char>, nodes: Seq<usize>, from: int) -> Option<int>
    decreases nodes.len() - from,
{
    if from < 0 || from >= nodes.len() {
        None
    } else if leads_to_chapter(html, nodes[from]) {
        Some(from)
    } else {
        first_chapter_link(html, nodes, from + 1)
    }
}

/// What the link `node` holds, `href` being its address.
pub open spec fn spec_link(html: Seq<char>, node: usize, href: Seq<char>) -> ChapterLinkView {
    ChapterLinkView {
        href,
        title: element_first_html(html, node, CHAPTER_TITLE_SELECTOR@),
        thumbnail: element_first_attribute(html, node, CHAPTER_THUMBNAIL_SELECTOR@, "src"@),
        date: element_first_html(html, node, CHAPTER_DATE_SELECTOR@),
    }
}

/// What the document parsed from `html` holds of a series.
pub open spec fn spec_extract(html: Seq<char>) -> PageView {
    let links = document_matches(html, CHAPTER_SELECTOR@);
    PageView {
        header: match document_first(html, HEADER_SELECTOR@) {
            Some(header) => Some(element_children_html(html, header)),
            None => None,
        },
        chapter: match first_chapter_link(html, links, 0) {
            Some(at) => match element_attribute(html, links[at], "href"@) {
                Some(href) => Some(spec_link(html, links[at], href)),
                None => None,
            },
            None => None,
        },
    }
}

/// The text of the date that has to be read: that of the latest chapter,
/// where its link shows one.
pub open spec fn date_to_read(page: PageView) -> Option<Seq<char>> {
    match page.chapter {
        Some(link) => link.date,
        None => None,
    }
}

/// When the latest chapter is released: at the beginning in Japan of the day
/// that its link shows, or at `now`, shown in Japan, where it shows none.
pub open spec fn spec_released(
    link: ChapterLinkView,
    date: Option<Result<int, Seq<char>>>,
    now: TimeView,
) -> Result<TimeView, FetchErrorView> {
    match (link.date, date) {
        (Some(raw), Some(Ok(midnight))) => if calendar_day(midnight) {
            Ok(japan_midnight(midnight))
        } else {
            Err(chapter_missing("release date is out of range"@))
        },
        (Some(raw), Some(Err(words))) => Err(
            chapter_missing("Error parsing date "@ + raw + " : "@ + words),
        ),
        _ => Ok(now.in_japan()),
    }
}

/// The record of a series, given what its page holds, what reading the date
/// of its latest chapter gave, and the current time.
///
/// A page without header, or with a header of less than two entries, is not
/// found. No chapter is found where no link leads to one, or the link lacks
/// its title, its picture, the address of the picture or a date that can be
/// read; the checks are made in this order. Addresses that climb out of the
/// page are made to start at the site.
pub open spec fn spec_assemble(
    page: PageView,
    date: Option<Result<int, Seq<char>>>,
    now: TimeView,
) -> FetchedView {
    match page.header {
        None => Err(page_missing("header section not found"@)),
        Some(entries) => if entries.len() == 0 {
            Err(page_missing("title not found"@))
        } else if entries.len() == 1 {
            Err(page_missing("author not found"@))
        } else {
            match page.chapter {
                None => Err(chapter_missing("chapter element not found"@)),
                Some(link) => match (link.title, link.thumbnail, spec_released(link, date, now)) {
                    (None, _, _) => Err(chapter_missing("title not found"@)),
                    (Some(_), None, _) => Err(chapter_missing("thumbnail element not found"@)),
                    (Some(_), Some(None), _) => Err(
                        chapter_missing("thumbnail src attribute not found"@),
                    ),
                    (Some(_), Some(Some(_)), Err(error)) => Err(error),
                    (Some(chapter_title), Some(Some(thumbnail)), Ok(released)) => Ok(
                        MangaView {
                            title: entries[0],
                            cover_url: replace_all(thumbnail, "../../"@, SITE@),
                            author: entries[1],
                            latest_chapter_title: trim(chapter_title),
                            latest_chapter_url: replace_all(link.href, "../../../"@, SITE@),
                            latest_chapter_release_date: released,
                            latest_chapter_publish_day: released.weekday(),
                        },
                    ),
                },
            }
        },
    }
}

/// The record of the series on the page `html` at `now`.
pub open spec fn spec_parse(html: Seq<char>, now: TimeView) -> FetchedView {
    let page = spec_extract(html);
    spec_assemble(
        page,
        match date_to_read(page) {
            Some(raw) => Some(parsed_date(raw, DATE_FORMAT@)),
            None => None,
        },
        now,
    )
}

/// What a date parser gave, if it was asked.
pub open spec fn asked_date_view(date: Option<Result<i64, String>>) -> Option<
    Result<int, Seq<char>>,
> {
    match date {
        Some(parsed) => Some(date_view(parsed)),
        None => None,
    }
}

/// The first link that leads to a chapter, with what it holds.
fn chapter_link(doc: &Html) -> (found: Option<ChapterLink>)
    ensures
        (match found {
            Some(link) => Some(link@),
            None => None,
        }) == spec_extract(document_markup(*doc)).chapter,
{
    let links = select(doc, CHAPTER_SELECTOR);
    let list_anchor = LIST_ANCHOR.to_owned();
    let ghost html = document_markup(*doc);
    let mut i: usize = 0;
    while i < links.len()
        invariant
            i <= links.len(),
            html == document_markup(*doc),
            links@ == document_matches(html, CHAPTER_SELECTOR@),
            list_anchor@ == LIST_ANCHOR@,
            first_chapter_link(html, links@, 0) == first_chapter_link(html, links@, i as int),
        decreases links.len() - i,
    {
        match attribute(doc, links[i], "href") {
            Some(href) => {
                if !(href == list_anchor) {
                    let node = links[i];
                    return Some(
                        ChapterLink {
                            href,
                            title: first_inner_html_within(doc, node, CHAPTER_TITLE_SELECTOR),
                            thumbnail: first_attribute_within(
                                doc,
                                node,
                                CHAPTER_THUMBNAIL_SELECTOR,
                                "src",
                            ),
                            date: first_inner_html_within(doc, node, CHAPTER_DATE_SELECTOR),
                        },
                    );
                }
            },
            None => {},
        }
        i = i + 1;
    }
    None
}

/// What the page `html` holds of a series.
pub fn extract(html: &str) -> (page: Page)
    ensures
        page@ == spec_extract(html@),
{
    let doc = parse_document(html);
    let header = match first_match(&doc, HEADER_SELECTOR) {
        Some(node) => Some(children_inner_html(&doc, node)),
        None => None,
    };
    let chapter = chapter_link(&doc);
    Page { header, chapter }
}

/// When the latest chapter is released.
fn released_of(link: &ChapterLink, date: Option<Result<i64, String>>, now: ZonedTime) -> (released:
    Result<ZonedTime, FetchError>)
    ensures
        match released {
            Ok(time) => spec_released(link@, asked_date_view(date), now@) == Ok::<
                TimeView,
                FetchErrorView,
            >(time@),
            Err(error) => spec_released(link@, asked_date_view(date), now@) == Err::<
                TimeView,
                FetchErrorView,
            >(error@),
        },
{
    match (&link.date, date) {
        (Some(raw), Some(Ok(midnight))) => match ZonedTime::at_japan_midnight(midnight) {
            Some(time) => Ok(time),
            None => Err(FetchError::chapter_not_found("release date is out of range")),
        },
        (Some(raw), Some(Err(words))) => Err(
            FetchError::ChapterNotFound(
                Some(concat4("Error parsing date ", raw.as_str(), " : ", words.as_str())),
            ),
        ),
        _ => Ok(now.to_japan()),
    }
}

/// The record of a series, given what its page holds, what reading the date
/// of its latest chapter gave, and the current time.
pub fn assemble(page: &Page, date: Option<Result<i64, String>>, now: ZonedTime) -> (fetched: Result<
    Manga,
    FetchError,
>)
    ensures
        fetched_view(fetched) == spec_assemble(page@, asked_date_view(date), now@),
        fetched matches Ok(manga) ==> manga@.consistent(),
{
    let entries = match &page.header {
        Some(entries) => entries,
        None => {
            return Err(FetchError::page_not_found("header section not found"));
        },
    };
    if entries.len() == 0 {
        return Err(FetchError::page_not_found("title not found"));
    }
    if entries.len() == 1 {
        return Err(FetchError::page_not_found("author not found"));
    }
    let link = match &page.chapter {
        Some(link) => link,
        None => {
            return Err(FetchError::chapter_not_found("chapter element not found"));
        },
    };
    let chapter_title = match &link.title {
        Some(text) => text,
        None => {
            return Err(FetchError::chapter_not_found("title not found"));
        },
    };
    let thumbnail = match &link.thumbnail {
        None => {
            return Err(FetchError::chapter_not_found("thumbnail element not found"));
        },
        Some(None) => {
            return Err(FetchError::chapter_not_found("thumbnail src attribute not found"));
        },
        Some(Some(thumbnail)) => thumbnail,
    };
    let released = match released_of(link, date, now) {
        Ok(time) => time,
        Err(error) => {
            return Err(error);
        },
    };
    Ok(
        Manga::released_at(
            entries[0].clone(),
            replace_all_in(thumbnail.as_str(), "../../", SITE),
            entries[1].clone(),
            trim_in(chapter_title.as_str()),
            replace_all_in(link.href.as_str(), "../../../", SITE),
            released,
        ),
    )
}

/// The record of the series on the page `html` at `now`. The date that was
/// read, if one was, is a day that a release can fall on.
pub fn parse_gamma_plus_from_html(html: String, now: ZonedTime) -> (fetched: Result<
    Manga,
    FetchError,
>)
    ensures
        fetched_view(fetched) == spec_parse(html@, now@),
        fetched matches Ok(manga) ==> manga@.consistent(),
        date_to_read(spec_extract(html@)) matches Some(raw) ==> reads_calendar_day(
            raw,
            DATE_FORMAT@,
        ),
{
    let page = extract(html.as_str());
    let date = match &page.chapter {
        Some(link) => match &link.date {
            Some(raw) => Some(parse_date(raw.as_str(), DATE_FORMAT)),
            None => None,
        },
        None => None,
    };
    assemble(&page, date, now)
}

} // verus!
