use manga_tracker::fetch::FetchError;
use manga_tracker::parser::gamma_plus;
use manga_tracker::parser::ganma;
use manga_tracker::parser::manga_up;
use manga_tracker::parser::mecha_comic;
use manga_tracker::parser::urasunday;
use manga_tracker::parser::yanmaga;
use manga_tracker::time::{Weekday, ZonedTime, JAPAN_OFFSET, MILLIS_PER_DAY};

// 2024-05-06 00:00 in Japan, a Monday.
const MAY_6: i64 = 1_714_921_200_000;

fn now() -> ZonedTime {
    // 2024-05-08 12:00 in Japan, a Wednesday.
    ZonedTime::in_japan(MAY_6 + 2 * MILLIS_PER_DAY + 12 * 3_600_000).unwrap()
}

fn chapter_error(reason: &str) -> FetchError {
    FetchError::ChapterNotFound(Some(reason.to_string()))
}

fn page_error(reason: &str) -> FetchError {
    FetchError::PageNotFound(Some(reason.to_string()))
}

const YANMAGA_HEAD: &str = r#"<html><body>
<h1 class="detailv2-outline-title">Series A</h1>
<ul><li class="detailv2-outline-author-item"><a href="/authors/1"><h2>Author A</h2></a></li></ul>"#;

fn yanmaga_page(entries: &str) -> String {
    format!("{YANMAGA_HEAD}<ul>{entries}</ul></body></html>")
}

const YANMAGA_OUT: &str = r#"<li class="mod-episode-item"><a class="mod-episode-link    " href="/comics/a/10"><div class="mod-episode-thumbnail-image"><img src="https://img.example/10.jpg"></div><p class="mod-episode-title">Chapter 10</p><time class="mod-episode-date">2024/05/06</time></a></li>"#;

const YANMAGA_OLDER: &str = r#"<li class="mod-episode-item"><a class="mod-episode-link    " href="/comics/a/9"><div class="mod-episode-thumbnail-image"><img src="https://img.example/9.jpg"></div><p class="mod-episode-title">Chapter 9</p><time class="mod-episode-date">2024/04/29</time></a></li>"#;

const YANMAGA_PENDING: &str = r#"<li class="mod-episode-item"><div class="mod-episode-thumbnail-image"><img src="https://img.example/11.jpg"></div><p class="mod-episode-date-before-publication is-soon"><span>Chapter 11</span><span>2024/05/13(Mon) soon</span></p></li>"#;

#[test]
fn yanmaga_chapter_that_is_out() {
    let html = yanmaga_page(&format!("{YANMAGA_OUT}{YANMAGA_OLDER}"));
    let manga = yanmaga::parse_yanmaga_from_html(html).unwrap();
    assert_eq!(manga.title, "Series A");
    assert_eq!(manga.author, "Author A");
    assert_eq!(manga.cover_url, "https://img.example/10.jpg");
    assert_eq!(manga.latest_chapter_title, "Chapter 10");
    assert_eq!(manga.latest_chapter_url, "https://yanmaga.jp/comics/a/10");
    assert_eq!(manga.latest_chapter_release_date.millis(), MAY_6);
    assert_eq!(manga.latest_chapter_release_date.offset(), JAPAN_OFFSET);
    assert_eq!(manga.latest_chapter_publish_day, Weekday::Mon);
}

#[test]
fn yanmaga_chapter_that_is_not_out_yet() {
    let html = yanmaga_page(&format!("{YANMAGA_PENDING}{YANMAGA_OUT}"));
    let manga = yanmaga::parse_yanmaga_from_html(html).unwrap();
    assert_eq!(manga.title, "Series A");
    assert_eq!(manga.cover_url, "https://img.example/11.jpg");
    assert_eq!(manga.latest_chapter_title, "Chapter 11");
    assert_eq!(manga.latest_chapter_url, "");
    assert_eq!(manga.latest_chapter_release_date.millis(), MAY_6 + 7 * MILLIS_PER_DAY);
    assert_eq!(manga.latest_chapter_publish_day, Weekday::Mon);
}

#[test]
fn yanmaga_page_without_title_or_author() {
    let html = "<html><body><p>nothing</p></body></html>".to_string();
    assert_eq!(yanmaga::parse_yanmaga_from_html(html), Err(page_error("Title not found")));
    let html = r#"<h1 class="detailv2-outline-title">Series A</h1>"#.to_string();
    assert_eq!(yanmaga::parse_yanmaga_from_html(html), Err(page_error("Author not found")));
}

#[test]
fn yanmaga_page_without_chapters() {
    let html = yanmaga_page("");
    assert_eq!(
        yanmaga::parse_yanmaga_from_html(html),
        Err(chapter_error("zero result from chapter selector"))
    );
}

#[test]
fn yanmaga_errors_of_a_chapter_that_is_out() {
    let entry = |inner: &str| yanmaga_page(&format!(r#"<li class="mod-episode-item">{inner}</li>"#));
    assert_eq!(
        yanmaga::parse_yanmaga_from_html(entry("<p>x</p>")),
        Err(chapter_error("title not found"))
    );
    assert_eq!(
        yanmaga::parse_yanmaga_from_html(entry(r#"<p class="mod-episode-title">T</p>"#)),
        Err(chapter_error("release date not found"))
    );
    let bad_date = entry(
        r#"<p class="mod-episode-title">T</p><time class="mod-episode-date">soon</time>"#,
    );
    let words = chrono::NaiveDate::parse_from_str("soon", "%Y/%m/%d").unwrap_err().to_string();
    assert_eq!(
        yanmaga::parse_yanmaga_from_html(bad_date),
        Err(chapter_error(&format!("error parsing date : {words}")))
    );
    let dated = r#"<p class="mod-episode-title">T</p><time class="mod-episode-date">2024/05/06</time>"#;
    assert_eq!(
        yanmaga::parse_yanmaga_from_html(entry(dated)),
        Err(chapter_error("cover not found"))
    );
    let no_src = format!(r#"{dated}<div class="mod-episode-thumbnail-image"><img></div>"#);
    assert_eq!(
        yanmaga::parse_yanmaga_from_html(entry(&no_src)),
        Err(chapter_error("src attribute is empty"))
    );
    let covered = format!(r#"{dated}<div class="mod-episode-thumbnail-image"><img src="c"></div>"#);
    assert_eq!(
        yanmaga::parse_yanmaga_from_html(entry(&covered)),
        Err(chapter_error("url not found"))
    );
    let no_href = format!(r#"{covered}<a class="mod-episode-link    ">x</a>"#);
    assert_eq!(
        yanmaga::parse_yanmaga_from_html(entry(&no_href)),
        Err(chapter_error("href attribute is empty"))
    );
}

#[test]
fn yanmaga_errors_of_a_chapter_that_is_not_out_yet() {
    let note = |inner: &str| {
        yanmaga_page(&format!(
            r#"<li class="mod-episode-item"><p class="mod-episode-date-before-publication">{inner}</p></li>"#
        ))
    };
    assert_eq!(
        yanmaga::parse_yanmaga_from_html(note("text only")),
        Err(chapter_error("title not found"))
    );
    assert_eq!(
        yanmaga::parse_yanmaga_from_html(note("<span>T</span>")),
        Err(chapter_error("release date not found"))
    );
    let words = chrono::NaiveDate::parse_from_str("May 13", "%Y/%m/%d").unwrap_err().to_string();
    assert_eq!(
        yanmaga::parse_yanmaga_from_html(note("<span>T</span><span>May 13(Mon)</span>")),
        Err(chapter_error(&format!("{words}, error parsing date : May 13")))
    );
    assert_eq!(
        yanmaga::parse_yanmaga_from_html(note("<span>T</span><span>2024/05/13(Mon)</span>")),
        Err(chapter_error("cover not found"))
    );
}

#[test]
fn yanmaga_extract_reads_the_first_entry() {
    let page = yanmaga::extract(&yanmaga_page(&format!("{YANMAGA_PENDING}{YANMAGA_OUT}")));
    assert_eq!(page.title.as_deref(), Some("Series A"));
    let entry = page.chapter.unwrap();
    assert_eq!(
        entry.pending,
        Some(vec!["Chapter 11".to_string(), "2024/05/13(Mon) soon".to_string()])
    );
    assert_eq!(entry.title, None);
    assert_eq!(entry.cover, Some(Some("https://img.example/11.jpg".to_string())));
    assert_eq!(entry.link, None);
}

#[test]
fn yanmaga_assemble_takes_the_date_as_given() {
    let page = yanmaga::extract(&yanmaga_page(YANMAGA_OUT));
    let manga = yanmaga::assemble(&page, Some(Ok(0))).unwrap();
    assert_eq!(manga.latest_chapter_release_date.millis(), -32_400_000);
    assert_eq!(manga.latest_chapter_publish_day, Weekday::Thu);
    assert_eq!(
        yanmaga::assemble(&page, Some(Err("no".to_string()))),
        Err(chapter_error("error parsing date : no"))
    );
    assert_eq!(yanmaga::assemble(&page, None), Err(chapter_error("release date not found")));
    assert_eq!(
        yanmaga::assemble(&page, Some(Ok(i64::MAX))),
        Err(chapter_error("release date is out of range"))
    );
}

const URASUNDAY_HEAD: &str = r#"<html><body><div id="aboutTitle"><div><div><div><h2> Series U </h2><div><p>
 Author U </p></div></div></div></div></div>
<div class="flex gap-3 switch:items-center items-center"><p>first row</p></div>"#;

const URASUNDAY_ROW: &str = r#"<div class="flex gap-3 switch:items-center items-center"><img class="h-10 w-10 object-cover" src="https://img.example/u.webp"><div class="grow"><p>No. 10</p><p>The title</p></div><p class="text-xs text-gray-700 switch:text-base">2024/05/06</p></div>"#;

const URASUNDAY_UPCOMING: &str = r#"<div class="flex gap-3 switch:items-center items-center"><img class="object-cover" src="https://img.example/next.webp"><div class="flex aspect-square h-6 items-center justify-center rounded-[3px] text-[9px] text-white switch:h-8 switch:rounded switch:text-xs bg-gradient-orange"><span>soon</span></div><div class="grow"><p>No. 11</p></div></div>"#;

#[test]
fn urasunday_chapter_that_is_out() {
    let html = format!("{URASUNDAY_HEAD}{URASUNDAY_ROW}</body></html>");
    let manga = urasunday::parse_urasunday_from_html(html, "939", now()).unwrap();
    assert_eq!(manga.title, "Series U");
    assert_eq!(manga.author, "Author U");
    assert_eq!(manga.cover_url, "https://img.example/u.webp");
    assert_eq!(manga.latest_chapter_title, "No. 10 The title");
    assert_eq!(manga.latest_chapter_url, "https://manga-one.com/manga/939/chapter/TODO");
    assert_eq!(manga.latest_chapter_release_date.millis(), MAY_6);
    assert_eq!(manga.latest_chapter_publish_day, Weekday::Mon);
}

#[test]
fn urasunday_chapter_that_is_not_out_is_due_a_day_after_now() {
    let html = format!("{URASUNDAY_HEAD}{URASUNDAY_UPCOMING}{URASUNDAY_ROW}</body></html>");
    let manga = urasunday::parse_urasunday_from_html(html, "939", now()).unwrap();
    assert_eq!(manga.latest_chapter_title, "No. 11");
    assert_eq!(manga.cover_url, "https://img.example/next.webp");
    assert_eq!(manga.latest_chapter_release_date.millis(), now().millis() + MILLIS_PER_DAY);
    assert_eq!(manga.latest_chapter_publish_day, Weekday::Thu);
}

#[test]
fn urasunday_errors() {
    assert_eq!(
        urasunday::parse_urasunday_from_html("<p></p>".to_string(), "1", now()),
        Err(page_error("series title not found"))
    );
    assert_eq!(
        urasunday::parse_urasunday_from_html(
            r#"<div id="aboutTitle"><div><div><div><h2>T</h2></div></div></div></div>"#.to_string(),
            "1",
            now()
        ),
        Err(page_error("author not found"))
    );
    // Only the first row: there is no latest chapter.
    assert_eq!(
        urasunday::parse_urasunday_from_html(format!("{URASUNDAY_HEAD}</body></html>"), "1", now()),
        Err(FetchError::ChapterNotFound(None))
    );
    let row = |inner: &str| {
        format!(
            r#"{URASUNDAY_HEAD}<div class="flex gap-3 switch:items-center items-center">{inner}</div>"#
        )
    };
    assert_eq!(
        urasunday::parse_urasunday_from_html(row("<p>x</p>"), "1", now()),
        Err(chapter_error("chapter title not found"))
    );
    let titled = r#"<div class="grow"><p>T</p></div>"#;
    assert_eq!(
        urasunday::parse_urasunday_from_html(row(titled), "1", now()),
        Err(chapter_error("release date not found"))
    );
    let words = chrono::NaiveDate::parse_from_str("x", "%Y/%m/%d").unwrap_err().to_string();
    let bad = format!(r#"{titled}<p class="text-xs text-gray-700 switch:text-base">x</p>"#);
    assert_eq!(
        urasunday::parse_urasunday_from_html(row(&bad), "1", now()),
        Err(chapter_error(&format!("Error parsing date x : {words}")))
    );
    let dated = format!(r#"{titled}<p class="text-xs text-gray-700 switch:text-base">2024/05/06</p>"#);
    assert_eq!(
        urasunday::parse_urasunday_from_html(row(&dated), "1", now()),
        Err(chapter_error("cover not found"))
    );
    let no_src = format!(r#"{dated}<img class="object-cover">"#);
    assert_eq!(
        urasunday::parse_urasunday_from_html(row(&no_src), "1", now()),
        Err(chapter_error("cover not found in src attribute"))
    );
}

const MECHA_PAGE: &str = r#"<html><body>
<div class="p-bookInfo_title"><h1>Series K</h1></div>
<div class="p-bookInfo_jacket"><img class="jacket_image_l" src="https://img.example/k.jpg"></div>
<span class="p-sepList_item p-sepList_item-thrash"><a href="/authors/k">Author K</a></span>
<div class="u-inlineBlock"><span>／12話へ</span></div>
<div class="p-chapterInfo p-chapterInfo-comic u-clearfix"><dl><dt class="p-chapterList_no"> 011 <span>free</span></dt><dd class="p-chapterList_name"> Old </dd></dl><a class="p-btn-chapter c-btn c-btn-boder-buy prevent" href="/chapters/11">read</a></div>
<div class="p-chapterInfo p-chapterInfo-comic u-clearfix"><dl><dt class="p-chapterList_no"> 012 <span>new</span></dt><dd class="p-chapterList_name"> New </dd></dl><a class="p-btn-chapter c-btn c-btn-boder-buy prevent" href="/chapters/12">read</a></div>
</body></html>"#;

#[test]
fn mecha_comic_latest_chapter_is_the_last_section() {
    let manga = mecha_comic::parse_mecha_comic_from_html(MECHA_PAGE.to_string(), now()).unwrap();
    assert_eq!(manga.title, "Series K");
    assert_eq!(manga.cover_url, "https://img.example/k.jpg");
    assert_eq!(manga.author, "Author K");
    assert_eq!(manga.latest_chapter_title, "012 New");
    assert_eq!(manga.latest_chapter_url, "https://mechacomic.jp/chapters/12");
    assert_eq!(manga.latest_chapter_release_date, now());
    assert_eq!(manga.latest_chapter_publish_day, Weekday::Wed);
}

#[test]
fn mecha_comic_number_of_the_latest_chapter() {
    assert_eq!(mecha_comic::find_latest_chapter_number(MECHA_PAGE.to_string()), Ok(12));
    assert_eq!(
        mecha_comic::find_latest_chapter_number("<p></p>".to_string()),
        Err(page_error("no match for chapter number selector"))
    );
    let words = "twelve".parse::<i32>().unwrap_err().to_string();
    assert_eq!(
        mecha_comic::find_latest_chapter_number(
            r#"<div class="u-inlineBlock"><span>／twelve話へ</span></div>"#.to_string()
        ),
        Err(page_error(&format!("Page number parse error: {words}")))
    );
    let words = "".parse::<i32>().unwrap_err().to_string();
    assert_eq!(
        mecha_comic::find_latest_chapter_number(
            r#"<div class="u-inlineBlock"><span>／話へ</span></div>"#.to_string()
        ),
        Err(page_error(&format!("Page number parse error: {words}")))
    );
    assert_eq!(mecha_comic::number_text("／7話へ"), "7");
}

#[test]
fn mecha_comic_errors() {
    let parse = |html: &str| mecha_comic::parse_mecha_comic_from_html(html.to_string(), now());
    assert_eq!(parse("<p></p>"), Err(page_error("title not found")));
    let titled = r#"<div class="p-bookInfo_title"><h1>T</h1></div>"#;
    assert_eq!(parse(titled), Err(page_error("cover element not found")));
    let no_src = format!(r#"{titled}<div class="p-bookInfo_jacket"><img class="jacket_image_l"></div>"#);
    assert_eq!(parse(&no_src), Err(page_error("cover src is empty")));
    let covered = format!(
        r#"{titled}<div class="p-bookInfo_jacket"><img class="jacket_image_l" src="c"></div>"#
    );
    assert_eq!(parse(&covered), Err(page_error("author not found")));
    let full = format!(
        r#"{covered}<span class="p-sepList_item p-sepList_item-thrash"><a>A</a></span>"#
    );
    assert_eq!(parse(&full), Err(chapter_error("chapter section element not found")));
    let section = |inner: &str| {
        format!(r#"{full}<div class="p-chapterInfo p-chapterInfo-comic u-clearfix">{inner}</div>"#)
    };
    assert_eq!(parse(&section("<p>x</p>")), Err(chapter_error("chapter num element not found")));
    assert_eq!(
        parse(&section(r#"<dl><dt class="p-chapterList_no"></dt></dl>"#)),
        Err(chapter_error("chapter num child is empty"))
    );
    assert_eq!(
        parse(&section(r#"<dl><dt class="p-chapterList_no"><b>1</b></dt></dl>"#)),
        Err(chapter_error("chapter num child is not text"))
    );
    let numbered = r#"<dl><dt class="p-chapterList_no">1</dt></dl>"#;
    assert_eq!(parse(&section(numbered)), Err(chapter_error("chapter title not found")));
    let named = r#"<dl><dt class="p-chapterList_no">1</dt><dd class="p-chapterList_name">N</dd></dl>"#;
    assert_eq!(parse(&section(named)), Err(chapter_error("chapter url not found")));
    let linked = format!(r#"{named}<a class="p-btn-chapter c-btn c-btn-boder-buy prevent">r</a>"#);
    assert_eq!(
        parse(&section(&linked)),
        Err(chapter_error("chapter url href attribute is empty"))
    );
}

const GAMMA_HEAD: &str = r##"<html><body><ul class="manga__title"><li>Series G</li><li>Author G</li></ul>
<div class="read__outer"><a href="#comics"><ul><li class="episode">to the list</li></ul></a></div>
<div class="read__outer"><a><ul><li class="episode">no address</li></ul></a></div>"##;

#[test]
fn gamma_plus_first_link_that_leads_to_a_chapter() {
    let html = format!(
        r#"{GAMMA_HEAD}<div class="read__outer"><a href="../../../manga/g/5/"><img src="../../img/g5.jpg"><ul><li class="episode"> No. 5 </li><li class="episode__text">2024年05月06日</li></ul></a></div>
<div class="read__outer"><a href="../../../manga/g/4/"><img src="../../img/g4.jpg"><ul><li class="episode">No. 4</li></ul></a></div></body></html>"#
    );
    let manga = gamma_plus::parse_gamma_plus_from_html(html, now()).unwrap();
    assert_eq!(manga.title, "Series G");
    assert_eq!(manga.author, "Author G");
    assert_eq!(manga.latest_chapter_title, "No. 5");
    assert_eq!(manga.latest_chapter_url, "https://gammaplus.takeshobo.co.jp/manga/g/5/");
    assert_eq!(manga.cover_url, "https://gammaplus.takeshobo.co.jp/img/g5.jpg");
    assert_eq!(manga.latest_chapter_release_date.millis(), MAY_6);
    assert_eq!(manga.latest_chapter_publish_day, Weekday::Mon);
}

#[test]
fn gamma_plus_chapter_without_date_is_released_now() {
    let html = format!(
        r#"{GAMMA_HEAD}<div class="read__outer"><a href="/manga/g/4/"><img src="/img/g4.jpg"><ul><li class="episode">No. 4</li></ul></a></div></body></html>"#
    );
    let manga = gamma_plus::parse_gamma_plus_from_html(html, now()).unwrap();
    assert_eq!(manga.latest_chapter_url, "/manga/g/4/");
    assert_eq!(manga.cover_url, "/img/g4.jpg");
    assert_eq!(manga.latest_chapter_release_date, now());
    assert_eq!(manga.latest_chapter_publish_day, Weekday::Wed);
}

#[test]
fn gamma_plus_errors() {
    let parse = |html: &str| gamma_plus::parse_gamma_plus_from_html(html.to_string(), now());
    assert_eq!(parse("<p></p>"), Err(page_error("header section not found")));
    assert_eq!(parse(r#"<ul class="manga__title"></ul>"#), Err(page_error("title not found")));
    assert_eq!(
        parse(r#"<ul class="manga__title"><li>T</li></ul>"#),
        Err(page_error("author not found"))
    );
    assert_eq!(parse(GAMMA_HEAD), Err(chapter_error("chapter element not found")));
    let link = |inner: &str| {
        format!(r#"{GAMMA_HEAD}<div class="read__outer"><a href="x">{inner}</a></div>"#)
    };
    assert_eq!(parse(&link("<p>x</p>")), Err(chapter_error("title not found")));
    let titled = r#"<ul><li class="episode">T</li></ul>"#;
    assert_eq!(parse(&link(titled)), Err(chapter_error("thumbnail element not found")));
    assert_eq!(
        parse(&link(&format!("{titled}<img>"))),
        Err(chapter_error("thumbnail src attribute not found"))
    );
    let words = chrono::NaiveDate::parse_from_str("soon", "%Y年%m月%d日").unwrap_err().to_string();
    assert_eq!(
        parse(&link(r#"<img src="c"><ul><li class="episode">T</li><li class="episode__text">soon</li></ul>"#)),
        Err(chapter_error(&format!("Error parsing date soon : {words}")))
    );
}

const GANMA_PAGE: &str = r#"<html><body><h2 class="text-lg font-semibold leading-tight">Series N</h2><div class="font-semibold">Author N</div><img class="pointer-events-none" src="https://img.example/n.jpg"><span class="text-g-black font-semibold">All <!-- -->25<!-- --> chapters</span><a class="flex items-center justify-center gap-1 p-4" href="https://ganma.jp/app">open</a></body></html>"#;

#[test]
fn ganma_page() {
    let manga = ganma::parse_ganma_from_html(GANMA_PAGE.to_string(), now()).unwrap();
    assert_eq!(manga.title, "Series N");
    assert_eq!(manga.author, "Author N");
    assert_eq!(manga.cover_url, "https://img.example/n.jpg");
    assert_eq!(manga.latest_chapter_title, "All 25 chapters");
    assert_eq!(manga.latest_chapter_url, "https://ganma.jp/app");
    assert_eq!(manga.latest_chapter_release_date, now());
    assert_eq!(manga.latest_chapter_publish_day, Weekday::Wed);
}

#[test]
fn ganma_errors() {
    let parse = |html: &str| ganma::parse_ganma_from_html(html.to_string(), now());
    assert_eq!(parse("<p></p>"), Err(page_error("title not found")));
    let titled = r#"<h2 class="text-lg font-semibold leading-tight">T</h2>"#;
    assert_eq!(parse(titled), Err(page_error("author not found")));
    let authored = format!(r#"{titled}<div class="font-semibold">A</div>"#);
    assert_eq!(parse(&authored), Err(chapter_error("cover not found")));
    assert_eq!(
        parse(&format!(r#"{authored}<img class="pointer-events-none">"#)),
        Err(chapter_error("cover src attribute not found"))
    );
    let covered = format!(r#"{authored}<img class="pointer-events-none" src="c">"#);
    assert_eq!(parse(&covered), Err(chapter_error("chapter count not found")));
    let counted = format!(r#"{covered}<span class="text-g-black font-semibold">3</span>"#);
    assert_eq!(parse(&counted), Err(chapter_error("url not found")));
    assert_eq!(
        parse(&format!(r#"{counted}<a class="flex items-center justify-center gap-1 p-4">x</a>"#)),
        Err(chapter_error("url href attribute not found"))
    );
}

const MANGA_UP_PAGE: &str = r#"<html><body><h2 class="sp:text-title-lg-sp pc:text-title-lg-pc">Series M</h2><div class="text-on_background_medium sp:text-body-md-sp pc:text-body-md-pc">Author M</div><script>self.__next_f.push([1,"6e:[[\"$\",\"div\",null,{\"titleName\":\"Series M\",\"titleId\":395,\"chapters\":[{\"id\":1,\"name\":\"One\"}],\"currentChapter\":null}],[\"$\",\"$L6f\",null,{}]]"])</script></body></html>"#;

fn manga_up_chapter(id: i64, name: &str, sub_name: &str) -> manga_up::Chapter {
    manga_up::Chapter {
        id,
        name: name.to_string(),
        sub_name: sub_name.to_string(),
        can_comment: true,
        comment_count: 0,
        url_thumbnail: format!("https://img.example/m{id}.jpg"),
        status: 0,
        days_to_change_status: String::new(),
    }
}

fn manga_up_data() -> manga_up::MangaUpData {
    manga_up::MangaUpData {
        title_name: "Series M".to_string(),
        title_id: 395,
        chapters: vec![manga_up_chapter(1, "One", "No. 1"), manga_up_chapter(2, "Two", "")],
    }
}

#[test]
fn manga_up_json_of_the_chapters() {
    assert_eq!(
        manga_up::chapter_json(MANGA_UP_PAGE).unwrap(),
        r#"{"titleName":"Series M","titleId":395,"chapters":[{"id":1,"name":"One"}],"currentChapter":null}"#
    );
    assert_eq!(manga_up::chapter_json("<p>nothing</p>"), None);
    assert_eq!(manga_up::unescape(r#"{\"a\":1}],[\"$\",\"$L6f"#), r#"{"a":1}"#);
}

#[test]
fn manga_up_latest_chapter_is_the_last() {
    let manga =
        manga_up::parse_manga_up_from_html(MANGA_UP_PAGE.to_string(), Ok(manga_up_data()), now())
            .unwrap();
    assert_eq!(manga.title, "Series M");
    assert_eq!(manga.author, "Author M");
    assert_eq!(manga.cover_url, "https://img.example/m2.jpg");
    assert_eq!(manga.latest_chapter_title, "Two");
    assert_eq!(manga.latest_chapter_url, "https://www.manga-up.com/titles/395/chapters/2");
    assert_eq!(manga.latest_chapter_release_date, now());
    assert_eq!(manga.latest_chapter_publish_day, Weekday::Wed);
}

#[test]
fn manga_up_title_of_a_chapter_with_two_lines() {
    let mut data = manga_up_data();
    data.chapters.pop();
    let manga =
        manga_up::parse_manga_up_from_html(MANGA_UP_PAGE.to_string(), Ok(data), now()).unwrap();
    assert_eq!(manga.latest_chapter_title, "No. 1 One");
}

#[test]
fn manga_up_errors() {
    let parse = |html: &str, decoded| {
        manga_up::parse_manga_up_from_html(html.to_string(), decoded, now())
    };
    assert_eq!(parse("<p></p>", Ok(manga_up_data())), Err(page_error("title not found")));
    let titled = r#"<h2 class="pc:text-title-lg-pc">T</h2>"#;
    assert_eq!(parse(titled, Ok(manga_up_data())), Err(page_error("author not found")));
    let authored = format!(
        r#"{titled}<div class="text-on_background_medium sp:text-body-md-sp pc:text-body-md-pc">A</div>"#
    );
    assert_eq!(
        parse(&authored, Ok(manga_up_data())),
        Err(page_error("no match from regex search"))
    );
    assert_eq!(
        parse(MANGA_UP_PAGE, Err("expected value".to_string())),
        Err(FetchError::JsonDeserializeError("expected value".to_string()))
    );
    let mut empty = manga_up_data();
    empty.chapters.clear();
    assert_eq!(parse(MANGA_UP_PAGE, Ok(empty)), Err(chapter_error("chapters is empty")));
}

#[test]
fn manga_up_asks_again_for_an_empty_page() {
    assert!(manga_up::retry("", 0));
    assert!(manga_up::retry("", 10));
    assert!(!manga_up::retry("", 11));
    assert!(!manga_up::retry("<html></html>", 0));
}
