use manga_tracker::fetch::FetchError;
use manga_tracker::manga::ConvertError;
use manga_tracker::parser::cdata_rss;
use manga_tracker::parser::champion_cross;
use manga_tracker::parser::champion_cross::ChampionCrossError;
use manga_tracker::parser::comic_fuz;
use manga_tracker::parser::comic_pixiv;
use manga_tracker::parser::comic_walker;
use manga_tracker::parser::gangan_online;
use manga_tracker::parser::ichijin_plus;
use manga_tracker::parser::rss_manga;
use manga_tracker::time::{Weekday, ZonedTime, JAPAN_OFFSET, MILLIS_LIMIT};

// 2024-05-06 00:00 in Japan, a Monday.
const MAY_6: i64 = 1_714_921_200_000;

fn now() -> ZonedTime {
    // 2024-05-08 12:00 in Japan, a Wednesday.
    ZonedTime::in_japan(MAY_6 + 216_000_000).unwrap()
}

fn chapter_error(reason: &str) -> FetchError {
    FetchError::ChapterNotFound(Some(reason.to_string()))
}

fn fuz_chapter(id: i64, name: &str, date: Option<&str>) -> comic_fuz::ChapterDetail {
    comic_fuz::ChapterDetail {
        chapter_id: id,
        chapter_main_name: name.to_string(),
        thumbnail_url: format!("/t/{id}.jpg"),
        updated_date: date.map(|d| d.to_string()),
    }
}

fn fuz_author(name: &str) -> comic_fuz::Authorship {
    comic_fuz::Authorship {
        author: comic_fuz::Author { author_id: 1, author_name: name.to_string() },
    }
}

fn fuz_page(chapters: Vec<comic_fuz::Chapter>) -> comic_fuz::PageProps {
    comic_fuz::PageProps {
        chapters,
        authorships: vec![fuz_author("Writer"), fuz_author("Artist")],
        manga: comic_fuz::MangaInfo { manga_id: 7, manga_name: "Series F".to_string() },
    }
}

#[test]
fn comic_fuz_latest_chapter_is_the_first_of_the_first_group() {
    let page = fuz_page(vec![
        comic_fuz::Chapter {
            chapters: vec![fuz_chapter(12, "No. 12", Some("2024/05/06")), fuz_chapter(11, "No. 11", None)],
        },
        comic_fuz::Chapter { chapters: vec![fuz_chapter(1, "No. 1", None)] },
    ]);
    let manga = comic_fuz::manga_from_page_props(&page, now()).unwrap();
    assert_eq!(manga.title, "Series F");
    assert_eq!(manga.author, "Writer,Artist");
    assert_eq!(manga.cover_url, "https://img.comic-fuz.com/t/12.jpg");
    assert_eq!(manga.latest_chapter_title, "No. 12");
    assert_eq!(manga.latest_chapter_url, "https://comic-fuz.com/manga/viewer/12");
    assert_eq!(manga.latest_chapter_release_date.millis(), MAY_6);
    assert_eq!(manga.latest_chapter_release_date.offset(), JAPAN_OFFSET);
    assert_eq!(manga.latest_chapter_publish_day, Weekday::Mon);
}

#[test]
fn comic_fuz_chapter_without_date_is_released_now() {
    let page = fuz_page(vec![comic_fuz::Chapter { chapters: vec![fuz_chapter(3, "No. 3", None)] }]);
    let manga = comic_fuz::manga_from_page_props(&page, now()).unwrap();
    assert_eq!(manga.latest_chapter_release_date, now());
    assert_eq!(manga.latest_chapter_publish_day, Weekday::Wed);
}

#[test]
fn comic_fuz_errors() {
    assert_eq!(
        comic_fuz::manga_from_page_props(&fuz_page(vec![]), now()),
        Err(chapter_error("chapters is empty"))
    );
    assert_eq!(
        comic_fuz::manga_from_page_props(
            &fuz_page(vec![comic_fuz::Chapter { chapters: vec![] }]),
            now()
        ),
        Err(chapter_error("nested chapters is empty"))
    );
    let words = chrono::NaiveDate::parse_from_str("May", "%Y/%m/%d").unwrap_err().to_string();
    let page = fuz_page(vec![comic_fuz::Chapter { chapters: vec![fuz_chapter(3, "x", Some("May"))] }]);
    assert_eq!(
        comic_fuz::manga_from_page_props(&page, now()),
        Err(chapter_error(&format!("error on date parse May : {words}")))
    );
    assert_eq!(
        comic_fuz::assemble(&page, Some(Err("why".to_string())), now()),
        Err(chapter_error("error on date parse May : why"))
    );
    assert_eq!(
        comic_fuz::assemble(&page, Some(Ok(i64::MIN)), now()),
        Err(chapter_error("release date is out of range"))
    );
    let manga = comic_fuz::assemble(&page, Some(Ok(86_400_000)), now()).unwrap();
    assert_eq!(manga.latest_chapter_release_date.millis(), 86_400_000 - 32_400_000);
    assert_eq!(manga.latest_chapter_publish_day, Weekday::Fri);
}

const NEXT_DATA_PAGE: &str = r#"<html><head><script id="__NEXT_DATA__" type="application/json">{"props":{"pageProps":{}}}</script></head><body></body></html>"#;

#[test]
fn comic_fuz_page_and_its_data() {
    assert_eq!(comic_fuz::next_data(NEXT_DATA_PAGE).unwrap(), r#"{"props":{"pageProps":{}}}"#);
    assert_eq!(comic_fuz::next_data("<html></html>"), None);
    let data = comic_fuz::ComicFuz {
        props: comic_fuz::Props {
            page_props: fuz_page(vec![comic_fuz::Chapter {
                chapters: vec![fuz_chapter(3, "No. 3", None)],
            }]),
        },
    };
    let manga =
        comic_fuz::parse_comic_fuz_from_html(NEXT_DATA_PAGE.to_string(), Ok(data.clone()), now())
            .unwrap();
    assert_eq!(manga.latest_chapter_title, "No. 3");
    assert_eq!(
        comic_fuz::parse_comic_fuz_from_html("<p></p>".to_string(), Ok(data), now()),
        Err(FetchError::PageNotFound(Some("__NEXT_DATA__ not found".to_string())))
    );
    assert_eq!(
        comic_fuz::parse_comic_fuz_from_html(
            NEXT_DATA_PAGE.to_string(),
            Err("missing field `props`".to_string()),
            now()
        ),
        Err(FetchError::JsonDeserializeError("missing field `props`".to_string()))
    );
}

fn gangan_chapter(id: i64, main: &str, sub: Option<&str>) -> gangan_online::Chapter {
    gangan_online::Chapter {
        id,
        status: None,
        thumbnail_url: format!("/c/{id}.png"),
        main_text: main.to_string(),
        sub_text: sub.map(|s| s.to_string()),
        app_launch_url: None,
        publishing_period: None,
    }
}

fn gangan_data(chapters: Vec<gangan_online::Chapter>) -> gangan_online::Default {
    gangan_online::Default {
        chapters,
        title_name: "Series O".to_string(),
        image_url: "/i.png".to_string(),
        author: "Author O".to_string(),
        description: String::new(),
        impression_url: String::new(),
        title_id: 44,
    }
}

#[test]
fn gangan_online_first_chapter() {
    let data = gangan_data(vec![gangan_chapter(9, "Main", Some("Sub")), gangan_chapter(8, "Old", None)]);
    let manga = gangan_online::manga_from_data(&data, now()).unwrap();
    assert_eq!(manga.title, "Series O");
    assert_eq!(manga.author, "Author O");
    assert_eq!(manga.cover_url, "https://www.ganganonline.com/c/9.png");
    assert_eq!(manga.latest_chapter_title, "Sub");
    assert_eq!(manga.latest_chapter_url, "https://www.ganganonline.com/title/44/chapter/9");
    assert_eq!(manga.latest_chapter_release_date, now());
    assert_eq!(manga.latest_chapter_publish_day, Weekday::Wed);
    let plain = gangan_data(vec![gangan_chapter(8, "Old", None)]);
    assert_eq!(gangan_online::manga_from_data(&plain, now()).unwrap().latest_chapter_title, "Old");
}

#[test]
fn gangan_online_errors() {
    assert_eq!(
        gangan_online::manga_from_data(&gangan_data(vec![]), now()),
        Err(chapter_error("chapters are empty"))
    );
    let data = gangan_online::GanganOnline {
        props: gangan_online::Props {
            page_props: gangan_online::PageProps {
                data: gangan_online::Data { default: gangan_data(vec![gangan_chapter(1, "M", None)]) },
            },
        },
    };
    assert_eq!(
        gangan_online::parse_gangan_online_from_html("<p></p>".to_string(), Ok(data.clone()), now()),
        Err(FetchError::PageNotFound(Some("__NEXT_DATA__ not found".to_string())))
    );
    assert_eq!(
        gangan_online::parse_gangan_online_from_html(
            NEXT_DATA_PAGE.to_string(),
            Err("EOF while parsing".to_string()),
            now()
        ),
        Err(FetchError::JsonDeserializeError("EOF while parsing".to_string()))
    );
    let manga =
        gangan_online::parse_gangan_online_from_html(NEXT_DATA_PAGE.to_string(), Ok(data), now())
            .unwrap();
    assert_eq!(manga.latest_chapter_title, "M");
    assert_eq!(gangan_online::next_data(NEXT_DATA_PAGE).unwrap(), r#"{"props":{"pageProps":{}}}"#);
}

fn pixiv_metadata() -> comic_pixiv::Metadata {
    comic_pixiv::Metadata {
        data: comic_pixiv::Data {
            official_work: comic_pixiv::OfficialWork {
                id: 1,
                name: "Series P".to_string(),
                author: "Author P".to_string(),
                description: String::new(),
            },
        },
    }
}

fn pixiv_episode(state: &str, detail: Option<(i64, i64)>) -> comic_pixiv::Episode {
    comic_pixiv::Episode {
        state: state.to_string(),
        episode: detail.map(|(id, read_start_at)| comic_pixiv::EpisodeDetail {
            id,
            numbering_title: format!("No. {id}"),
            sub_title: String::new(),
            read_start_at,
            thumbnail_image_url: format!("https://img.example/p{id}.jpg"),
            viewer_path: format!("/viewer/stories/{id}"),
            is_tateyomi: false,
            sales_type: "free".to_string(),
            is_purchased: false,
            state: state.to_string(),
        }),
        message: None,
    }
}

fn pixiv_details(episodes: Vec<comic_pixiv::Episode>) -> comic_pixiv::Detail {
    comic_pixiv::Detail { data: comic_pixiv::EpisodeData { episodes } }
}

#[test]
fn comic_pixiv_first_episode_that_is_published() {
    let details = pixiv_details(vec![
        pixiv_episode("not_publishing", None),
        pixiv_episode("readable", Some((31, MAY_6))),
        pixiv_episode("readable", Some((30, 0))),
    ]);
    let manga = comic_pixiv::fetch_pixiv_data(pixiv_metadata(), details).unwrap();
    assert_eq!(manga.title, "Series P");
    assert_eq!(manga.author, "Author P");
    assert_eq!(manga.cover_url, "https://img.example/p31.jpg");
    assert_eq!(manga.latest_chapter_title, "No. 31");
    assert_eq!(manga.latest_chapter_url, "https://comic.pixiv.net/viewer/stories/31");
    assert_eq!(manga.latest_chapter_release_date.millis(), MAY_6);
    assert_eq!(manga.latest_chapter_release_date.offset(), JAPAN_OFFSET);
    assert_eq!(manga.latest_chapter_publish_day, Weekday::Mon);
}

#[test]
fn comic_pixiv_errors() {
    assert_eq!(
        comic_pixiv::fetch_pixiv_data(pixiv_metadata(), pixiv_details(vec![])),
        Err(chapter_error("episodes is empty"))
    );
    assert_eq!(
        comic_pixiv::fetch_pixiv_data(
            pixiv_metadata(),
            pixiv_details(vec![pixiv_episode("not_publishing", Some((1, 0)))])
        ),
        Err(chapter_error("latest episode not found"))
    );
    assert_eq!(
        comic_pixiv::fetch_pixiv_data(
            pixiv_metadata(),
            pixiv_details(vec![pixiv_episode("readable", None)])
        ),
        Err(chapter_error("latest episode has no detail"))
    );
    assert_eq!(
        comic_pixiv::fetch_pixiv_data(
            pixiv_metadata(),
            pixiv_details(vec![pixiv_episode("readable", Some((1, MILLIS_LIMIT + 1)))])
        ),
        Err(chapter_error("release date is out of range"))
    );
    assert_eq!(
        comic_pixiv::episodes_url("9"),
        "https://comic.pixiv.net/api/app/works/9/episodes/v2?order=desc"
    );
}

fn walker_episode(code: &str, thumbnail: Option<&str>, update: ZonedTime) -> comic_walker::EpisodeResult {
    comic_walker::EpisodeResult {
        id: "id".to_string(),
        code: code.to_string(),
        title: format!("Episode {code}"),
        sub_title: String::new(),
        thumbnail: None,
        original_thumbnail: thumbnail.map(|t| t.to_string()),
        update_date: update,
        delivery_period: String::new(),
        is_new: true,
        has_read: false,
        service_id: String::new(),
        internal: comic_walker::Internal { episode_no: 1, page_count: 20, episodetype: String::new() },
        type_field: "normal".to_string(),
        is_active: true,
    }
}

fn walker_data(result: Vec<comic_walker::EpisodeResult>) -> comic_walker::ComicWalkerData {
    comic_walker::ComicWalkerData {
        work: comic_walker::Work {
            code: "KC_1".to_string(),
            id: "w".to_string(),
            thumbnail: "small".to_string(),
            original_thumbnail: "https://img.example/work.jpg".to_string(),
            book_cover: None,
            title: "Series W".to_string(),
            language: "ja".to_string(),
            serialization_status: String::new(),
            summary: String::new(),
            authors: vec![
                comic_walker::Author { id: "1".into(), name: "Writer".into(), role: "story".into() },
                comic_walker::Author { id: "2".into(), name: "Artist".into(), role: "art".into() },
            ],
        },
        latest_episodes: comic_walker::LatestEpisodes { total: result.len() as i64, result },
        latest_episode_id: String::new(),
    }
}

#[test]
fn comic_walker_first_episode_shown_in_japan() {
    let update = ZonedTime::new(MAY_6 - 1, 0).unwrap();
    let data = walker_data(vec![
        walker_episode("E2", Some("https://img.example/e2.jpg"), update),
        walker_episode("E1", None, update),
    ]);
    let manga = comic_walker::fetch_comic_walker_data(data, "KC_1").unwrap();
    assert_eq!(manga.title, "Series W");
    assert_eq!(manga.author, "Writer,Artist");
    assert_eq!(manga.cover_url, "https://img.example/e2.jpg");
    assert_eq!(manga.latest_chapter_title, "Episode E2");
    assert_eq!(manga.latest_chapter_url, "https://comic-walker.com/detail/KC_1/episodes/E2");
    assert_eq!(manga.latest_chapter_release_date.millis(), MAY_6 - 1);
    assert_eq!(manga.latest_chapter_release_date.offset(), JAPAN_OFFSET);
    assert_eq!(manga.latest_chapter_publish_day, Weekday::Sun);
}

#[test]
fn comic_walker_cover_of_the_work_and_missing_episodes() {
    let update = ZonedTime::in_japan(MAY_6).unwrap();
    let manga =
        comic_walker::fetch_comic_walker_data(walker_data(vec![walker_episode("E1", None, update)]), "x")
            .unwrap();
    assert_eq!(manga.cover_url, "https://img.example/work.jpg");
    assert_eq!(
        comic_walker::fetch_comic_walker_data(walker_data(vec![]), "x"),
        Err(chapter_error("episodes is empty"))
    );
}

#[test]
fn ichijin_plus_first_episode() {
    let data = ichijin_plus::IchijinPlusData {
        authors: vec![ichijin_plus::Author {
            creator_id: "c".to_string(),
            name: "Author I".to_string(),
            role: "author".to_string(),
        }],
        title: "Series I".to_string(),
    };
    let published = ZonedTime::new(MAY_6, 3600).unwrap();
    let episodes = ichijin_plus::EpisodeDetail {
        resources: vec![ichijin_plus::Episode {
            comic_id: "1".to_string(),
            id: "77".to_string(),
            published_at: published,
            thumbnail_image_url: "https://img.example/i.jpg".to_string(),
            title: "No. 77".to_string(),
        }],
    };
    let manga = ichijin_plus::fetch_ichijin_plus_data(data.clone(), episodes).unwrap();
    assert_eq!(manga.title, "Series I");
    assert_eq!(manga.author, "Author I");
    assert_eq!(manga.cover_url, "https://img.example/i.jpg");
    assert_eq!(manga.latest_chapter_title, "No. 77");
    assert_eq!(manga.latest_chapter_url, "https://ichijin-plus.com/episodes/77");
    assert_eq!(manga.latest_chapter_release_date, published);
    assert_eq!(manga.latest_chapter_publish_day, Weekday::Mon);
    assert_eq!(
        ichijin_plus::fetch_ichijin_plus_data(data, ichijin_plus::EpisodeDetail { resources: vec![] }),
        Err(chapter_error("No episode found"))
    );
    assert_eq!(ichijin_plus::comic_url("5"), "https://api.ichijin-plus.com/comics/5");
    assert_eq!(
        ichijin_plus::episodes_url("5"),
        "https://api.ichijin-plus.com/episodes?comic_id=5&episode_status=free_viewing%2Con_sale&limit=5&order=desc&sort=episode_order"
    );
    assert_eq!(ichijin_plus::HEADER_KEY, "x-api-environment-key");
}

fn rss_item(title: &str, date: ZonedTime) -> rss_manga::Item {
    rss_manga::Item {
        title: title.to_string(),
        link: format!("https://feed.example/{title}"),
        guid: String::new(),
        pub_date: date,
        description: String::new(),
        enclosure: rss_manga::Enclosure {
            url: format!("https://img.example/{title}.jpg"),
            length: "0".to_string(),
            type_field: "image/jpeg".to_string(),
        },
        author: "Author R".to_string(),
    }
}

fn rss_channel(item: Vec<rss_manga::Item>) -> rss_manga::Channel {
    rss_manga::Channel {
        title: "コミックDAYS（Series R）".to_string(),
        pub_date: now(),
        link: String::new(),
        description: String::new(),
        item,
    }
}

#[test]
fn rss_first_item_is_the_latest_chapter() {
    let date = rss_manga::deserialize("Mon, 06 May 2024 00:00:00 +0900").unwrap();
    let channel = rss_channel(vec![rss_item("c2", date), rss_item("c1", now())]);
    let manga = rss_manga::manga_from_channel(channel.clone()).unwrap();
    assert_eq!(manga.title, "コミックDAYS（Series R）");
    assert_eq!(manga.cover_url, "https://img.example/c2.jpg");
    assert_eq!(manga.author, "Author R");
    assert_eq!(manga.latest_chapter_title, "c2");
    assert_eq!(manga.latest_chapter_url, "https://feed.example/c2");
    assert_eq!(manga.latest_chapter_release_date, date);
    assert_eq!(manga.latest_chapter_publish_day, Weekday::Mon);
    assert_eq!(rss_manga::latest_of(channel.clone()), Some(manga.clone()));
    assert_eq!(manga_tracker::manga::manga_from_channel(channel.clone()), Ok(manga.clone()));
    assert_eq!(rss_manga::from_rss_xml(Ok(rss_manga::Rss { channel })), Ok(manga));
}

#[test]
fn rss_errors() {
    assert_eq!(
        rss_manga::manga_from_channel(rss_channel(vec![])),
        Err(FetchError::ChapterNotFound(None))
    );
    assert_eq!(rss_manga::latest_of(rss_channel(vec![])), None);
    assert_eq!(
        manga_tracker::manga::manga_from_channel(rss_channel(vec![])),
        Err(ConvertError::EmptyChapter)
    );
    assert_eq!(
        rss_manga::from_rss_xml(Err("unexpected end".to_string())),
        Err(FetchError::XmlDeserializeError(Some("unexpected end".to_string())))
    );
    assert!(rss_manga::deserialize("2024-05-06").is_err());
}

fn cdata_item(thumbnail: (Option<&str>, Option<&str>), creator: Option<&str>) -> cdata_rss::Item {
    cdata_rss::Item {
        title: cdata_rss::Value { inner: "\n  No. 3  \n".to_string() },
        link: cdata_rss::Value { inner: "https://feed.example/3".to_string() },
        pub_date: cdata_rss::DateValue {
            date: cdata_rss::Rfc2822Date::deserialize("Mon, 06 May 2024 00:00:00 +0900").unwrap(),
        },
        thumbnail: cdata_rss::ThumbnailValue {
            inner: thumbnail.0.map(|t| t.to_string()),
            url: thumbnail.1.map(|t| t.to_string()),
        },
        creator: cdata_rss::OptionalValue { inner: creator.map(|c| c.to_string()) },
    }
}

fn cdata_channel(item: Vec<cdata_rss::Item>) -> cdata_rss::Channel {
    cdata_rss::Channel { title: cdata_rss::Value { inner: "  Series C\n".to_string() }, item }
}

#[test]
fn cdata_marks_are_stripped() {
    assert_eq!(
        cdata_rss::strip_cdata("<title><![CDATA[ A ]]></title><link><![CDATA[b]]></link>"),
        "<title> A </title><link>b</link>"
    );
    assert_eq!(cdata_rss::strip_cdata("<a>plain</a>"), "<a>plain</a>");
    assert_eq!(cdata_rss::strip_cdata("<![CDATA[x]]>"), "x");
}

#[test]
fn cdata_feed_first_item() {
    let manga = cdata_rss::manga_from_channel(cdata_channel(vec![cdata_item(
        (Some("https://img.example/inner.jpg"), Some("https://img.example/attr.jpg")),
        Some("Author C"),
    )]))
    .unwrap();
    assert_eq!(manga.title, "Series C");
    assert_eq!(manga.latest_chapter_title, "No. 3");
    assert_eq!(manga.cover_url, "https://img.example/inner.jpg");
    assert_eq!(manga.author, "Author C");
    assert_eq!(manga.latest_chapter_url, "https://feed.example/3");
    assert_eq!(manga.latest_chapter_release_date.millis(), MAY_6);
    assert_eq!(manga.latest_chapter_publish_day, Weekday::Mon);
}

#[test]
fn cdata_feed_tolerates_missing_thumbnail_and_author() {
    let by_attribute = cdata_rss::manga_from_channel(cdata_channel(vec![cdata_item(
        (None, Some("https://img.example/attr.jpg")),
        None,
    )]))
    .unwrap();
    assert_eq!(by_attribute.cover_url, "https://img.example/attr.jpg");
    assert_eq!(by_attribute.author, "");
    let neither =
        cdata_rss::manga_from_channel(cdata_channel(vec![cdata_item((None, None), None)])).unwrap();
    assert_eq!(neither.cover_url, "");
}

#[test]
fn cdata_feed_errors() {
    assert_eq!(
        cdata_rss::manga_from_channel(cdata_channel(vec![])),
        Err(FetchError::ChapterNotFound(None))
    );
    assert_eq!(
        cdata_rss::parse_cdata_xml(Err("no root".to_string())),
        Err(FetchError::XmlDeserializeError(Some("no root".to_string())))
    );
    let parsed = cdata_rss::parse_cdata_xml(Ok(cdata_rss::Rss {
        channel: cdata_channel(vec![cdata_item((None, None), None)]),
    }));
    assert_eq!(parsed.unwrap().title, "Series C");
    let words = chrono::DateTime::parse_from_rfc2822("today").unwrap_err().to_string();
    assert_eq!(cdata_rss::Rfc2822Date::deserialize("today").unwrap_err(), words);
}

fn champion_value(text: &str) -> champion_cross::Value {
    champion_cross::Value { inner: text.to_string() }
}

#[test]
fn champion_cross_feed() {
    let item = champion_cross::Item {
        title: champion_value(" No. 8 "),
        link: champion_value("https://feed.example/8"),
        guid: champion_value("g"),
        pub_date: champion_cross::DateValue {
            date: champion_cross::Rfc2822Date::deserialize("Mon, 06 May 2024 00:00:00 +0900")
                .unwrap(),
        },
        thumbnail: champion_value("https://img.example/8.jpg"),
        creator: champion_value("Author X"),
    };
    let channel = champion_cross::Channel { title: champion_value(" Series X "), item: vec![item] };
    let manga =
        champion_cross::parse_champion_cross_xml(Some(champion_cross::Rss { channel })).unwrap();
    assert_eq!(manga.title, "Series X");
    assert_eq!(manga.latest_chapter_title, "No. 8");
    assert_eq!(manga.cover_url, "https://img.example/8.jpg");
    assert_eq!(manga.author, "Author X");
    assert_eq!(manga.latest_chapter_url, "https://feed.example/8");
    assert_eq!(manga.latest_chapter_publish_day, Weekday::Mon);
    assert_eq!(
        champion_cross::parse_champion_cross_xml(None),
        Err(ChampionCrossError::DeserializeError)
    );
    let empty = champion_cross::Channel { title: champion_value("t"), item: vec![] };
    assert_eq!(
        champion_cross::manga_from_channel(empty),
        Err(ChampionCrossError::EmptyChapter)
    );
    assert!(champion_cross::Rfc2822Date::deserialize("x").is_err());
}
