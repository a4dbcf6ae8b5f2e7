use manga_tracker::db::model::{DbWeekday, MangaRow};
use manga_tracker::fetch::FetchError;
use manga_tracker::server::service::{
    add_fetched, add_manga_service, add_request, delete_manga_service, delete_request,
    retrieve_manga_service, Lookup,
};
use manga_tracker::time::{WallTime, ZonedTime, MILLIS_LIMIT, MILLIS_PER_DAY};
use manga_tracker::types::{Manga, MangaSource, Paginated};

fn manga() -> Manga {
    Manga::released_at(
        "Series".to_string(),
        "cover".to_string(),
        "Author".to_string(),
        "No. 1".to_string(),
        "https://example.org/1".to_string(),
        ZonedTime::in_japan(1_714_921_200_000).unwrap(),
    )
}

fn row(id: &str, release: i64) -> MangaRow {
    MangaRow {
        source: MangaSource::Yanmaga,
        manga_id: id.to_string(),
        cover_url: "cover".to_string(),
        author: "Author".to_string(),
        title: "Series".to_string(),
        latest_chapter_title: "No. 1".to_string(),
        latest_chapter_url: String::new(),
        latest_chapter_release_date: WallTime::new(release).unwrap(),
        latest_chapter_publish_day: DbWeekday::Mon,
        latest_chapter_released: true,
        last_update: WallTime::new(0).unwrap(),
    }
}

#[test]
fn a_series_is_added_once_and_with_a_source() {
    assert_eq!(
        add_request(None, Lookup::Missing),
        Err("Source cannot be empty".to_string())
    );
    assert_eq!(add_request(None, Lookup::Found), Err("Source cannot be empty".to_string()));
    assert_eq!(
        add_request(Some(MangaSource::GANMA), Lookup::Found),
        Err("manga already exist in db".to_string())
    );
    assert_eq!(
        add_request(Some(MangaSource::GANMA), Lookup::Failed),
        Err("error checking manga in db".to_string())
    );
    assert_eq!(add_request(Some(MangaSource::GANMA), Lookup::Missing), Ok(MangaSource::GANMA));
}

#[test]
fn a_failed_fetch_is_told_by_its_message() {
    assert_eq!(add_fetched(Ok(manga())), Ok(manga()));
    assert_eq!(
        add_fetched(Err(FetchError::ChapterNotFound(None))),
        Err("Chapter Not Found".to_string())
    );
    assert_eq!(
        add_fetched(Err(FetchError::ReqwestError("status 404".to_string()))),
        Err("status 404".to_string())
    );
}

#[test]
fn a_series_that_was_not_stored_is_an_error() {
    assert_eq!(add_manga_service(manga(), true), Ok(manga()));
    assert_eq!(
        add_manga_service(manga(), false),
        Err("Error inserting manga to db".to_string())
    );
}

#[test]
fn deleting_needs_a_series_and_deletes_one() {
    assert_eq!(delete_request(0), Err("manga list cannot be empty".to_string()));
    assert_eq!(delete_request(1), Ok(()));
    assert_eq!(delete_manga_service(None), Err("Error at deleting manga".to_string()));
    assert_eq!(delete_manga_service(Some(0)), Err("no manga deleted".to_string()));
    assert_eq!(delete_manga_service(Some(3)), Ok(3));
}

#[test]
fn a_page_of_rows_is_listed_as_records() {
    assert_eq!(
        retrieve_manga_service(None).map(|page| page.total_page),
        Err("Error at querying manga".to_string())
    );
    let page = Paginated {
        data: vec![
            row("a", 32_400_000),
            row("far", MILLIS_LIMIT + MILLIS_PER_DAY),
            row("b", 1_714_921_200_000 + 32_400_000),
        ],
        total_count: 63,
        total_page: 7,
    };
    let listed = retrieve_manga_service(Some(page)).unwrap();
    assert_eq!(listed.total_count, 63);
    assert_eq!(listed.total_page, 7);
    assert_eq!(listed.data.len(), 2);
    assert_eq!(listed.data[0].source, MangaSource::Yanmaga);
    assert_eq!(listed.data[0].manga_id, "a");
    assert_eq!(listed.data[0].manga.latest_chapter_release_date.millis(), 0);
    assert_eq!(listed.data[1].manga_id, "b");
    assert_eq!(listed.data[1].manga.latest_chapter_release_date.millis(), 1_714_921_200_000);
    assert_eq!(listed.data[1].manga.title, "Series");
}
