//! Comic Pixiv: two answers of its interface, one on the series and one on
//! its episodes, the latest first.

use crate::fetch::{chapter_missing, fetched_view, FetchError, FetchedView};
use crate::text::{concat, concat3};
use crate::time::{japan_time, valid_time, ZonedTime, JAPAN_OFFSET};
use crate::types::{Manga, MangaView};
use vstd::prelude::*;

verus! {

/// The answer on the series.
#[derive(Default, Debug, Clone, PartialEq)]
pub struct Metadata {
    pub data: Data,
}

#[derive(Default, Debug, Clone, PartialEq)]
pub struct Data {
    pub official_work: OfficialWork,
}

#[derive(Default, Debug, Clone, PartialEq)]
pub struct OfficialWork {
    pub id: i64,
    pub name: String,
    pub author: String,
    pub description: String,
}

/// The answer on the episodes.
#[derive(Default, Debug, Clone, PartialEq)]
pub struct Detail {
    pub data: EpisodeData,
}

#[derive(Default, Debug, Clone, PartialEq)]
pub struct EpisodeData {
    pub episodes: Vec<Episode>,
}

#[derive(Default, Debug, Clone, PartialEq)]
pub struct Episode {
    pub state: String,
    pub episode: Option<EpisodeDetail>,
    pub message: Option<String>,
}

#[derive(Default, Debug, Clone, PartialEq)]
pub struct EpisodeDetail {
    pub id: i64,
    pub numbering_title: String,
    pub sub_title: String,
    /// The moment from which the episode can be read, in milliseconds since
    /// the epoch.
    pub read_start_at: i64,
    pub thumbnail_image_url: String,
    pub viewer_path: String,
    pub is_tateyomi: bool,
    pub sales_type: String,
    pub is_purchased: bool,
    pub state: String,
}

/// Whether an episode is or will be published.
pub open spec fn publishing(episode: Episode) -> bool {
    episode.state@ != "not_publishing"@
}

/// The position of the first episode from `from` on that is or will be
/// published.
pub open spec fn first_publishing(episodes: Seq<Episode>, from: int) -> Option<int>
    decreases episodes.len() - from,
{
    if from < 0 || from >= episodes.len() {
        None
    } else if publishing(episodes[from]) {
        Some(from)
    } else {
        first_publishing(episodes, from + 1)
    }
}

/// The record of a series: that of its first episode that is or will be
/// published, with the release date shown in Japan.
///
/// No chapter is found where there is no episode, none that is published,
/// where the one found carries no detail, or where its release date is
/// beyond the limit of moments.
pub open spec fn spec_manga(metadata: Metadata, details: Detail) -> FetchedView {
    let episodes = details.data.episodes@;
    if episodes.len() == 0 {
        Err(chapter_missing("episodes is empty"@))
    } else {
        match first_publishing(episodes, 0) {
            None => Err(chapter_missing("latest episode not found"@)),
            Some(at) => match episodes[at].episode {
                None => Err(chapter_missing("latest episode has no detail"@)),
                Some(detail) => if !valid_time(detail.read_start_at as int, JAPAN_OFFSET as int) {
                    Err(chapter_missing("release date is out of range"@))
                } else {
                    Ok(
                        MangaView {
                            title: metadata.data.official_work.name@,
                            cover_url: detail.thumbnail_image_url@,
                            author: metadata.data.official_work.author@,
                            latest_chapter_title: detail.numbering_title@,
                            latest_chapter_url: "https://comic.pixiv.net"@ + detail.viewer_path@,
                            latest_chapter_release_date: japan_time(detail.read_start_at as int),
                            latest_chapter_publish_day: japan_time(
                                detail.read_start_at as int,
                            ).weekday(),
                        },
                    )
                },
            },
        }
    }
}

/// The position of the first episode that is or will be published.
fn find_publishing(episodes: &Vec<Episode>) -> (found: Option<usize>)
    ensures
        match found {
            Some(at) => first_publishing(episodes@, 0) == Some(at as int) && at < episodes.len(),
            None => first_publishing(episodes@, 0) is None,
        },
{
    let idle = "not_publishing".to_owned();
    let mut i: usize = 0;
    while i < episodes.len()
        invariant
            i <= episodes.len(),
            idle@ == "not_publishing"@,
            first_publishing(episodes@, 0) == first_publishing(episodes@, i as int),
        decreases episodes.len() - i,
    {
        if !(episodes[i].state == idle) {
            return Some(i);
        }
        i = i + 1;
    }
    None
}

/// The record of the series that the two answers describe.
pub fn fetch_pixiv_data(metadata: Metadata, details: Detail) -> (fetched: Result<
    Manga,
    FetchError,
>)
    ensures
        fetched_view(fetched) == spec_manga(metadata, details),
        fetched matches Ok(manga) ==> manga@.consistent(),
{
    if details.data.episodes.len() == 0 {
        return Err(FetchError::chapter_not_found("episodes is empty"));
    }
    let at = match find_publishing(&details.data.episodes) {
        Some(at) => at,
        None => {
            return Err(FetchError::chapter_not_found("latest episode not found"));
        },
    };
    let detail = match &details.data.episodes[at].episode {
        Some(detail) => detail,
        None => {
            return Err(FetchError::chapter_not_found("latest episode has no detail"));
        },
    };
    let released = match ZonedTime::in_japan(detail.read_start_at) {
        Some(time) => time,
        None => {
            return Err(FetchError::chapter_not_found("release date is out of range"));
        },
    };
    Ok(
        Manga::released_at(
            metadata.data.official_work.name.clone(),
            detail.thumbnail_image_url.clone(),
            metadata.data.official_work.author.clone(),
            detail.numbering_title.clone(),
            concat("https://comic.pixiv.net", detail.viewer_path.as_str()),
            released,
        ),
    )
}

/// The address of the answer on the episodes of the series `id`.
pub fn episodes_url(id: &str) -> (url: String)
    ensures
        url@ == "https://comic.pixiv.net/api/app/works/"@ + id@ + "/episodes/v2?order=desc"@,
{
    concat3("https://comic.pixiv.net/api/app/works/", id, "/episodes/v2?order=desc")
}

} // verus!
