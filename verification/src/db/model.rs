//! The stored row of a tracked series.

use crate::time::{
    japan_time, valid_time, TimeView, WallTime, Weekday, ZonedTime, JAPAN_OFFSET,
    JAPAN_OFFSET_MILLIS,
};
use crate::types::{Manga, MangaSource, MangaView};
use vstd::prelude::*;
use vstd::std_specs::convert::FromSpecImpl;

verus! {

/// A day of the week as the store holds it.
#[derive(Clone, Copy, Debug, PartialEq, Eq, Structural)]
pub enum DbWeekday {
    Mon,
    Tue,
    Wed,
    Thu,
    Fri,
    Sat,
    Sun,
}

/// The weekday as the store holds it.
pub open spec fn stored_day(value: Weekday) -> DbWeekday {
    match value {
        Weekday::Mon => DbWeekday::Mon,
        Weekday::Tue => DbWeekday::Tue,
        Weekday::Wed => DbWeekday::Wed,
        Weekday::Thu => DbWeekday::Thu,
        Weekday::Fri => DbWeekday::Fri,
        Weekday::Sat => DbWeekday::Sat,
        Weekday::Sun => DbWeekday::Sun,
    }
}

/// The weekday that the store holds as `value`.
pub open spec fn weekday_of(value: DbWeekday) -> Weekday {
    match value {
        DbWeekday::Mon => Weekday::Mon,
        DbWeekday::Tue => Weekday::Tue,
        DbWeekday::Wed => Weekday::Wed,
        DbWeekday::Thu => Weekday::Thu,
        DbWeekday::Fri => Weekday::Fri,
        DbWeekday::Sat => Weekday::Sat,
        DbWeekday::Sun => Weekday::Sun,
    }
}

impl From<Weekday> for DbWeekday {
    fn from(value: Weekday) -> (day: DbWeekday) {
        match value {
            Weekday::Mon => DbWeekday::Mon,
            Weekday::Tue => DbWeekday::Tue,
            Weekday::Wed => DbWeekday::Wed,
            Weekday::Thu => DbWeekday::Thu,
            Weekday::Fri => DbWeekday::Fri,
            Weekday::Sat => DbWeekday::Sat,
            Weekday::Sun => DbWeekday::Sun,
        }
    }
}

impl FromSpecImpl<Weekday> for DbWeekday {
    open spec fn obeys_from_spec() -> bool {
        true
    }

    open spec fn from_spec(value: Weekday) -> DbWeekday {
        stored_day(value)
    }
}

impl From<DbWeekday> for Weekday {
    fn from(value: DbWeekday) -> (day: Weekday) {
        match value {
            DbWeekday::Mon => Weekday::Mon,
            DbWeekday::Tue => Weekday::Tue,
            DbWeekday::Wed => Weekday::Wed,
            DbWeekday::Thu => Weekday::Thu,
            DbWeekday::Fri => Weekday::Fri,
            DbWeekday::Sat => Weekday::Sat,
            DbWeekday::Sun => Weekday::Sun,
        }
    }
}

impl FromSpecImpl<DbWeekday> for Weekday {
    open spec fn obeys_from_spec() -> bool {
        true
    }

    open spec fn from_spec(value: DbWeekday) -> Weekday {
        weekday_of(value)
    }
}

/// Converting a weekday to the store's and back gives the weekday, and the
/// other way round.
pub proof fn lemma_weekday_round_trip(day: Weekday, stored: DbWeekday)
    ensures
        weekday_of(stored_day(day)) == day,
        stored_day(weekday_of(stored)) == stored,
{
}

/// The stored state of one tracked series, found by its source and its
/// identifier at the source.
#[derive(Clone, Debug, PartialEq, Eq)]
pub struct MangaRow {
    pub source: MangaSource,
    pub manga_id: String,
    pub cover_url: String,
    pub author: String,
    pub title: String,
    pub latest_chapter_title: String,
    pub latest_chapter_url: String,
    /// The release date as a clock in Japan shows it.
    pub latest_chapter_release_date: WallTime,
    pub latest_chapter_publish_day: DbWeekday,
    /// Whether the latest chapter was out when the row was last reconciled.
    pub latest_chapter_released: bool,
    pub last_update: WallTime,
}

/// A `MangaRow` with its texts as sequences of characters and its times as
/// clock readings in milliseconds.
pub struct MangaRowView {
    pub source: MangaSource,
    pub manga_id: Seq<char>,
    pub cover_url: Seq<char>,
    pub author: Seq<char>,
    pub title: Seq<char>,
    pub latest_chapter_title: Seq<char>,
    pub latest_chapter_url: Seq<char>,
    pub latest_chapter_release_date: int,
    pub latest_chapter_publish_day: DbWeekday,
    pub latest_chapter_released: bool,
    pub last_update: int,
}

impl View for MangaRow {
    type V = MangaRowView;

    open spec fn view(&self) -> MangaRowView {
        MangaRowView {
            source: self.source,
            manga_id: self.manga_id@,
            cover_url: self.cover_url@,
            author: self.author@,
            title: self.title@,
            latest_chapter_title: self.latest_chapter_title@,
            latest_chapter_url: self.latest_chapter_url@,
            latest_chapter_release_date: self.latest_chapter_release_date@,
            latest_chapter_publish_day: self.latest_chapter_publish_day,
            latest_chapter_released: self.latest_chapter_released,
            last_update: self.last_update@,
        }
    }
}

/// Whether a chapter released at the moment `release` is out at the moment
/// `now`: the release is then reached or past.
pub open spec fn released_by(release: int, now: int) -> bool {
    now >= release
}

/// The rows of `rows` as their views.
pub open spec fn rows_view(rows: Seq<MangaRow>) -> Seq<MangaRowView> {
    Seq::new(rows.len(), |i: int| rows[i]@)
}

impl MangaRow {
    /// A copy of the row.
    pub fn duplicate(&self) -> (copy: MangaRow)
        ensures
            copy@ == self@,
    {
        MangaRow {
            source: self.source,
            manga_id: self.manga_id.clone(),
            cover_url: self.cover_url.clone(),
            author: self.author.clone(),
            title: self.title.clone(),
            latest_chapter_title: self.latest_chapter_title.clone(),
            latest_chapter_url: self.latest_chapter_url.clone(),
            latest_chapter_release_date: self.latest_chapter_release_date,
            latest_chapter_publish_day: self.latest_chapter_publish_day,
            latest_chapter_released: self.latest_chapter_released,
            last_update: self.last_update,
        }
    }

    /// The row that stores `info` for the series `manga_id` of `source`, as
    /// reconciled at `now`: the release date and the time of reconciling are
    /// kept as a clock in Japan shows them, and the chapter counts as
    /// released when `now` has reached the moment of its release, whatever
    /// the offsets that the two are shown under.
    pub open spec fn spec_from_manga(
        manga_id: Seq<char>,
        source: MangaSource,
        info: MangaView,
        now: TimeView,
    ) -> MangaRowView {
        MangaRowView {
            source,
            manga_id,
            cover_url: info.cover_url,
            author: info.author,
            title: info.title,
            latest_chapter_title: info.latest_chapter_title,
            latest_chapter_url: info.latest_chapter_url,
            latest_chapter_release_date: info.latest_chapter_release_date.japan_millis(),
            latest_chapter_publish_day: stored_day(info.latest_chapter_publish_day),
            latest_chapter_released: released_by(
                info.latest_chapter_release_date.millis,
                now.millis,
            ),
            last_update: now.japan_millis(),
        }
    }

    /// The record that the row stands for, its release date taken as a
    /// reading of the clock in Japan.
    pub open spec fn spec_into_manga(row: MangaRowView) -> MangaView {
        MangaView {
            title: row.title,
            cover_url: row.cover_url,
            author: row.author,
            latest_chapter_title: row.latest_chapter_title,
            latest_chapter_url: row.latest_chapter_url,
            latest_chapter_release_date: japan_time(
                row.latest_chapter_release_date - JAPAN_OFFSET_MILLIS,
            ),
            latest_chapter_publish_day: weekday_of(row.latest_chapter_publish_day),
        }
    }

    /// The row that stores `info` for the series `manga_id` of `source`, as
    /// reconciled at `now`.
    pub fn from_manga(manga_id: String, source: MangaSource, info: Manga, now: ZonedTime) -> (row:
        MangaRow)
        ensures
            row@ == MangaRow::spec_from_manga(manga_id@, source, info@, now@),
    {
        let release = info.latest_chapter_release_date.japan_wall_time();
        let released = now.millis() >= info.latest_chapter_release_date.millis();
        MangaRow {
            source,
            manga_id,
            cover_url: info.cover_url,
            author: info.author,
            title: info.title,
            latest_chapter_title: info.latest_chapter_title,
            latest_chapter_url: info.latest_chapter_url,
            latest_chapter_release_date: release,
            latest_chapter_publish_day: DbWeekday::from(info.latest_chapter_publish_day),
            latest_chapter_released: released,
            last_update: now.japan_wall_time(),
        }
    }

    /// The record that the row stands for; none where the release date,
    /// read in Japan, is a moment beyond the limit.
    pub fn into_manga(self) -> (manga: Option<Manga>)
        ensures
            manga is Some <==> valid_time(
                self@.latest_chapter_release_date - JAPAN_OFFSET_MILLIS,
                JAPAN_OFFSET as int,
            ),
            manga matches Some(m) ==> m@ == MangaRow::spec_into_manga(self@),
    {
        match self.latest_chapter_release_date.in_japan() {
            Some(released) => Some(
                Manga {
                    title: self.title,
                    cover_url: self.cover_url,
                    author: self.author,
                    latest_chapter_title: self.latest_chapter_title,
                    latest_chapter_url: self.latest_chapter_url,
                    latest_chapter_release_date: released,
                    latest_chapter_publish_day: Weekday::from(self.latest_chapter_publish_day),
                },
            ),
            None => None,
        }
    }
}

/// A row gives back the release of the record that it stores: the record
/// that stands for the row of `info` is released at the moment at which
/// `info` is, shown in Japan, and everything else of it is as in `info`.
pub proof fn lemma_row_keeps_release(
    manga_id: Seq<char>,
    source: MangaSource,
    info: MangaView,
    now: TimeView,
)
    requires
        valid_time(
            info.latest_chapter_release_date.millis,
            info.latest_chapter_release_date.offset,
        ),
    ensures
        ({
            let row = MangaRow::spec_from_manga(manga_id, source, info, now);
            &&& valid_time(
                row.latest_chapter_release_date - JAPAN_OFFSET_MILLIS,
                JAPAN_OFFSET as int,
            )
            &&& MangaRow::spec_into_manga(row) == (MangaView {
                latest_chapter_release_date: info.latest_chapter_release_date.in_japan(),
                ..info
            })
        }),
{
    lemma_weekday_round_trip(info.latest_chapter_publish_day, DbWeekday::Mon);
}

} // verus!
