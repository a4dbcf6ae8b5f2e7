//! Reconciling the stored rows with what the sources report.

use crate::db::inquiry::{page_rows, pages_read, lemma_listing_complete};
use crate::db::model::{rows_view, MangaRow, MangaRowView};
use crate::fetch::FetchError;
use crate::text::{concat, text_view};
use crate::time::{formatted_reading, TimeView, ZonedTime};
use crate::types::{Manga, MangaView};
use vstd::prelude::*;

verus! {

/// What the comparison of a stored row with a fresh record found.
#[derive(Clone, Debug, PartialEq, Eq)]
pub enum DiffingResult {
    /// Nothing to report.
    NoChange,
    /// A new chapter is announced and not out yet; the row to store.
    Upcoming(MangaRow),
    /// The latest chapter is out; the row to store.
    Released(MangaRow),
}

/// A `DiffingResult` over the view of its row.
pub enum DiffingResultView {
    NoChange,
    Upcoming(MangaRowView),
    Released(MangaRowView),
}

impl View for DiffingResult {
    type V = DiffingResultView;

    open spec fn view(&self) -> DiffingResultView {
        match *self {
            DiffingResult::NoChange => DiffingResultView::NoChange,
            DiffingResult::Upcoming(row) => DiffingResultView::Upcoming(row@),
            DiffingResult::Released(row) => DiffingResultView::Released(row@),
        }
    }
}

/// The comparison of a stored row with the row `fresh` made of a fresh
/// record.
///
/// The chapter is reported as released when the fresh one is out and either
/// its title is new or the stored one was not out. It is reported as upcoming
/// when its title is new and it is not out. Everything else is no change: a
/// new title alone is no release.
pub open spec fn classify(stored: MangaRowView, fresh: MangaRowView) -> DiffingResultView {
    let new_title = stored.latest_chapter_title != fresh.latest_chapter_title;
    if (new_title || !stored.latest_chapter_released) && fresh.latest_chapter_released {
        DiffingResultView::Released(fresh)
    } else if new_title && !fresh.latest_chapter_released {
        DiffingResultView::Upcoming(fresh)
    } else {
        DiffingResultView::NoChange
    }
}

/// What `diff_update` gives for a stored row and a fresh record at `now`.
pub open spec fn spec_diff_update(data: MangaRowView, latest_update: MangaView, now: TimeView)
    -> DiffingResultView {
    classify(data, MangaRow::spec_from_manga(data.manga_id, data.source, latest_update, now))
}

/// Compares the stored row `data` with the record `latest_update` that its
/// source reported at `now`.
pub fn diff_update(data: MangaRow, latest_update: Manga, now: ZonedTime) -> (diff: DiffingResult)
    ensures
        diff@ == spec_diff_update(data@, latest_update@, now@),
{
    let fresh = MangaRow::from_manga(data.manga_id, data.source, latest_update, now);
    let new_title = !(data.latest_chapter_title == fresh.latest_chapter_title);
    if (new_title || !data.latest_chapter_released) && fresh.latest_chapter_released {
        DiffingResult::Released(fresh)
    } else if new_title && !fresh.latest_chapter_released {
        DiffingResult::Upcoming(fresh)
    } else {
        DiffingResult::NoChange
    }
}

/// Comparing twice gives the same: whatever two runs of `diff_update` return
/// for one stored row, one fresh record and one moment, they return the same.
pub proof fn lemma_diff_update_repeats(
    data: MangaRow,
    latest_update: Manga,
    now: ZonedTime,
    first: DiffingResult,
    second: DiffingResult,
)
    requires
        first@ == spec_diff_update(data@, latest_update@, now@),
        second@ == spec_diff_update(data@, latest_update@, now@),
    ensures
        first@ == second@,
{
}

/// Once the row of a reported change is stored, the same record at the same
/// moment is no change any more.
pub proof fn lemma_stored_change_settles(
    data: MangaRowView,
    latest_update: MangaView,
    now: TimeView,
)
    ensures
        match spec_diff_update(data, latest_update, now) {
            DiffingResultView::NoChange => true,
            DiffingResultView::Upcoming(row) | DiffingResultView::Released(row) => spec_diff_update(
                row,
                latest_update,
                now,
            ) == DiffingResultView::NoChange,
        },
{
}


/// The number of rows that a page of the listing holds.
pub const PAGE_SIZE: i64 = 10;

/// The number of requests that one source is sent in a second.
pub const REQUESTS_PER_SECOND: u32 = 2;

/// The longest time, in milliseconds, that a request waits on top of its
/// turn, so that requests to one source do not go out together.
pub const JITTER_MILLIS: u64 = 1000;

/// The time, in milliseconds, between two messages to the webhook.
pub const PACING_MILLIS: u64 = 500;

/// The pattern by which the release date of an upcoming chapter is written.
pub const RELEASE_DATE_FORMAT: &'static str = "%d-%m-%Y %H:%M:%S";

/// What the fetch of one stored row gave.
#[derive(Debug)]
pub struct Outcome {
    pub row: MangaRow,
    pub fetched: Result<Manga, FetchError>,
}

/// The results of `diffs` as their views.
pub open spec fn diffs_view(diffs: Seq<DiffingResult>) -> Seq<DiffingResultView> {
    Seq::new(diffs.len(), |i: int| diffs[i]@)
}

/// The comparison of every row whose fetch gave a record, in the order of
/// the outcomes. A row whose fetch failed is left out: its failure touches no
/// other row.
pub open spec fn spec_reconcile(outcomes: Seq<Outcome>, now: TimeView) -> Seq<DiffingResultView>
    decreases outcomes.len(),
{
    if outcomes.len() == 0 {
        Seq::empty()
    } else {
        let before = spec_reconcile(outcomes.drop_last(), now);
        match outcomes.last().fetched {
            Ok(manga) => before.push(spec_diff_update(outcomes.last().row@, manga@, now)),
            Err(_) => before,
        }
    }
}

/// The rows of the results that report a change, in their order.
pub open spec fn changed_rows(diffs: Seq<DiffingResultView>) -> Seq<MangaRowView>
    decreases diffs.len(),
{
    if diffs.len() == 0 {
        Seq::empty()
    } else {
        let before = changed_rows(diffs.drop_last());
        match diffs.last() {
            DiffingResultView::NoChange => before,
            DiffingResultView::Upcoming(row) => before.push(row),
            DiffingResultView::Released(row) => before.push(row),
        }
    }
}

/// The comparison of every row whose fetch gave a record.
pub fn reconcile(outcomes: &Vec<Outcome>, now: ZonedTime) -> (diffs: Vec<DiffingResult>)
    ensures
        diffs_view(diffs@) == spec_reconcile(outcomes@, now@),
{
    let mut diffs: Vec<DiffingResult> = Vec::new();
    let mut i: usize = 0;
    assert(outcomes@.subrange(0, 0) =~= Seq::<Outcome>::empty());
    assert(diffs_view(diffs@) =~= Seq::<DiffingResultView>::empty());
    while i < outcomes.len()
        invariant
            i <= outcomes.len(),
            diffs_view(diffs@) == spec_reconcile(outcomes@.subrange(0, i as int), now@),
        decreases outcomes.len() - i,
    {
        let ghost before = diffs_view(diffs@);
        let ghost upto = outcomes@.subrange(0, i + 1);
        assert(upto.drop_last() =~= outcomes@.subrange(0, i as int));
        assert(upto.last() == outcomes@[i as int]);
        match &outcomes[i].fetched {
            Ok(manga) => {
                let diff = diff_update(outcomes[i].row.duplicate(), manga.duplicate(), now);
                diffs.push(diff);
                assert(diffs_view(diffs@) =~= before.push(diff@));
            },
            Err(_) => {},
        }
        i = i + 1;
    }
    assert(outcomes@.subrange(0, i as int) =~= outcomes@);
    diffs
}

/// The rows of the results that report a change: the rows to store.
pub fn rows_to_update(diffs: &Vec<DiffingResult>) -> (rows: Vec<MangaRow>)
    ensures
        rows_view(rows@) == changed_rows(diffs_view(diffs@)),
{
    let mut rows: Vec<MangaRow> = Vec::new();
    let mut i: usize = 0;
    assert(diffs_view(diffs@.subrange(0, 0)) =~= Seq::<DiffingResultView>::empty());
    assert(rows_view(rows@) =~= Seq::<MangaRowView>::empty());
    while i < diffs.len()
        invariant
            i <= diffs.len(),
            rows_view(rows@) == changed_rows(diffs_view(diffs@.subrange(0, i as int))),
        decreases diffs.len() - i,
    {
        let ghost before = rows_view(rows@);
        let ghost upto = diffs_view(diffs@.subrange(0, i + 1));
        assert(upto.drop_last() =~= diffs_view(diffs@.subrange(0, i as int)));
        assert(upto.last() == diffs@[i as int]@);
        match &diffs[i] {
            DiffingResult::NoChange => {},
            DiffingResult::Upcoming(row) => {
                let copy = row.duplicate();
                rows.push(copy);
                assert(rows_view(rows@) =~= before.push(copy@));
            },
            DiffingResult::Released(row) => {
                let copy = row.duplicate();
                rows.push(copy);
                assert(rows_view(rows@) =~= before.push(copy@));
            },
        }
        i = i + 1;
    }
    assert(diffs@.subrange(0, i as int) =~= diffs@);
    rows
}

/// One line of a message: a name and a value.
#[derive(Clone, Debug, PartialEq, Eq)]
pub struct Field {
    pub name: String,
    pub value: String,
    pub inline: bool,
}

/// A message on a change, as the webhook takes it.
#[derive(Clone, Debug, PartialEq, Eq)]
pub struct Notification {
    /// The address that the title leads to.
    pub url: Option<String>,
    pub title: String,
    pub image: String,
    pub fields: Vec<Field>,
}

/// A `Field` with its texts as sequences of characters.
pub struct FieldView {
    pub name: Seq<char>,
    pub value: Seq<char>,
    pub inline: bool,
}

/// A `Notification` with its texts as sequences of characters.
pub struct NotificationView {
    pub url: Option<Seq<char>>,
    pub title: Seq<char>,
    pub image: Seq<char>,
    pub fields: Seq<FieldView>,
}

impl View for Field {
    type V = FieldView;

    open spec fn view(&self) -> FieldView {
        FieldView { name: self.name@, value: self.value@, inline: self.inline }
    }
}

impl View for Notification {
    type V = NotificationView;

    open spec fn view(&self) -> NotificationView {
        NotificationView {
            url: text_view(self.url),
            title: self.title@,
            image: self.image@,
            fields: Seq::new(self.fields@.len(), |i: int| self.fields@[i]@),
        }
    }
}

/// The messages of `messages` as their views.
pub open spec fn notifications_view(messages: Seq<Notification>) -> Seq<NotificationView> {
    Seq::new(messages.len(), |i: int| messages[i]@)
}

/// A line that stands on its own.
pub open spec fn line(name: Seq<char>, value: Seq<char>) -> FieldView {
    FieldView { name, value, inline: false }
}

/// The lines that every message carries: the series, its source and its
/// author.
pub open spec fn series_lines(row: MangaRowView) -> Seq<FieldView> {
    seq![
        line("series_name"@, row.title),
        line("source"@, row.source.spec_name()),
        line("author"@, row.author),
    ]
}

/// The message on a result, `release_text` being the release date of its
/// row as written, if it could be written.
///
/// No change is no message. An upcoming chapter is announced with its
/// release date, empty where it could not be written; a released chapter
/// with the link to it.
pub open spec fn spec_notification(diff: DiffingResultView, release_text: Option<Seq<char>>)
    -> Option<NotificationView> {
    match diff {
        DiffingResultView::NoChange => None,
        DiffingResultView::Upcoming(row) => Some(
            NotificationView {
                url: None,
                title: "[UPCOMING] "@ + row.latest_chapter_title,
                image: row.cover_url,
                fields: seq![
                    line(
                        "release_date"@,
                        match release_text {
                            Some(text) => text,
                            None => Seq::empty(),
                        },
                    ),
                ] + series_lines(row),
            },
        ),
        DiffingResultView::Released(row) => Some(
            NotificationView {
                url: Some(row.latest_chapter_url),
                title: "[RELEASED] "@ + row.latest_chapter_title,
                image: row.cover_url,
                fields: series_lines(row),
            },
        ),
    }
}

/// The release date of an upcoming chapter, written by the pattern of
/// messages.
pub open spec fn written_release(diff: DiffingResultView) -> Option<Seq<char>> {
    match diff {
        DiffingResultView::Upcoming(row) => formatted_reading(
            row.latest_chapter_release_date,
            RELEASE_DATE_FORMAT@,
        ),
        _ => None,
    }
}

/// The messages on the results that report a change, in their order.
pub open spec fn spec_broadcast(diffs: Seq<DiffingResultView>) -> Seq<NotificationView>
    decreases diffs.len(),
{
    if diffs.len() == 0 {
        Seq::empty()
    } else {
        let before = spec_broadcast(diffs.drop_last());
        match spec_notification(diffs.last(), written_release(diffs.last())) {
            Some(message) => before.push(message),
            None => before,
        }
    }
}

/// A line that stands on its own.
fn line_of(name: &str, value: String) -> (field: Field)
    ensures
        field@ == line(name@, value@),
{
    Field { name: name.to_owned(), value, inline: false }
}

/// Appends the lines that every message carries.
fn push_series_lines(fields: &mut Vec<Field>, row: &MangaRow)
    ensures
        Seq::new(final(fields)@.len(), |i: int| final(fields)@[i]@) == Seq::new(
            old(fields)@.len(),
            |i: int| old(fields)@[i]@,
        ) + series_lines(row@),
{
    let ghost before = Seq::new(fields@.len(), |i: int| fields@[i]@);
    fields.push(line_of("series_name", row.title.clone()));
    fields.push(line_of("source", row.source.to_string()));
    fields.push(line_of("author", row.author.clone()));
    assert(Seq::new(fields@.len(), |i: int| fields@[i]@) =~= before + series_lines(row@));
}

/// The message on a result, `release_text` being the release date of its
/// row as written, if it could be written.
pub fn notification(diff: &DiffingResult, release_text: Option<String>) -> (message: Option<
    Notification,
>)
    ensures
        (match message {
            Some(m) => Some(m@),
            None => None,
        }) == spec_notification(diff@, text_view(release_text)),
{
    match diff {
        DiffingResult::NoChange => None,
        DiffingResult::Upcoming(row) => {
            let written = match release_text {
                Some(text) => text,
                None => String::new(),
            };
            let mut fields: Vec<Field> = Vec::new();
            fields.push(line_of("release_date", written));
            let ghost first = Seq::new(fields@.len(), |i: int| fields@[i]@);
            assert(first =~= seq![line("release_date"@, written@)]);
            push_series_lines(&mut fields, row);
            Some(
                Notification {
                    url: None,
                    title: concat("[UPCOMING] ", row.latest_chapter_title.as_str()),
                    image: row.cover_url.clone(),
                    fields,
                },
            )
        },
        DiffingResult::Released(row) => {
            let mut fields: Vec<Field> = Vec::new();
            assert(Seq::new(fields@.len(), |i: int| fields@[i]@) =~= Seq::<FieldView>::empty());
            push_series_lines(&mut fields, row);
            assert(Seq::<FieldView>::empty() + series_lines(row@) =~= series_lines(row@));
            Some(
                Notification {
                    url: Some(row.latest_chapter_url.clone()),
                    title: concat("[RELEASED] ", row.latest_chapter_title.as_str()),
                    image: row.cover_url.clone(),
                    fields,
                },
            )
        },
    }
}

/// The messages on the results that report a change, in the order of the
/// results: what is sent to the webhook, one message after the other.
pub fn broadcast_diff(diffs: &Vec<DiffingResult>) -> (messages: Vec<Notification>)
    ensures
        notifications_view(messages@) == spec_broadcast(diffs_view(diffs@)),
{
    let mut messages: Vec<Notification> = Vec::new();
    let mut i: usize = 0;
    assert(diffs_view(diffs@.subrange(0, 0)) =~= Seq::<DiffingResultView>::empty());
    assert(notifications_view(messages@) =~= Seq::<NotificationView>::empty());
    while i < diffs.len()
        invariant
            i <= diffs.len(),
            notifications_view(messages@) == spec_broadcast(
                diffs_view(diffs@.subrange(0, i as int)),
            ),
        decreases diffs.len() - i,
    {
        let ghost before = notifications_view(messages@);
        let ghost upto = diffs_view(diffs@.subrange(0, i + 1));
        assert(upto.drop_last() =~= diffs_view(diffs@.subrange(0, i as int)));
        assert(upto.last() == diffs@[i as int]@);
        let release_text = match &diffs[i] {
            DiffingResult::Upcoming(row) => row.latest_chapter_release_date.format(
                RELEASE_DATE_FORMAT,
            ),
            _ => None,
        };
        match notification(&diffs[i], release_text) {
            Some(message) => {
                messages.push(message);
                assert(notifications_view(messages@) =~= before.push(message@));
            },
            None => {},
        }
        i = i + 1;
    }
    assert(diffs@.subrange(0, i as int) =~= diffs@);
    messages
}


/// Why a run of the job failed.
#[derive(Clone, Debug, PartialEq, Eq)]
pub enum JobError {
    /// The stored rows could not be listed; the words of the store.
    Listing(String),
    /// The changed rows could not be written; the words of the store.
    Update(String),
    /// A message could not be delivered; the words of the webhook.
    Broadcast(String),
    /// The listing has more pages than can be counted.
    TooManyPages,
    /// An event came that answers no command of the job.
    Misfit,
}

/// A `JobError` with its texts as sequences of characters.
pub enum JobErrorView {
    Listing(Seq<char>),
    Update(Seq<char>),
    Broadcast(Seq<char>),
    TooManyPages,
    Misfit,
}

impl View for JobError {
    type V = JobErrorView;

    open spec fn view(&self) -> JobErrorView {
        match *self {
            JobError::Listing(words) => JobErrorView::Listing(words@),
            JobError::Update(words) => JobErrorView::Update(words@),
            JobError::Broadcast(words) => JobErrorView::Broadcast(words@),
            JobError::TooManyPages => JobErrorView::TooManyPages,
            JobError::Misfit => JobErrorView::Misfit,
        }
    }
}

/// How far a run of the job has come.
#[derive(Debug)]
pub enum Job {
    /// The page numbered `page_counter` of the stored rows was asked for;
    /// `all_series` holds the rows of the pages before it.
    Listing { page_counter: i64, all_series: Vec<MangaRow> },
    /// The fetches of all rows were asked for.
    Reconciling,
    /// The changed rows were handed over to be written; `diffs` are the
    /// results to report once they are.
    Writing { diffs: Vec<DiffingResult> },
    /// The messages were handed over to be delivered.
    Broadcasting,
    /// The run is over.
    Finished,
}

/// What the outside world did on a command of the job.
#[derive(Debug)]
pub enum Event {
    /// The rows of the page asked for, or the words of the store on why it
    /// gave none.
    Page(Result<Vec<MangaRow>, String>),
    /// What the fetch of each row gave, and the time at which the fetches
    /// were over.
    Fetched { outcomes: Vec<Outcome>, now: ZonedTime },
    /// Whether the rows were written, all or none.
    Written(Result<(), String>),
    /// Whether the messages were delivered.
    Delivered(Result<(), String>),
}

/// What the job asks of the outside world.
#[derive(Debug)]
pub enum Command {
    /// List the stored rows of one page, without conditions.
    List { page_number: i64, page_size: i64 },
    /// Fetch the latest state of each row from its source, each source at
    /// its own pace.
    Fetch(Vec<MangaRow>),
    /// Write the rows in one batch that is stored whole or not at all.
    Write(Vec<MangaRow>),
    /// Deliver the messages one after the other, in this order.
    Notify(Vec<Notification>),
    /// Nothing more: the run ended well or failed.
    Stop(Result<(), JobError>),
}

/// A `Job` over the views of its parts.
pub enum JobView {
    Listing { page_counter: int, all_series: Seq<MangaRowView> },
    Reconciling,
    Writing { diffs: Seq<DiffingResultView> },
    Broadcasting,
    Finished,
}

/// A `Command` over the views of its parts.
pub enum CommandView {
    List { page_number: int, page_size: int },
    Fetch(Seq<MangaRowView>),
    Write(Seq<MangaRowView>),
    Notify(Seq<NotificationView>),
    Stop(Result<(), JobErrorView>),
}

impl View for Job {
    type V = JobView;

    open spec fn view(&self) -> JobView {
        match *self {
            Job::Listing { page_counter, all_series } => JobView::Listing {
                page_counter: page_counter as int,
                all_series: rows_view(all_series@),
            },
            Job::Reconciling => JobView::Reconciling,
            Job::Writing { diffs } => JobView::Writing { diffs: diffs_view(diffs@) },
            Job::Broadcasting => JobView::Broadcasting,
            Job::Finished => JobView::Finished,
        }
    }
}

impl View for Command {
    type V = CommandView;

    open spec fn view(&self) -> CommandView {
        match *self {
            Command::List { page_number, page_size } => CommandView::List {
                page_number: page_number as int,
                page_size: page_size as int,
            },
            Command::Fetch(rows) => CommandView::Fetch(rows_view(rows@)),
            Command::Write(rows) => CommandView::Write(rows_view(rows@)),
            Command::Notify(messages) => CommandView::Notify(notifications_view(messages@)),
            Command::Stop(Ok(())) => CommandView::Stop(Ok(())),
            Command::Stop(Err(error)) => CommandView::Stop(Err(error@)),
        }
    }
}

/// The end of a run with the error `error`.
pub open spec fn failed(error: JobErrorView) -> (JobView, CommandView) {
    (JobView::Finished, CommandView::Stop(Err(error)))
}

/// The beginning of a run: the first page of the stored rows is asked for.
pub open spec fn spec_start() -> (JobView, CommandView) {
    (
        JobView::Listing { page_counter: 1, all_series: Seq::empty() },
        CommandView::List { page_number: 1, page_size: PAGE_SIZE as int },
    )
}

/// What follows the event `event` where the run had come as far as `job`.
///
/// The pages of the stored rows are read in turn until one comes empty; a
/// page that cannot be read ends the run, and nothing is written. Then all
/// rows are fetched and compared. Where no row changed, the run ends with
/// nothing written and nothing sent. Else all changed rows are written in one
/// batch, and once they are, the results are reported; a batch that cannot be
/// written ends the run with nothing sent.
pub open spec fn spec_update_series(job: Job, event: Event) -> (JobView, CommandView) {
    match (job, event) {
        (Job::Listing { page_counter, all_series }, Event::Page(Ok(rows))) => if rows@.len() == 0 {
            (JobView::Reconciling, CommandView::Fetch(rows_view(all_series@)))
        } else if page_counter == i64::MAX {
            failed(JobErrorView::TooManyPages)
        } else {
            (
                JobView::Listing {
                    page_counter: page_counter + 1,
                    all_series: rows_view(all_series@) + rows_view(rows@),
                },
                CommandView::List { page_number: page_counter + 1, page_size: PAGE_SIZE as int },
            )
        },
        (Job::Listing { page_counter, all_series }, Event::Page(Err(words))) => failed(
            JobErrorView::Listing(words@),
        ),
        (Job::Reconciling, Event::Fetched { outcomes, now }) => {
            let diffs = spec_reconcile(outcomes@, now@);
            if changed_rows(diffs).len() == 0 {
                (JobView::Finished, CommandView::Stop(Ok(())))
            } else {
                (JobView::Writing { diffs }, CommandView::Write(changed_rows(diffs)))
            }
        },
        (Job::Writing { diffs }, Event::Written(Ok(()))) => (
            JobView::Broadcasting,
            CommandView::Notify(spec_broadcast(diffs_view(diffs@))),
        ),
        (Job::Writing { diffs }, Event::Written(Err(words))) => failed(
            JobErrorView::Update(words@),
        ),
        (Job::Broadcasting, Event::Delivered(Ok(()))) => (
            JobView::Finished,
            CommandView::Stop(Ok(())),
        ),
        (Job::Broadcasting, Event::Delivered(Err(words))) => failed(
            JobErrorView::Broadcast(words@),
        ),
        _ => failed(JobErrorView::Misfit),
    }
}

/// The beginning of a run.
pub fn start() -> (next: (Job, Command))
    ensures
        (next.0@, next.1@) == spec_start(),
{
    let all_series: Vec<MangaRow> = Vec::new();
    assert(rows_view(all_series@) =~= Seq::<MangaRowView>::empty());
    (
        Job::Listing { page_counter: 1, all_series },
        Command::List { page_number: 1, page_size: PAGE_SIZE },
    )
}

/// Appends copies of the rows `more` to `rows`.
fn append_rows(rows: &mut Vec<MangaRow>, more: &Vec<MangaRow>)
    ensures
        rows_view(final(rows)@) == rows_view(old(rows)@) + rows_view(more@),
{
    let ghost before = rows_view(rows@);
    let mut i: usize = 0;
    assert(rows_view(more@.subrange(0, 0)) =~= Seq::<MangaRowView>::empty());
    assert(before + Seq::<MangaRowView>::empty() =~= before);
    while i < more.len()
        invariant
            i <= more.len(),
            rows_view(rows@) == before + rows_view(more@.subrange(0, i as int)),
        decreases more.len() - i,
    {
        let ghost upto = rows_view(more@.subrange(0, i as int));
        let ghost sofar = rows_view(rows@);
        let copy = more[i].duplicate();
        rows.push(copy);
        i = i + 1;
        assert(rows_view(rows@) =~= sofar.push(copy@));
        assert(rows_view(more@.subrange(0, i as int)) =~= upto.push(more@[i - 1]@));
        assert(rows_view(rows@) =~= before + rows_view(more@.subrange(0, i as int)));
    }
    assert(more@.subrange(0, i as int) =~= more@);
}

/// What follows the event `event` where the run had come as far as `job`:
/// the new state of the run and the command to carry out next.
pub fn update_series(job: Job, event: Event) -> (next: (Job, Command))
    ensures
        (next.0@, next.1@) == spec_update_series(job, event),
{
    match (job, event) {
        (Job::Listing { page_counter, all_series }, Event::Page(Ok(rows))) => {
            if rows.len() == 0 {
                (Job::Reconciling, Command::Fetch(all_series))
            } else if page_counter == i64::MAX {
                (Job::Finished, Command::Stop(Err(JobError::TooManyPages)))
            } else {
                let mut all_series = all_series;
                append_rows(&mut all_series, &rows);
                (
                    Job::Listing { page_counter: page_counter + 1, all_series },
                    Command::List { page_number: page_counter + 1, page_size: PAGE_SIZE },
                )
            }
        },
        (Job::Listing { page_counter, all_series }, Event::Page(Err(words))) => (
            Job::Finished,
            Command::Stop(Err(JobError::Listing(words))),
        ),
        (Job::Reconciling, Event::Fetched { outcomes, now }) => {
            let diffs = reconcile(&outcomes, now);
            let rows = rows_to_update(&diffs);
            if rows.len() == 0 {
                (Job::Finished, Command::Stop(Ok(())))
            } else {
                (Job::Writing { diffs }, Command::Write(rows))
            }
        },
        (Job::Writing { diffs }, Event::Written(Ok(()))) => (
            Job::Broadcasting,
            Command::Notify(broadcast_diff(&diffs)),
        ),
        (Job::Writing { diffs }, Event::Written(Err(words))) => (
            Job::Finished,
            Command::Stop(Err(JobError::Update(words))),
        ),
        (Job::Broadcasting, Event::Delivered(Ok(()))) => (Job::Finished, Command::Stop(Ok(()))),
        (Job::Broadcasting, Event::Delivered(Err(words))) => (
            Job::Finished,
            Command::Stop(Err(JobError::Broadcast(words))),
        ),
        _ => (Job::Finished, Command::Stop(Err(JobError::Misfit))),
    }
}


/// The listing reads every stored row once. Where the store holds the rows
/// `store` and serves them page by page, and the job has read the pages
/// before the one it asked for, then on the rows of that page the job either
/// asks for the next page, having read one page more, or, the page being
/// empty, hands on exactly the rows of the store to be fetched.
pub proof fn lemma_listing_reads_every_row(store: Seq<MangaRowView>, job: Job, event: Event)
    requires
        job matches Job::Listing { page_counter, all_series } && 1 <= page_counter < i64::MAX
            && rows_view(all_series@) == pages_read(store, page_counter - 1, PAGE_SIZE as int),
        (job, event) matches (Job::Listing { page_counter, all_series }, Event::Page(Ok(rows)))
            && rows_view(rows@) == page_rows(store, page_counter as int, PAGE_SIZE as int),
    ensures
        match spec_update_series(job, event) {
            (JobView::Reconciling, CommandView::Fetch(rows)) => rows == store,
            (
                JobView::Listing { page_counter, all_series },
                CommandView::List { page_number, page_size },
            ) => job matches Job::Listing { page_counter: before, all_series: _ } && page_counter
                == before + 1 && page_number == page_counter && page_size == PAGE_SIZE
                && all_series == pages_read(store, before as int, PAGE_SIZE as int),
            _ => false,
        },
{
    match (job, event) {
        (Job::Listing { page_counter, all_series }, Event::Page(Ok(rows))) => {
            if rows@.len() == 0 {
                lemma_listing_complete(store, page_counter - 1, PAGE_SIZE as int);
            }
        },
        _ => {},
    }
}

/// The run begins as the law of the listing asks: with the first page, and
/// with no row read.
pub proof fn lemma_start_reads_nothing(store: Seq<MangaRowView>)
    ensures
        spec_start().0 == (JobView::Listing {
            page_counter: 1,
            all_series: pages_read(store, 0, PAGE_SIZE as int),
        }),
{
}

} // verus!
