//! The sources, the canonical record of a series and the queries over stored rows.

use crate::time::{TimeView, Weekday, ZonedTime};
use vstd::prelude::*;

verus! {

/// The publishers whose series can be tracked.
#[derive(Clone, Copy, Debug, PartialEq, Eq, Hash, Structural)]
pub enum MangaSource {
    Yanmaga,
    ShounenJumpPlus,
    ComicEarthStar,
    KurageBunch,
    ComicGrowl,
    ComicDays,
    MagazinePocket,
    ComicPixiv,
    Urasunday,
    ComicWalker,
    TonariYoungJump,
    MangaUp,
    SundayWebry,
    ComicFuz,
    GanganOnline,
    GammaPlus,
    ChampionCross,
    GANMA,
    YoungAnimal,
    MechaComic,
    YoungChampion,
    IchijinPlus,
    ComicAction,
    ComicGardo,
}

impl MangaSource {
    /// The name under which the source is shown and stored.
    pub open spec fn spec_name(self) -> Seq<char> {
        match self {
            MangaSource::Yanmaga => "YanMaga"@,
            MangaSource::ShounenJumpPlus => "Shounen Jump Plus"@,
            MangaSource::ComicEarthStar => "Comic Earthstar"@,
            MangaSource::KurageBunch => "Kurage Bunch"@,
            MangaSource::ComicGrowl => "Comic Growl"@,
            MangaSource::ComicDays => "Comic Days"@,
            MangaSource::MagazinePocket => "Magazine Pocket"@,
            MangaSource::ComicPixiv => "Comic Pixiv"@,
            MangaSource::Urasunday => "Urasunday"@,
            MangaSource::ComicWalker => "Comic Walker"@,
            MangaSource::TonariYoungJump => "Tonari Young Jump"@,
            MangaSource::MangaUp => "Manga Up"@,
            MangaSource::SundayWebry => "Sunday Webry"@,
            MangaSource::ComicFuz => "Comic Fuz"@,
            MangaSource::GanganOnline => "Gangan Online"@,
            MangaSource::GammaPlus => "Gamma Plus"@,
            MangaSource::ChampionCross => "Champion Cross"@,
            MangaSource::GANMA => "GANMA"@,
            MangaSource::YoungAnimal => "Young Animal"@,
            MangaSource::MechaComic => "Mecha Comic"@,
            MangaSource::YoungChampion => "Young Champion"@,
            MangaSource::IchijinPlus => "Ichijin Plus"@,
            MangaSource::ComicAction => "Comic Action"@,
            MangaSource::ComicGardo => "Comic Gardo"@,
        }
    }

    /// The sources in the order of their declaration.
    pub open spec fn spec_all() -> Seq<MangaSource> {
        seq![
            MangaSource::Yanmaga,
            MangaSource::ShounenJumpPlus,
            MangaSource::ComicEarthStar,
            MangaSource::KurageBunch,
            MangaSource::ComicGrowl,
            MangaSource::ComicDays,
            MangaSource::MagazinePocket,
            MangaSource::ComicPixiv,
            MangaSource::Urasunday,
            MangaSource::ComicWalker,
            MangaSource::TonariYoungJump,
            MangaSource::MangaUp,
            MangaSource::SundayWebry,
            MangaSource::ComicFuz,
            MangaSource::GanganOnline,
            MangaSource::GammaPlus,
            MangaSource::ChampionCross,
            MangaSource::GANMA,
            MangaSource::YoungAnimal,
            MangaSource::MechaComic,
            MangaSource::YoungChampion,
            MangaSource::IchijinPlus,
            MangaSource::ComicAction,
            MangaSource::ComicGardo,
        ]
    }

    /// The name under which the source is shown and stored.
    pub fn name(&self) -> (name: &'static str)
        ensures
            name@ == self.spec_name(),
    {
        match self {
            MangaSource::Yanmaga => "YanMaga",
            MangaSource::ShounenJumpPlus => "Shounen Jump Plus",
            MangaSource::ComicEarthStar => "Comic Earthstar",
            MangaSource::KurageBunch => "Kurage Bunch",
            MangaSource::ComicGrowl => "Comic Growl",
            MangaSource::ComicDays => "Comic Days",
            MangaSource::MagazinePocket => "Magazine Pocket",
            MangaSource::ComicPixiv => "Comic Pixiv",
            MangaSource::Urasunday => "Urasunday",
            MangaSource::ComicWalker => "Comic Walker",
            MangaSource::TonariYoungJump => "Tonari Young Jump",
            MangaSource::MangaUp => "Manga Up",
            MangaSource::SundayWebry => "Sunday Webry",
            MangaSource::ComicFuz => "Comic Fuz",
            MangaSource::GanganOnline => "Gangan Online",
            MangaSource::GammaPlus => "Gamma Plus",
            MangaSource::ChampionCross => "Champion Cross",
            MangaSource::GANMA => "GANMA",
            MangaSource::YoungAnimal => "Young Animal",
            MangaSource::MechaComic => "Mecha Comic",
            MangaSource::YoungChampion => "Young Champion",
            MangaSource::IchijinPlus => "Ichijin Plus",
            MangaSource::ComicAction => "Comic Action",
            MangaSource::ComicGardo => "Comic Gardo",
        }
    }

    /// The name as an owned string.
    pub fn to_string(&self) -> (name: String)
        ensures
            name@ == self.spec_name(),
    {
        self.name().to_owned()
    }

    /// The sources in the order of their declaration.
    pub fn all() -> (sources: Vec<MangaSource>)
        ensures
            sources@ == MangaSource::spec_all(),
    {
        let sources = vec![
            MangaSource::Yanmaga,
            MangaSource::ShounenJumpPlus,
            MangaSource::ComicEarthStar,
            MangaSource::KurageBunch,
            MangaSource::ComicGrowl,
            MangaSource::ComicDays,
            MangaSource::MagazinePocket,
            MangaSource::ComicPixiv,
            MangaSource::Urasunday,
            MangaSource::ComicWalker,
            MangaSource::TonariYoungJump,
            MangaSource::MangaUp,
            MangaSource::SundayWebry,
            MangaSource::ComicFuz,
            MangaSource::GanganOnline,
            MangaSource::GammaPlus,
            MangaSource::ChampionCross,
            MangaSource::GANMA,
            MangaSource::YoungAnimal,
            MangaSource::MechaComic,
            MangaSource::YoungChampion,
            MangaSource::IchijinPlus,
            MangaSource::ComicAction,
            MangaSource::ComicGardo,
        ];
        assert(sources@ =~= MangaSource::spec_all());
        sources
    }

    /// The source that goes by `name`, if there is one.
    pub fn parse(name: &str) -> (source: Option<MangaSource>)
        ensures
            forall|s: MangaSource| source == Some(s) <==> s.spec_name() == name@,
    {
        let sources = MangaSource::all();
        let wanted = name.to_owned();
        let mut i: usize = 0;
        while i < sources.len()
            invariant
                i <= sources.len(),
                sources@ == MangaSource::spec_all(),
                wanted@ == name@,
                forall|j: int| 0 <= j < i ==> sources@[j].spec_name() != name@,
            decreases sources.len() - i,
        {
            let candidate = sources[i].to_string();
            if candidate == wanted {
                let found = sources[i];
                assert forall|s: MangaSource| Some(found) == Some(s) <==> s.spec_name()
                    == name@ by {
                    if s != found {
                        found.lemma_names_differ(s);
                    }
                }
                return Some(found);
            }
            i = i + 1;
        }
        assert forall|s: MangaSource| s.spec_name() != name@ by {
            MangaSource::lemma_all_complete(s);
        }
        None
    }

    /// No two sources go by one name, so that a source is found again by
    /// its name.
    pub proof fn lemma_names_differ(self, other: MangaSource)
        requires
            self != other,
        ensures
            self.spec_name() != other.spec_name(),
    {
        reveal_strlit("YanMaga");
        reveal_strlit("Shounen Jump Plus");
        reveal_strlit("Comic Earthstar");
        reveal_strlit("Kurage Bunch");
        reveal_strlit("Comic Growl");
        reveal_strlit("Comic Days");
        reveal_strlit("Magazine Pocket");
        reveal_strlit("Comic Pixiv");
        reveal_strlit("Urasunday");
        reveal_strlit("Comic Walker");
        reveal_strlit("Tonari Young Jump");
        reveal_strlit("Manga Up");
        reveal_strlit("Sunday Webry");
        reveal_strlit("Comic Fuz");
        reveal_strlit("Gangan Online");
        reveal_strlit("Gamma Plus");
        reveal_strlit("Champion Cross");
        reveal_strlit("GANMA");
        reveal_strlit("Young Animal");
        reveal_strlit("Mecha Comic");
        reveal_strlit("Young Champion");
        reveal_strlit("Ichijin Plus");
        reveal_strlit("Comic Action");
        reveal_strlit("Comic Gardo");
        let a = self.spec_name();
        let b = other.spec_name();
        if a.len() == b.len() {
            assert(a[0] != b[0] || a[1] != b[1] || a[2] != b[2] || a[3] != b[3] || a[4] != b[4]
                || a[6] != b[6] || a[7] != b[7] || a[8] != b[8]);
        }
    }

    /// Every source stands in the list of all sources.
    pub proof fn lemma_all_complete(s: MangaSource)
        ensures
            exists|j: int|
                0 <= j < MangaSource::spec_all().len() && MangaSource::spec_all()[j] == s,
    {
        let all = MangaSource::spec_all();
        match s {
            MangaSource::Yanmaga => assert(all[0] == s),
            MangaSource::ShounenJumpPlus => assert(all[1] == s),
            MangaSource::ComicEarthStar => assert(all[2] == s),
            MangaSource::KurageBunch => assert(all[3] == s),
            MangaSource::ComicGrowl => assert(all[4] == s),
            MangaSource::ComicDays => assert(all[5] == s),
            MangaSource::MagazinePocket => assert(all[6] == s),
            MangaSource::ComicPixiv => assert(all[7] == s),
            MangaSource::Urasunday => assert(all[8] == s),
            MangaSource::ComicWalker => assert(all[9] == s),
            MangaSource::TonariYoungJump => assert(all[10] == s),
            MangaSource::MangaUp => assert(all[11] == s),
            MangaSource::SundayWebry => assert(all[12] == s),
            MangaSource::ComicFuz => assert(all[13] == s),
            MangaSource::GanganOnline => assert(all[14] == s),
            MangaSource::GammaPlus => assert(all[15] == s),
            MangaSource::ChampionCross => assert(all[16] == s),
            MangaSource::GANMA => assert(all[17] == s),
            MangaSource::YoungAnimal => assert(all[18] == s),
            MangaSource::MechaComic => assert(all[19] == s),
            MangaSource::YoungChampion => assert(all[20] == s),
            MangaSource::IchijinPlus => assert(all[21] == s),
            MangaSource::ComicAction => assert(all[22] == s),
            MangaSource::ComicGardo => assert(all[23] == s),
        }
    }
}

/// The latest state of a series as a source reports it.
#[derive(Clone, Debug, PartialEq, Eq)]
pub struct Manga {
    pub title: String,
    pub cover_url: String,
    pub author: String,
    pub latest_chapter_title: String,
    pub latest_chapter_url: String,
    pub latest_chapter_release_date: ZonedTime,
    pub latest_chapter_publish_day: Weekday,
}

/// A `Manga` with its texts as sequences of characters.
pub struct MangaView {
    pub title: Seq<char>,
    pub cover_url: Seq<char>,
    pub author: Seq<char>,
    pub latest_chapter_title: Seq<char>,
    pub latest_chapter_url: Seq<char>,
    pub latest_chapter_release_date: TimeView,
    pub latest_chapter_publish_day: Weekday,
}

impl MangaView {
    /// The publish day is the weekday of the release date in Japan.
    pub open spec fn consistent(self) -> bool {
        self.latest_chapter_publish_day == self.latest_chapter_release_date.weekday()
    }
}

impl View for Manga {
    type V = MangaView;

    open spec fn view(&self) -> MangaView {
        MangaView {
            title: self.title@,
            cover_url: self.cover_url@,
            author: self.author@,
            latest_chapter_title: self.latest_chapter_title@,
            latest_chapter_url: self.latest_chapter_url@,
            latest_chapter_release_date: self.latest_chapter_release_date@,
            latest_chapter_publish_day: self.latest_chapter_publish_day,
        }
    }
}

impl Manga {
    /// A copy of the record.
    pub fn duplicate(&self) -> (copy: Manga)
        ensures
            copy@ == self@,
    {
        Manga {
            title: self.title.clone(),
            cover_url: self.cover_url.clone(),
            author: self.author.clone(),
            latest_chapter_title: self.latest_chapter_title.clone(),
            latest_chapter_url: self.latest_chapter_url.clone(),
            latest_chapter_release_date: self.latest_chapter_release_date,
            latest_chapter_publish_day: self.latest_chapter_publish_day,
        }
    }

    /// A record released at `released`, with the publish day that belongs to it.
    pub fn released_at(
        title: String,
        cover_url: String,
        author: String,
        latest_chapter_title: String,
        latest_chapter_url: String,
        released: ZonedTime,
    ) -> (manga: Manga)
        ensures
            manga@ == (MangaView {
                title: title@,
                cover_url: cover_url@,
                author: author@,
                latest_chapter_title: latest_chapter_title@,
                latest_chapter_url: latest_chapter_url@,
                latest_chapter_release_date: released@,
                latest_chapter_publish_day: released@.weekday(),
            }),
            manga@.consistent(),
    {
        Manga {
            title,
            cover_url,
            author,
            latest_chapter_title,
            latest_chapter_url,
            latest_chapter_release_date: released,
            latest_chapter_publish_day: released.weekday(),
        }
    }
}

/// The conditions a listing of stored rows can be narrowed by: the source,
/// a text that the title, the author or the title of the latest chapter
/// holds, and the publish day. A condition that is not set admits every row.
#[derive(Clone, Debug)]
pub struct MangaQuery {
    pub source: Option<MangaSource>,
    pub title: Option<String>,
    pub author: Option<String>,
    pub chapter_title: Option<String>,
    pub day: Option<Weekday>,
}

impl Default for MangaQuery {
    fn default() -> (query: MangaQuery)
        ensures
            query.source is None,
            query.title is None,
            query.author is None,
            query.chapter_title is None,
            query.day is None,
    {
        MangaQuery { source: None, title: None, author: None, chapter_title: None, day: None }
    }
}

/// One page of a listing, with the number of rows that the listing has and
/// the number of pages that they fill.
#[derive(Clone, Debug)]
pub struct Paginated<T> {
    pub data: T,
    pub total_count: i64,
    pub total_page: i64,
}

} // verus!
