//! The canonical data model: webtoon identities, metadata records, episode
//! records, search results, user data and progress reporting.
use vstd::prelude::*;

use crate::text;

verus! {

/// Which of the platform's two catalogs a webtoon belongs to. The numeric-id
/// space is shared only within one catalog.
#[derive(Debug, Clone, Copy, PartialEq, Eq, Structural)]
pub enum WtType {
    /// Platform-curated, scheduled.
    Original,
    /// Open, user-submitted, unscheduled.
    Canvas,
}

/// Error for an unrecognized catalog name.
#[derive(Debug)]
pub struct WtTypeParseError(pub String);

impl WtTypeParseError {
    pub fn message(&self) -> (r: &String)
        ensures
            r@ == self.0@,
    {
        &self.0
    }
}

impl WtType {
    /// The display label of the catalog.
    pub open spec fn label_spec(self) -> Seq<char> {
        match self {
            WtType::Original => "Originals"@,
            WtType::Canvas => "Canvas"@,
        }
    }

    pub fn label(&self) -> (r: &'static str)
        ensures
            r@ == self.label_spec(),
    {
        match self {
            WtType::Original => "Originals",
            WtType::Canvas => "Canvas",
        }
    }

    /// Whether a lowercased, trimmed catalog name reads as this catalog.
    pub open spec fn parse_spec(s: Seq<char>) -> Option<WtType> {
        let t = text::trim_spec(text::lower_spec(s));
        if t == "original"@ || t == "originals"@ {
            Some(WtType::Original)
        } else if t == "canvas"@ {
            Some(WtType::Canvas)
        } else {
            None
        }
    }

    /// Parse a catalog name, accepting any casing and surrounding blanks.
    pub fn parse_str(s: &str) -> (r: Result<WtType, WtTypeParseError>)
        ensures
            match r {
                Ok(t) => Self::parse_spec(s@) == Some(t),
                Err(e) => Self::parse_spec(s@) is None && e.0@ == "non existing field"@,
            },
    {
        let cs = text::chars_of_str(s);
        let lowered = text::lower_chars(&cs);
        let t = text::trim_chars(&lowered);
        let original = text::chars_of_str("original");
        let originals = text::chars_of_str("originals");
        let canvas = text::chars_of_str("canvas");
        if text::eq_chars(&t, &original) || text::eq_chars(&t, &originals) {
            Ok(WtType::Original)
        } else if text::eq_chars(&t, &canvas) {
            Ok(WtType::Canvas)
        } else {
            Err(WtTypeParseError("non existing field".to_owned()))
        }
    }
}

/// Primary key of a webtoon: `(wt_id, wt_type)` together are unique.
#[derive(Debug, Clone, Copy, PartialEq, Eq, Structural)]
pub struct WebtoonId {
    pub wt_id: usize,
    pub wt_type: WtType,
}

impl WebtoonId {
    pub fn new(wt_id: usize, wt_type: WtType) -> (r: Self)
        ensures
            r == (WebtoonId { wt_id, wt_type }),
    {
        Self { wt_id, wt_type }
    }
}

/// The languages the platform serves.
#[derive(Debug, Clone, Copy, PartialEq, Eq, Structural)]
pub enum Language {
    En,
    Zh,
    Th,
    Id,
    Es,
    Fr,
    De,
}

impl Default for Language {
    fn default() -> (r: Self)
        ensures
            r == Language::En,
    {
        Language::En
    }
}

/// A day of the week, as the release schedules name them.
#[derive(Debug, Clone, Copy, PartialEq, Eq, Structural)]
pub enum Weekday {
    Sunday,
    Monday,
    Tuesday,
    Wednesday,
    Thursday,
    Friday,
    Saturday,
}

impl Weekday {
    /// The fixed three-letter abbreviation of the day.
    pub open spec fn acronym_spec(self) -> Seq<char> {
        match self {
            Weekday::Sunday => "Sun"@,
            Weekday::Monday => "Mon"@,
            Weekday::Tuesday => "Tue"@,
            Weekday::Wednesday => "Wed"@,
            Weekday::Thursday => "Thu"@,
            Weekday::Friday => "Fri"@,
            Weekday::Saturday => "Sat"@,
        }
    }

    pub fn to_acronym(self) -> (r: &'static str)
        ensures
            r@ == self.acronym_spec(),
    {
        match self {
            Weekday::Sunday => "Sun",
            Weekday::Monday => "Mon",
            Weekday::Tuesday => "Tue",
            Weekday::Wednesday => "Wed",
            Weekday::Thursday => "Thu",
            Weekday::Friday => "Fri",
            Weekday::Saturday => "Sat",
        }
    }
}

/// A release schedule of an Original webtoon. A webtoon releasing on days of
/// the week can have one or several; otherwise it is daily or completed.
#[derive(Debug, Clone, PartialEq, Eq)]
pub enum Schedule {
    /// Released on a single day of the week.
    Weekday(Weekday),
    /// Released on several days of the week, in the order the label lists them.
    Weekdays(Vec<Weekday>),
    /// Released daily.
    Daily,
    /// The webtoon is completed.
    Completed,
}

/// The platform's closed list of genre labels, with a fallback that keeps
/// any unrecognized label verbatim.
#[derive(Debug, Clone, PartialEq, Eq)]
pub enum Genre {
    Comedy,
    Fantasy,
    Romance,
    SliceOfLife,
    SciFi,
    Drama,
    ShortStory,
    Action,
    Superhero,
    Heartwarming,
    Thriller,
    Horror,
    PostApocalyptic,
    Zombies,
    School,
    Supernatural,
    Animals,
    Mystery,
    Historical,
    Informative,
    Sports,
    Inspirational,
    AllAges,
    LGBTQ,
    RomanticFantasy,
    MartialArts,
    WesternPalace,
    EasternPalace,
    MatureRomance,
    TimeSlip,
    Local,
    CityOffice,
    Adaptation,
    Shonen,
    WebNovel,
    GraphicNovel,
    Other(String),
}

/// A lightweight projection used by search and recommendation flows. The
/// creator is optional because only the Canvas listings expose author text.
#[derive(Debug, Clone)]
pub struct WebtoonSearchInfo {
    pub id: WebtoonId,
    pub title: String,
    pub thumbnail: String,
    pub creator: Option<String>,
}

impl PartialEq for WebtoonSearchInfo {
    fn eq(&self, other: &Self) -> (r: bool) {
        self.id == other.id
    }
}

impl vstd::std_specs::cmp::PartialEqSpecImpl for WebtoonSearchInfo {
    open spec fn obeys_eq_spec() -> bool {
        true
    }

    open spec fn eq_spec(&self, other: &Self) -> bool {
        self.id == other.id
    }
}

/// List-page metadata of one episode. Identity is `(parent_wt_id, number)`;
/// only the thumbnail is ever rewritten, from a remote URL to a cache path.
#[derive(Debug, Clone)]
pub struct EpisodePreview {
    pub parent_wt_id: WebtoonId,
    pub number: usize,
    pub title: String,
    pub thumbnail: String,
    pub likes: usize,
    pub posted_at: String,
    pub ep_url: String,
}

impl PartialEq for EpisodePreview {
    fn eq(&self, other: &Self) -> (r: bool) {
        self.parent_wt_id == other.parent_wt_id && self.number == other.number
    }
}

impl vstd::std_specs::cmp::PartialEqSpecImpl for EpisodePreview {
    open spec fn obeys_eq_spec() -> bool {
        true
    }

    open spec fn eq_spec(&self, other: &Self) -> bool {
        self.parent_wt_id == other.parent_wt_id && self.number == other.number
    }
}

/// One episode's reader-page content: panels, author note and author identity.
/// Fetched on demand; never persisted to the metadata cache.
#[derive(Debug, Clone)]
pub struct EpisodeData {
    pub parent_wt_id: WebtoonId,
    pub number: usize,
    pub panels: Vec<String>,
    pub author_note: Option<String>,
    pub author_name: String,
    pub author_id: Option<String>,
    pub author_thumb: String,
}

/// The persisted metadata record of one webtoon, keyed by its id.
///
/// `episodes` is `None` until episodes have been fetched once; afterwards it
/// stays `Some` and operations only append entries. `refresh_eps_at` and
/// `expired_at` are epoch seconds; each refresh pushes them further into the
/// future.
#[derive(Debug, Clone)]
pub struct WebtoonInfo {
    pub id: WebtoonId,
    pub title: String,
    pub thumbnail: String,
    pub banner: Option<String>,
    pub creators: Vec<String>,
    pub creator_id: Option<String>,
    pub genres: Vec<Genre>,
    pub schedule: Option<Schedule>,
    pub views: String,
    pub subs: String,
    pub summary: String,
    pub episodes: Option<Vec<EpisodePreview>>,
    pub refresh_eps_at: u64,
    pub expired_at: u64,
}

/// One top-level comment on an episode.
#[derive(Debug, Clone)]
pub struct Post {
    pub wt_id: WebtoonId,
    pub ep_num: usize,
    pub id: String,
    pub content: String,
    pub is_spoiler: bool,
    pub upvotes: u32,
    pub downvotes: u32,
    pub posted_at: u64,
    pub poster_name: String,
}

/// A creator's profile with the webtoons it lists.
#[derive(Debug, Clone)]
pub struct CreatorInfo {
    pub profile_id: String,
    pub name: String,
    pub followers: Option<u32>,
    pub webtoons: Vec<WebtoonSearchInfo>,
}

/// The per-user projection of a subscribed webtoon.
#[derive(Debug, Clone)]
pub struct UserWebtoon {
    pub id: WebtoonId,
    pub title: String,
    pub thumbnail: String,
    pub creator: String,
    pub last_seen: Option<u64>,
    pub episode_seen: std::collections::HashMap<usize, bool>,
}

/// The user-subscription table, keyed by numeric webtoon id, and the user's
/// language.
#[derive(Debug)]
pub struct UserData {
    pub language: Language,
    pub webtoons: std::collections::HashMap<usize, UserWebtoon>,
}

impl UserData {
    pub fn new(language: Language, webtoons: std::collections::HashMap<usize, UserWebtoon>) -> (r:
        Self)
        ensures
            r.language == language,
            r.webtoons@ == webtoons@,
    {
        Self { webtoons, language }
    }
}

/// Where a long-running load stands, for a view that polls it.
#[derive(Debug, Clone, PartialEq, Eq)]
pub enum LoadingState {
    Loading,
    Completed,
    Error(String),
}

/// The recommendation list a homepage view holds.
#[derive(Debug, Clone)]
pub struct UserRecommendations {
    pub webtoons: Vec<WebtoonSearchInfo>,
    pub loading_state: LoadingState,
}

/// Severity of a user-facing notification.
#[derive(Debug, Clone, PartialEq, Eq, Structural)]
pub enum AlertLevel {
    Success,
    Info,
    Warning,
    Error,
}

impl AlertLevel {
    /// The lowercase name of the severity.
    pub open spec fn label_spec(self) -> Seq<char> {
        match self {
            AlertLevel::Success => "success"@,
            AlertLevel::Info => "info"@,
            AlertLevel::Warning => "warning"@,
            AlertLevel::Error => "error"@,
        }
    }

    pub fn label(&self) -> (r: &'static str)
        ensures
            r@ == self.label_spec(),
    {
        match self {
            AlertLevel::Success => "success",
            AlertLevel::Info => "info",
            AlertLevel::Warning => "warning",
            AlertLevel::Error => "error",
        }
    }
}

/// A dismissible notification with a display duration in milliseconds.
#[derive(Debug, Clone)]
pub struct Alert {
    pub id: usize,
    pub msg: String,
    pub level: AlertLevel,
    pub duration_ms: u64,
}

impl Alert {
    /// A fresh alert; without an explicit duration it shows for three seconds.
    pub fn new(msg: &str, level: AlertLevel, duration_ms: Option<u64>) -> (r: Self)
        ensures
            r.id == 0,
            r.msg@ == msg@,
            r.level == level,
            r.duration_ms == match duration_ms {
                Some(d) => d,
                None => 3000u64,
            },
    {
        Self {
            id: 0,
            msg: msg.to_owned(),
            level,
            duration_ms: match duration_ms {
                Some(d) => d,
                None => 3000,
            },
        }
    }
}

/// A tagged progress value handed to the progress sink while an operation
/// runs.
#[derive(Debug, Clone, PartialEq, Eq, Structural)]
pub enum DownloadState {
    WebtoonData(u8),
    EpisodeInfo(u8),
    CachingImages(u8),
    Idle,
    Completed,
}

impl DownloadState {
    /// The percentage a progress value carries; idle and completed carry none.
    pub open spec fn progress_spec(self) -> u8 {
        match self {
            DownloadState::WebtoonData(p) => p,
            DownloadState::EpisodeInfo(p) => p,
            DownloadState::CachingImages(p) => p,
            _ => 0u8,
        }
    }

    pub fn get_progress(&self) -> (r: u8)
        ensures
            r == self.progress_spec(),
    {
        match self {
            Self::WebtoonData(p) => *p,
            Self::CachingImages(p) => *p,
            Self::EpisodeInfo(p) => *p,
            _ => 0,
        }
    }

    /// The message a waiting screen shows for this state.
    pub open spec fn state_message_spec(self) -> Seq<char> {
        match self {
            DownloadState::WebtoonData(_) => "Fetching webtoon informations..."@,
            DownloadState::EpisodeInfo(_) => "Fecthing episodes informations..."@,
            DownloadState::CachingImages(
                _,
            ) => "Downloading images (thumbail|panels: may take a while)..."@,
            DownloadState::Idle => "Currently not doing anything"@,
            DownloadState::Completed => "Finished to download webtoon"@,
        }
    }

    pub fn get_state(&self) -> (r: String)
        ensures
            r@ == self.state_message_spec(),
    {
        match self {
            Self::WebtoonData(_) => "Fetching webtoon informations...".to_owned(),
            Self::EpisodeInfo(_) => "Fecthing episodes informations...".to_owned(),
            Self::CachingImages(_) => "Downloading images (thumbail|panels: may take a while)..."
                .to_owned(),
            Self::Idle => "Currently not doing anything".to_owned(),
            Self::Completed => "Finished to download webtoon".to_owned(),
        }
    }
}

/// Whether an episode scrape collects the entry that matches its lower bound
/// (a full scrape down to episode one) or leaves it out (an incremental sync).
#[derive(Debug, Clone, Copy, PartialEq, Eq, Structural)]
pub enum ScrapEdgeCase {
    Inclusive,
    Exclusive,
}

/// The library's error taxonomy. Every failing operation reports one of
/// these; the message names the field or URL involved.
#[derive(Debug, Clone, PartialEq, Eq)]
pub enum WtError {
    /// An expected HTML element or attribute was absent or malformed.
    Parse(String),
    /// A fetch failed in transport; carried out by the embedding layer.
    Network(String),
    /// The referenced webtoon, episode or creator does not exist upstream.
    NotFound(String),
    /// The persisted store held nothing usable for the key.
    CacheMiss,
    /// A future expiry timestamp would overflow the time representation.
    TimeOverflow,
}

impl WtError {
    /// The text an error surfaces to the user as.
    pub open spec fn message_spec(self) -> Seq<char> {
        match self {
            WtError::Parse(m) => m@,
            WtError::Network(m) => m@,
            WtError::NotFound(m) => m@,
            WtError::CacheMiss => "nothing usable in the cache"@,
            WtError::TimeOverflow => "are we near 2038?"@,
        }
    }

    pub fn message(&self) -> (r: String)
        ensures
            r@ == self.message_spec(),
    {
        match self {
            WtError::Parse(m) => m.clone(),
            WtError::Network(m) => m.clone(),
            WtError::NotFound(m) => m.clone(),
            WtError::CacheMiss => "nothing usable in the cache".to_owned(),
            WtError::TimeOverflow => "are we near 2038?".to_owned(),
        }
    }
}

} // verus!
