//! The webtoon metadata scraper: parsing a webtoon's info page into a
//! [`WebtoonInfo`] record, computing its two expiry clocks, and applying
//! refreshes to a cached record.
use vstd::prelude::*;

use crate::html;
use crate::labels;
use crate::text;
use crate::types::{EpisodePreview, Genre, Schedule, WebtoonId, WebtoonInfo, WtError, WtType};

verus! {

/// Seconds until the episode list of a fresh record goes stale: one day.
pub const REFRESH_EPS_AFTER: u64 = 86400;

/// Seconds until a fresh record's metadata goes stale: ten days.
pub const EXPIRE_AFTER: u64 = 864000;

pub open spec fn title_selector() -> Seq<char> {
    ".detail_header .subj"@
}

pub open spec fn thumb_selector() -> Seq<char> {
    ".detail_header > .thmb > img"@
}

pub open spec fn banner_selector() -> Seq<char> {
    "#content > .detail_bg"@
}

pub open spec fn creators_selector() -> Seq<char> {
    ".detail_header .author_area"@
}

pub open spec fn creator_id_selector() -> Seq<char> {
    ".detail_header .author_area > a"@
}

pub open spec fn genre_selector() -> Seq<char> {
    ".detail_header .genre"@
}

pub open spec fn schedule_selector() -> Seq<char> {
    ".detail_body .day_info"@
}

pub open spec fn grade_selector() -> Seq<char> {
    ".detail_body .grade_area .cnt"@
}

pub open spec fn summary_selector() -> Seq<char> {
    ".detail_body .summary"@
}

/// The banner image URL inside the banner element's inline style.
pub open spec fn banner_value(style: Seq<char>) -> Seq<char> {
    text::strip_suffix_all(text::strip_prefix_all(style, "background:url('"@), "') repeat-x"@)
}

/// One creator name out of the multi-creator text: trimmed, with the
/// platform's "author info" caption removed.
pub open spec fn creator_name(a: Seq<char>) -> Seq<char> {
    text::trim_spec(text::remove_all_spec(text::trim_spec(a), "author info"@))
}

/// The creator list of an info page: the single linked creator when the
/// author area holds a link, else the author text split on ", ". `None` when
/// the author area is missing altogether.
pub open spec fn creators_of(h: Seq<char>) -> Option<Seq<Seq<char>>> {
    let frags = html::doc_fragments(h, creators_selector());
    if frags.len() == 0 {
        None
    } else {
        match html::frag_first_text(frags[0], "a"@) {
            Some(a) => Some(seq![text::trim_spec(a)]),
            None => match html::frag_first_text(frags[0], ".author_area"@) {
                None => None,
                Some(t) => Some(
                    text::split_spec(text::trim_spec(t), ", "@).map_values(
                        |a: Seq<char>| creator_name(a),
                    ),
                ),
            },
        }
    }
}

/// The schedule label of an info page, with surrounding blanks and the "UP"
/// badge text removed.
pub open spec fn schedule_text(h: Seq<char>) -> Option<Seq<char>> {
    match html::doc_first_text(h, schedule_selector()) {
        None => None,
        Some(t) => Some(text::strip_prefix_all(text::trim_spec(t), "UP"@)),
    }
}

/// The first parse failure of an info page for a webtoon of the given
/// catalog, in extraction order.
pub open spec fn meta_error(h: Seq<char>, kind: WtType) -> Option<Seq<char>> {
    if html::doc_first_text(h, title_selector()) is None {
        Some("No title"@)
    } else if html::doc_first_attr(h, thumb_selector(), "src"@) is None {
        Some("No thumb"@)
    } else if html::doc_first_attr(h, thumb_selector(), "src"@) == Some(None::<Seq<char>>) {
        Some("No src"@)
    } else if kind is Original && html::doc_first_attr(h, banner_selector(), "style"@) is None {
        Some("No banner"@)
    } else if kind is Original && html::doc_first_attr(h, banner_selector(), "style"@) == Some(
        None::<Seq<char>>,
    ) {
        Some("No style"@)
    } else if creators_of(h) is None {
        Some("No creators"@)
    } else if creators_of(h)->0.len() == 1 && html::doc_first_attr(
        h,
        creator_id_selector(),
        "href"@,
    ) is None {
        Some("No creator id"@)
    } else if creators_of(h)->0.len() == 1 && html::doc_first_attr(
        h,
        creator_id_selector(),
        "href"@,
    ) == Some(None::<Seq<char>>) {
        Some("No href aid"@)
    } else if kind is Original && schedule_text(h) is None {
        Some("No schedule"@)
    } else if kind is Original && labels::schedule_error(schedule_text(h)->0) is Some {
        labels::schedule_error(schedule_text(h)->0)
    } else if html::doc_texts(h, grade_selector()).len() < 2 {
        Some("wrong format for webtoon views and subs"@)
    } else if html::doc_first_text(h, summary_selector()) is None {
        Some("No summary"@)
    } else {
        None
    }
}

/// Whether `info` is exactly the record a clean info page describes, stamped
/// at `now`.
pub open spec fn meta_matches(h: Seq<char>, id: WebtoonId, now: u64, info: WebtoonInfo) -> bool {
    let grades = html::doc_texts(h, grade_selector());
    let genres = html::doc_texts(h, genre_selector());
    &&& info.id == id
    &&& html::doc_first_text(h, title_selector()) matches Some(t) && info.title@
        == text::trim_spec(t)
    &&& html::doc_first_attr(h, thumb_selector(), "src"@) == Some(Some(info.thumbnail@))
    &&& match id.wt_type {
        WtType::Canvas => info.banner is None,
        WtType::Original => html::doc_first_attr(h, banner_selector(), "style"@) matches Some(
            Some(st),
        ) && info.banner matches Some(b) && b@ == banner_value(st),
    }
    &&& creators_of(h) matches Some(cs) && info.creators@.len() == cs.len() && (forall|k: int|
        0 <= k < cs.len() ==> (#[trigger] info.creators@[k])@ == cs[k])
    &&& if creators_of(h)->0.len() == 1 {
        html::doc_first_attr(h, creator_id_selector(), "href"@) matches Some(Some(href))
            && info.creator_id matches Some(cid) && cid@ == text::split_spec(
            href,
            seq!['/'],
        ).last()
    } else {
        info.creator_id is None
    }
    &&& match id.wt_type {
        WtType::Canvas => info.schedule is None,
        WtType::Original => info.schedule matches Some(sched) && labels::schedule_matches(
            schedule_text(h)->0,
            sched,
        ),
    }
    &&& info.genres@.len() == genres.len() && (forall|k: int|
        0 <= k < genres.len() ==> labels::genre_matches(genres[k], #[trigger] info.genres@[k]))
    &&& grades.len() >= 2 && info.views@ == grades[0] && info.subs@ == grades[1]
    &&& html::doc_first_text(h, summary_selector()) matches Some(sm) && info.summary@
        == text::trim_spec(sm)
    &&& info.episodes is None
    &&& info.refresh_eps_at == now + REFRESH_EPS_AFTER
    &&& info.expired_at == now + EXPIRE_AFTER
}

/// Parse a webtoon's info page into a fresh metadata record, episodes not
/// included. Only Original webtoons carry a banner and a schedule; for a
/// Canvas webtoon those stay empty. View and subscriber counts are kept as
/// the page's display text. The expiry clocks are set one day and ten days
/// past `now`.
pub fn parse_webtoon_page(h: &str, id: WebtoonId, now: u64) -> (r: Result<WebtoonInfo, WtError>)
    ensures
        match r {
            Ok(info) => meta_error(h@, id.wt_type) is None && now + EXPIRE_AFTER <= u64::MAX
                && meta_matches(h@, id, now, info),
            Err(er) => match er {
                WtError::Parse(m) => meta_error(h@, id.wt_type) == Some(m@),
                WtError::TimeOverflow => meta_error(h@, id.wt_type) is None && now + EXPIRE_AFTER
                    > u64::MAX,
                _ => false,
            },
        },
{
    let title = match html::select_first_text(h, ".detail_header .subj") {
        Some(t) => text::string_of_chars(&text::trim_chars(&text::chars_of_str(t.as_str()))),
        None => {
            return Err(WtError::Parse("No title".to_owned()));
        },
    };
    let thumbnail = match html::select_first_attr(h, ".detail_header > .thmb > img", "src") {
        Some(Some(t)) => t,
        Some(None) => {
            return Err(WtError::Parse("No src".to_owned()));
        },
        None => {
            return Err(WtError::Parse("No thumb".to_owned()));
        },
    };
    let is_original = match id.wt_type {
        WtType::Original => true,
        WtType::Canvas => false,
    };
    let banner: Option<String> = if is_original {
        match html::select_first_attr(h, "#content > .detail_bg", "style") {
            Some(Some(st)) => {
                let open = text::chars_of_str("background:url('");
                let close = text::chars_of_str("') repeat-x");
                proof {
                    reveal_strlit("background:url('");
                    reveal_strlit("') repeat-x");
                }
                let inner = text::strip_suffix_all_exec(
                    &text::strip_prefix_all_exec(&text::chars_of_str(st.as_str()), &open),
                    &close,
                );
                Some(text::string_of_chars(&inner))
            },
            Some(None) => {
                return Err(WtError::Parse("No style".to_owned()));
            },
            None => {
                return Err(WtError::Parse("No banner".to_owned()));
            },
        }
    } else {
        None
    };
    let creators = match parse_creators(h) {
        Some(cs) => cs,
        None => {
            return Err(WtError::Parse("No creators".to_owned()));
        },
    };
    let creator_id: Option<String> = if creators.len() == 1 {
        match html::select_first_attr(h, ".detail_header .author_area > a", "href") {
            Some(Some(href)) => {
                let cs = text::chars_of_str(href.as_str());
                let slash = text::chars_of_str("/");
                proof {
                    reveal_strlit("/");
                    assert(slash@ =~= seq!['/']);
                }
                let segs = text::split_exec(&cs, &slash);
                proof {
                    text::lemma_split_len_pos(cs@, slash@);
                }
                Some(text::string_of_chars(&segs[segs.len() - 1]))
            },
            Some(None) => {
                return Err(WtError::Parse("No href aid".to_owned()));
            },
            None => {
                return Err(WtError::Parse("No creator id".to_owned()));
            },
        }
    } else {
        None
    };
    let schedule: Option<Schedule> = if is_original {
        let raw = match html::select_first_text(h, ".detail_body .day_info") {
            Some(t) => t,
            None => {
                return Err(WtError::Parse("No schedule".to_owned()));
            },
        };
        let up = text::chars_of_str("UP");
        proof {
            reveal_strlit("UP");
        }
        let label = text::string_of_chars(
            &text::strip_prefix_all_exec(&text::trim_chars(&text::chars_of_str(raw.as_str())), &up),
        );
        match labels::parse_schedule(label.as_str()) {
            Ok(sched) => Some(sched),
            Err(e) => {
                return Err(WtError::Parse(e));
            },
        }
    } else {
        None
    };
    let raw_genres = html::select_texts(h, ".detail_header .genre");
    let ghost ggenres = html::doc_texts(h@, genre_selector());
    let mut genres: Vec<Genre> = Vec::new();
    let mut i: usize = 0;
    while i < raw_genres.len()
        invariant
            0 <= i <= raw_genres@.len(),
            ggenres == html::doc_texts(h@, genre_selector()),
            raw_genres@.len() == ggenres.len(),
            forall|k: int| 0 <= k < ggenres.len() ==> raw_genres@[k]@ == ggenres[k],
            genres@.len() == i,
            forall|k: int|
                0 <= k < i ==> labels::genre_matches(ggenres[k], #[trigger] genres@[k]),
        decreases raw_genres@.len() - i,
    {
        genres.push(labels::parse_genre(raw_genres[i].clone()));
        i = i + 1;
    }
    let grades = html::select_texts(h, ".detail_body .grade_area .cnt");
    if grades.len() < 2 {
        return Err(WtError::Parse("wrong format for webtoon views and subs".to_owned()));
    }
    let views = grades[0].clone();
    let subs = grades[1].clone();
    let summary = match html::select_first_text(h, ".detail_body .summary") {
        Some(t) => text::string_of_chars(&text::trim_chars(&text::chars_of_str(t.as_str()))),
        None => {
            return Err(WtError::Parse("No summary".to_owned()));
        },
    };
    let (refresh_eps_at, expired_at) = match expiries_from(now) {
        Some(pair) => pair,
        None => {
            return Err(WtError::TimeOverflow);
        },
    };
    Ok(
        WebtoonInfo {
            id,
            title,
            thumbnail,
            banner,
            creators,
            creator_id,
            genres,
            schedule,
            views,
            subs,
            summary,
            episodes: None,
            refresh_eps_at,
            expired_at,
        },
    )
}

/// Extract the creator list of an info page, as [`creators_of`] describes it.
fn parse_creators(h: &str) -> (r: Option<Vec<String>>)
    ensures
        match r {
            Some(cs) => creators_of(h@) matches Some(gcs) && cs@.len() == gcs.len() && (forall|
                k: int,
            |
                0 <= k < gcs.len() ==> (#[trigger] cs@[k])@ == gcs[k]),
            None => creators_of(h@) is None,
        },
{
    let frags = html::select_fragments(h, ".detail_header .author_area");
    if frags.len() == 0 {
        return None;
    }
    let frag = frags[0].as_str();
    match html::fragment_first_text(frag, "a") {
        Some(a) => {
            let one = text::string_of_chars(&text::trim_chars(&text::chars_of_str(a.as_str())));
            let mut cs: Vec<String> = Vec::new();
            cs.push(one);
            proof {
                let gcs = creators_of(h@)->0;
                assert(gcs =~= seq![text::trim_spec(a@)]);
                assert(cs@[0]@ == gcs[0]);
            }
            Some(cs)
        },
        None => {
            let all = match html::fragment_first_text(frag, ".author_area") {
                Some(t) => t,
                None => {
                    return None;
                },
            };
            let trimmed = text::trim_chars(&text::chars_of_str(all.as_str()));
            let sep = text::chars_of_str(", ");
            proof {
                reveal_strlit(", ");
            }
            let parts = text::split_exec(&trimmed, &sep);
            let ghost gparts = text::split_spec(text::trim_spec(all@), ", "@);
            let caption = text::chars_of_str("author info");
            proof {
                reveal_strlit("author info");
            }
            let mut cs: Vec<String> = Vec::new();
            let mut i: usize = 0;
            while i < parts.len()
                invariant
                    0 <= i <= parts@.len(),
                    gparts.len() == parts@.len(),
                    forall|k: int| 0 <= k < gparts.len() ==> parts@[k]@ == gparts[k],
                    caption@ == "author info"@,
                    caption@.len() > 0,
                    cs@.len() == i,
                    forall|k: int| 0 <= k < i ==> (#[trigger] cs@[k])@ == creator_name(gparts[k]),
                decreases parts@.len() - i,
            {
                let cleaned = text::trim_chars(
                    &text::remove_all_exec(&text::trim_chars(&parts[i]), &caption),
                );
                cs.push(text::string_of_chars(&cleaned));
                i = i + 1;
            }
            proof {
                let gcs = creators_of(h@)->0;
                assert(gcs == gparts.map_values(|a: Seq<char>| creator_name(a)));
                assert(forall|k: int| 0 <= k < gcs.len() ==> gcs[k] == creator_name(gparts[k]));
            }
            Some(cs)
        },
    }
}

/// The two expiry clocks of a record stamped at `now`: episode refresh after
/// one day, full expiry after ten. Nothing on a reachable clock overflows,
/// but the check is kept as the error taxonomy documents it.
pub fn expiries_from(now: u64) -> (r: Option<(u64, u64)>)
    ensures
        match r {
            Some(pair) => now + EXPIRE_AFTER <= u64::MAX && pair.0 == now + REFRESH_EPS_AFTER
                && pair.1 == now + EXPIRE_AFTER,
            None => now + EXPIRE_AFTER > u64::MAX,
        },
{
    if now > u64::MAX - EXPIRE_AFTER {
        return None;
    }
    Some((now + REFRESH_EPS_AFTER, now + EXPIRE_AFTER))
}

/// Replace a cached record's metadata with a freshly fetched record while
/// keeping its episode list, as a metadata-only refresh must.
pub fn apply_refresh(cached: WebtoonInfo, fresh: WebtoonInfo) -> (r: WebtoonInfo)
    ensures
        r.episodes == cached.episodes,
        r.id == fresh.id,
        r.title == fresh.title,
        r.thumbnail == fresh.thumbnail,
        r.banner == fresh.banner,
        r.creators == fresh.creators,
        r.creator_id == fresh.creator_id,
        r.genres == fresh.genres,
        r.schedule == fresh.schedule,
        r.views == fresh.views,
        r.subs == fresh.subs,
        r.summary == fresh.summary,
        r.refresh_eps_at == fresh.refresh_eps_at,
        r.expired_at == fresh.expired_at,
{
    WebtoonInfo {
        id: fresh.id,
        title: fresh.title,
        thumbnail: fresh.thumbnail,
        banner: fresh.banner,
        creators: fresh.creators,
        creator_id: fresh.creator_id,
        genres: fresh.genres,
        schedule: fresh.schedule,
        views: fresh.views,
        subs: fresh.subs,
        summary: fresh.summary,
        episodes: cached.episodes,
        refresh_eps_at: fresh.refresh_eps_at,
        expired_at: fresh.expired_at,
    }
}

/// Append an incremental sync's batch to a cached episode list.
pub fn append_new_episodes(episodes: &mut Vec<EpisodePreview>, new_eps: Vec<EpisodePreview>)
    ensures
        final (episodes)@ == old(episodes)@ + new_eps@,
{
    let mut incoming = new_eps;
    episodes.append(&mut incoming);
}

/// The fixed poster file name of an Original webtoon's thumbnail: the poster
/// is cached once, keyed by the webtoon's id rather than by its URL.
pub open spec fn poster_filename_spec(wt_id: int) -> Seq<char> {
    "Thumb_Poster_"@ + text::dec_digits(wt_id) + ".jpg"@
}

pub fn poster_filename(wt_id: usize) -> (r: String)
    ensures
        r@ == poster_filename_spec(wt_id as int),
{
    let prefix = text::chars_of_str("Thumb_Poster_");
    let suffix = text::chars_of_str(".jpg");
    let with_id = text::concat_chars(&prefix, &text::usize_to_chars(wt_id));
    let full = text::concat_chars(&with_id, &suffix);
    text::string_of_chars(&full)
}

/// The full poster path of an Original webtoon under a thumbnail directory.
pub fn poster_path(dir: &str, wt_id: usize) -> (r: String)
    ensures
        r@ == dir@ + seq!['/'] + poster_filename_spec(wt_id as int),
{
    let d = text::chars_of_str(dir);
    let sep = text::chars_of_str("/");
    proof {
        reveal_strlit("/");
        assert(sep@ =~= seq!['/']);
    }
    let name = poster_filename(wt_id);
    let with_sep = text::concat_chars(&d, &sep);
    let full = text::concat_chars(&with_sep, &text::chars_of_str(name.as_str()));
    text::string_of_chars(&full)
}

} // verus!
