//! Operations on the user's subscription table: the projection a
//! subscription keeps of a webtoon record, subscribing, unsubscribing,
//! marking an episode read, and changing the language.
//!
//! The embedding layer persists the table; everything that changes it is
//! computed here.
use vstd::prelude::*;

use crate::types::{Language, UserData, UserWebtoon, WebtoonInfo, WebtoonSearchInfo};

verus! {

broadcast use vstd::std_specs::hash::group_hash_axioms;

/// Whether `uw` is the per-user projection of the full record `info`: its
/// identity, display fields and primary creator, with nothing seen yet.
pub open spec fn projection_of(info: WebtoonInfo, uw: UserWebtoon) -> bool {
    &&& uw.id == info.id
    &&& uw.title@ == info.title@
    &&& uw.thumbnail@ == info.thumbnail@
    &&& uw.creator@ == if info.creators@.len() > 0 {
        info.creators@[0]@
    } else {
        Seq::<char>::empty()
    }
    &&& uw.last_seen is None
    &&& uw.episode_seen@ == Map::<usize, bool>::empty()
}

/// Project a full metadata record down to what a subscription stores: title,
/// thumbnail and first creator, with no episode seen.
pub fn user_webtoon_from_info(info: &WebtoonInfo) -> (r: UserWebtoon)
    ensures
        projection_of(*info, r),
{
    let creator = if info.creators.len() > 0 {
        info.creators[0].clone()
    } else {
        String::new()
    };
    UserWebtoon {
        id: info.id,
        title: info.title.clone(),
        thumbnail: info.thumbnail.clone(),
        creator,
        last_seen: None,
        episode_seen: std::collections::HashMap::new(),
    }
}

/// Subscribe the user to a webtoon: its projection enters the table under
/// its numeric id, replacing any earlier entry.
pub fn subscribe(data: &mut UserData, info: &WebtoonInfo)
    ensures
        final (data).language == old(data).language,
        final (data).webtoons@.contains_key(info.id.wt_id),
        projection_of(*info, final (data).webtoons@[info.id.wt_id]),
        final (data).webtoons@ == old(data).webtoons@.insert(
            info.id.wt_id,
            final (data).webtoons@[info.id.wt_id],
        ),
{
    let uw = user_webtoon_from_info(info);
    data.webtoons.insert(info.id.wt_id, uw);
}

/// Drop a webtoon from the subscription table.
pub fn unsubscribe(data: &mut UserData, wt_id: usize)
    ensures
        final (data).language == old(data).language,
        final (data).webtoons@ == old(data).webtoons@.remove(wt_id),
{
    data.webtoons.remove(&wt_id);
}

/// Record that the user read an episode of a subscribed webtoon at time
/// `now`: the episode is flagged seen and the webtoon's last-seen clock set.
/// An unsubscribed webtoon is left untouched.
pub fn mark_as_read(data: &mut UserData, wt_id: usize, ep_num: usize, now: u64)
    ensures
        final (data).language == old(data).language,
        !old(data).webtoons@.contains_key(wt_id) ==> final (data).webtoons@ == old(data).webtoons@,
        old(data).webtoons@.contains_key(wt_id) ==> {
            let before = old(data).webtoons@[wt_id];
            let after = final (data).webtoons@[wt_id];
            &&& final (data).webtoons@ == old(data).webtoons@.insert(wt_id, after)
            &&& after.id == before.id
            &&& after.title == before.title
            &&& after.thumbnail == before.thumbnail
            &&& after.creator == before.creator
            &&& after.last_seen == Some(now)
            &&& after.episode_seen@ == before.episode_seen@.insert(ep_num, true)
        },
{
    match data.webtoons.remove(&wt_id) {
        None => {
            proof {
                assert(old(data).webtoons@.remove(wt_id) =~= old(data).webtoons@);
            }
        },
        Some(uw) => {
            let mut seen = uw.episode_seen;
            seen.insert(ep_num, true);
            let updated = UserWebtoon {
                id: uw.id,
                title: uw.title,
                thumbnail: uw.thumbnail,
                creator: uw.creator,
                last_seen: Some(now),
                episode_seen: seen,
            };
            data.webtoons.insert(wt_id, updated);
            proof {
                assert(old(data).webtoons@.remove(wt_id).insert(wt_id, updated) =~= old(
                    data,
                ).webtoons@.insert(wt_id, updated));
            }
        },
    }
}

/// Switch the user's language, touching nothing else.
pub fn change_language(data: &mut UserData, new_lang: Language)
    ensures
        final (data).language == new_lang,
        final (data).webtoons@ == old(data).webtoons@,
{
    data.language = new_lang;
}

/// The search-result card a subscription shows: the projection's display
/// fields, with the stored creator.
pub fn search_info_of_user_webtoon(uw: &UserWebtoon) -> (r: WebtoonSearchInfo)
    ensures
        r.id == uw.id,
        r.title@ == uw.title@,
        r.thumbnail@ == uw.thumbnail@,
        r.creator matches Some(c) && c@ == uw.creator@,
{
    WebtoonSearchInfo {
        id: uw.id,
        title: uw.title.clone(),
        thumbnail: uw.thumbnail.clone(),
        creator: Some(uw.creator.clone()),
    }
}

} // verus!
