//! The cache freshness controller: deciding, for a cached metadata record or
//! its absence, which refresh work a request must trigger.
use vstd::prelude::*;

use crate::metadata::REFRESH_EPS_AFTER;
use crate::types::{WebtoonInfo, WtError};

verus! {

/// What a request for a webtoon's record must do, given the cache's state.
#[derive(Debug, Clone, Copy, PartialEq, Eq, Structural)]
pub enum CacheAction {
    /// Nothing usable is cached: fetch metadata, all episodes and the
    /// thumbnail.
    FullFetch,
    /// Both clocks are in the future: serve the record unchanged, no
    /// write-back.
    ServeCached,
    /// Only the metadata is stale: re-fetch it, keeping the episode list,
    /// and re-cache the thumbnail.
    RefreshMetadata,
    /// Only the episode list is stale: sync it incrementally against the
    /// cached episode count.
    UpdateEpisodes,
    /// Both clocks are in the past: re-fetch metadata, then sync episodes.
    RefreshBoth,
}

impl CacheAction {
    /// Every action but serving the cached record writes the result back to
    /// the store.
    pub open spec fn writes_back_spec(self) -> bool {
        !(self is ServeCached)
    }

    pub fn writes_back(&self) -> (r: bool)
        ensures
            r == self.writes_back_spec(),
    {
        match self {
            CacheAction::ServeCached => false,
            _ => true,
        }
    }
}

/// The decision an absent or cached record forces at time `now`.
///
/// A record that failed to deserialize counts as absent; the caller passes
/// `None` for it.
pub open spec fn decision_spec(cached: Option<WebtoonInfo>, now: u64) -> CacheAction {
    match cached {
        None => CacheAction::FullFetch,
        Some(wt) => {
            if wt.expired_at > now && wt.refresh_eps_at > now {
                CacheAction::ServeCached
            } else if wt.expired_at <= now && wt.refresh_eps_at > now {
                CacheAction::RefreshMetadata
            } else if wt.refresh_eps_at <= now && wt.expired_at > now {
                CacheAction::UpdateEpisodes
            } else {
                CacheAction::RefreshBoth
            }
        },
    }
}

/// Decide what a request must do for this cache state at time `now`.
pub fn freshness_decision(cached: &Option<WebtoonInfo>, now: u64) -> (r: CacheAction)
    ensures
        r == decision_spec(*cached, now),
{
    match cached {
        None => CacheAction::FullFetch,
        Some(wt) => {
            if wt.expired_at > now && wt.refresh_eps_at > now {
                CacheAction::ServeCached
            } else if wt.expired_at <= now && wt.refresh_eps_at > now {
                CacheAction::RefreshMetadata
            } else if wt.refresh_eps_at <= now && wt.expired_at > now {
                CacheAction::UpdateEpisodes
            } else {
                CacheAction::RefreshBoth
            }
        },
    }
}

/// Push the episode-refresh clock one day past `now`, as a forced episode
/// sync does after it succeeds.
pub fn bump_refresh_clock(info: &mut WebtoonInfo, now: u64) -> (r: Result<(), WtError>)
    ensures
        match r {
            Ok(_) => now + REFRESH_EPS_AFTER <= u64::MAX && final (info).refresh_eps_at
                == now + REFRESH_EPS_AFTER,
            Err(e) => e == WtError::TimeOverflow && now + REFRESH_EPS_AFTER > u64::MAX && final (
            info).refresh_eps_at == old(info).refresh_eps_at,
        },
        final (info).id == old(info).id,
        final (info).title == old(info).title,
        final (info).thumbnail == old(info).thumbnail,
        final (info).banner == old(info).banner,
        final (info).creators == old(info).creators,
        final (info).creator_id == old(info).creator_id,
        final (info).genres == old(info).genres,
        final (info).schedule == old(info).schedule,
        final (info).views == old(info).views,
        final (info).subs == old(info).subs,
        final (info).summary == old(info).summary,
        final (info).episodes == old(info).episodes,
        final (info).expired_at == old(info).expired_at,
{
    if now > u64::MAX - REFRESH_EPS_AFTER {
        return Err(WtError::TimeOverflow);
    }
    info.refresh_eps_at = now + REFRESH_EPS_AFTER;
    Ok(())
}

} // verus!
