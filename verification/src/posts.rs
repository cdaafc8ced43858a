//! Top-level comments on an episode: selecting and shaping what the comment
//! feed hands back.
use vstd::prelude::*;

use crate::types::{CreatorInfo, Post, WebtoonId, WebtoonSearchInfo};

verus! {

/// One comment as the comment feed reports it, before selection.
#[derive(Debug, Clone)]
pub struct RawPost {
    pub id: String,
    pub content: String,
    pub is_spoiler: bool,
    pub upvotes: u32,
    pub downvotes: u32,
    pub posted_at: u64,
    pub poster_name: String,
    pub is_top: bool,
    pub is_comment: bool,
}

/// Whether a raw comment belongs in the episode's feed: only top-level
/// comments that are marked top posts are kept.
pub open spec fn keeps(p: RawPost) -> bool {
    p.is_top && p.is_comment
}

/// The post record a kept raw comment becomes.
pub open spec fn post_of(wt_id: WebtoonId, ep_num: usize, p: RawPost) -> Post {
    Post {
        wt_id,
        ep_num,
        id: p.id,
        content: p.content,
        is_spoiler: p.is_spoiler,
        upvotes: p.upvotes,
        downvotes: p.downvotes,
        posted_at: p.posted_at,
        poster_name: p.poster_name,
    }
}

/// The kept comments of a feed, in feed order.
pub open spec fn collect_spec(wt_id: WebtoonId, ep_num: usize, raw: Seq<RawPost>) -> Seq<Post>
    decreases raw.len(),
{
    if raw.len() == 0 {
        Seq::<Post>::empty()
    } else {
        let rest = collect_spec(wt_id, ep_num, raw.drop_first());
        if keeps(raw[0]) {
            seq![post_of(wt_id, ep_num, raw[0])] + rest
        } else {
            rest
        }
    }
}

/// Keep the top-level top comments of a feed and shape them into the
/// episode's post records, preserving feed order.
pub fn collect_top_posts(wt_id: WebtoonId, ep_num: usize, raw: Vec<RawPost>) -> (r: Vec<Post>)
    ensures
        r@ == collect_spec(wt_id, ep_num, raw@),
{
    let mut r: Vec<Post> = Vec::new();
    let mut remaining = raw;
    let mut i: usize = 0;
    let ghost all = remaining@;
    proof {
        assert(all.skip(0) =~= all);
        assert(r@ + collect_spec(wt_id, ep_num, all) =~= collect_spec(wt_id, ep_num, all));
    }
    while i < remaining.len()
        invariant
            0 <= i <= remaining@.len(),
            all == remaining@,
            collect_spec(wt_id, ep_num, all) == r@ + collect_spec(
                wt_id,
                ep_num,
                all.skip(i as int),
            ),
        decreases remaining@.len() - i,
    {
        let ghost suffix = all.skip(i as int);
        proof {
            assert(suffix[0] == all[i as int]);
            assert(suffix.drop_first() =~= all.skip(i + 1));
        }
        let p = &remaining[i];
        if p.is_top && p.is_comment {
            r.push(
                Post {
                    wt_id,
                    ep_num,
                    id: p.id.clone(),
                    content: p.content.clone(),
                    is_spoiler: p.is_spoiler,
                    upvotes: p.upvotes,
                    downvotes: p.downvotes,
                    posted_at: p.posted_at,
                    poster_name: p.poster_name.clone(),
                },
            );
            proof {
                let rest = collect_spec(wt_id, ep_num, all.skip(i + 1));
                assert(r@.last() == post_of(wt_id, ep_num, all[i as int]));
                assert(r@.drop_last() + (seq![post_of(wt_id, ep_num, all[i as int])] + rest)
                    =~= r@ + rest);
            }
        }
        i = i + 1;
    }
    proof {
        assert(all.skip(all.len() as int) =~= Seq::<RawPost>::empty());
        assert(r@ + Seq::<Post>::empty() =~= r@);
    }
    r
}

/// Assemble a creator profile from its parts, once the embedding layer has
/// fetched them.
pub fn assemble_creator_info(
    profile_id: String,
    name: String,
    followers: Option<u32>,
    webtoons: Vec<WebtoonSearchInfo>,
) -> (r: CreatorInfo)
    ensures
        r.profile_id == profile_id,
        r.name == name,
        r.followers == followers,
        r.webtoons == webtoons,
{
    CreatorInfo { profile_id, name, followers, webtoons }
}

} // verus!
