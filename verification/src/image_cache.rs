//! The dedup-aware image cache: deriving local paths from URLs, deciding
//! which URLs still need a fetch, and aggregating download progress.
//!
//! The embedding layer performs the existence checks, the concurrent fetches
//! and the writes; everything it decides with is computed here. The returned
//! path list is a function of the destination directory and the URL list
//! alone, so two runs over the same inputs name the same files, in the same
//! order, whatever the completion order of the fetches.
use vstd::prelude::*;

use crate::text;

verus! {

/// The cache file name of a URL: its last path segment, stripped of any
/// query string. Two URLs sharing that segment collide by design; keeping
/// the derivation in one place keeps a future fix local.
pub open spec fn filename_spec(url: Seq<char>) -> Seq<char> {
    text::split_spec(text::split_spec(url, seq!['/']).last(), seq!['?'])[0]
}

/// The cache path of a URL under a destination directory.
pub open spec fn derived_path_spec(dest: Seq<char>, url: Seq<char>) -> Seq<char> {
    dest + seq!['/'] + filename_spec(url)
}

/// Derive the cache file name of one URL.
pub fn derive_filename(url: &str) -> (r: String)
    ensures
        r@ == filename_spec(url@),
{
    let cs = text::chars_of_str(url);
    let slash = text::chars_of_str("/");
    let query = text::chars_of_str("?");
    proof {
        reveal_strlit("/");
        reveal_strlit("?");
        assert(slash@ =~= seq!['/']);
        assert(query@ =~= seq!['?']);
    }
    let segs = text::split_exec(&cs, &slash);
    proof {
        text::lemma_split_len_pos(cs@, slash@);
    }
    let last = &segs[segs.len() - 1];
    let pieces = text::split_exec(last, &query);
    proof {
        text::lemma_split_len_pos(last@, query@);
    }
    text::string_of_chars(&pieces[0])
}

/// Derive the cache path of one URL under a destination directory.
pub fn derive_path(dest: &str, url: &str) -> (r: String)
    ensures
        r@ == derived_path_spec(dest@, url@),
{
    let mut out = text::chars_of_str(dest);
    out.push('/');
    let name = derive_filename(url);
    let name_chars = text::chars_of_str(name.as_str());
    let mut i: usize = 0;
    while i < name_chars.len()
        invariant
            0 <= i <= name_chars@.len(),
            out@ == dest@ + seq!['/'] + name_chars@.take(i as int),
        decreases name_chars@.len() - i,
    {
        out.push(name_chars[i]);
        proof {
            assert(dest@ + seq!['/'] + name_chars@.take(i + 1) =~= (dest@ + seq!['/']
                + name_chars@.take(i as int)).push(name_chars@[i as int]));
        }
        i = i + 1;
    }
    proof {
        assert(dest@.push('/') =~= dest@ + seq!['/'] + name_chars@.take(0));
        assert(name_chars@.take(name_chars@.len() as int) =~= name_chars@);
    }
    text::string_of_chars(&out)
}

/// The local paths of a URL list, parallel to it.
pub fn plan_image_paths(dest: &str, urls: &Vec<String>) -> (paths: Vec<String>)
    ensures
        paths@.len() == urls@.len(),
        forall|k: int|
            0 <= k < urls@.len() ==> #[trigger] paths@[k]@ == derived_path_spec(dest@, urls@[k]@),
{
    let mut paths: Vec<String> = Vec::new();
    let mut i: usize = 0;
    while i < urls.len()
        invariant
            0 <= i <= urls@.len(),
            paths@.len() == i,
            forall|k: int|
                0 <= k < i ==> #[trigger] paths@[k]@ == derived_path_spec(dest@, urls@[k]@),
        decreases urls@.len() - i,
    {
        paths.push(derive_path(dest, urls[i].as_str()));
        i = i + 1;
    }
    paths
}

/// The indices of the URLs that still need a fetch: those whose derived path
/// does not exist yet, in input order.
pub open spec fn fetch_list_spec(exists: Seq<bool>) -> Seq<int>
    decreases exists.len(),
{
    if exists.len() == 0 {
        Seq::<int>::empty()
    } else {
        let head = if exists[0] {
            Seq::<int>::empty()
        } else {
            seq![0int]
        };
        head + fetch_list_spec(exists.drop_first()).map_values(|j: int| j + 1)
    }
}

/// An all-cached batch issues no fetch at all: re-running the downloader over
/// URLs whose files are already on disk touches the network zero times.
pub proof fn lemma_cached_run_is_free(exists: Seq<bool>)
    requires
        forall|k: int| 0 <= k < exists.len() ==> exists[k],
    ensures
        fetch_list_spec(exists).len() == 0,
    decreases exists.len(),
{
    if exists.len() > 0 {
        lemma_cached_run_is_free(exists.drop_first());
    }
}

/// Every index below the batch size appears in the fetch list if and only if
/// its file is missing, and the list keeps input order.
pub proof fn lemma_fetch_list_complete(exists: Seq<bool>)
    ensures
        forall|j: int| #[trigger] fetch_list_spec(exists).contains(j) ==> 0 <= j < exists.len(),
        forall|j: int|
            0 <= j < exists.len() ==> (fetch_list_spec(exists).contains(j) <==> !exists[j]),
    decreases exists.len(),
{
    if exists.len() > 0 {
        lemma_fetch_list_complete(exists.drop_first());
        let tail = exists.drop_first();
        let rest = fetch_list_spec(tail);
        let shifted = rest.map_values(|j: int| j + 1);
        let head = if exists[0] {
            Seq::<int>::empty()
        } else {
            seq![0int]
        };
        let full = fetch_list_spec(exists);
        assert(full == head + shifted);
        assert forall|j: int| #[trigger] full.contains(j) implies 0 <= j < exists.len()
            && !exists[j] by {
            let w = choose|w: int| 0 <= w < full.len() && full[w] == j;
            if w < head.len() {
                assert(j == 0 && !exists[0]);
            } else {
                assert(full[w] == shifted[w - head.len()]);
                assert(shifted[w - head.len()] == rest[w - head.len()] + 1);
                assert(rest.contains(j - 1));
                assert(!tail[j - 1]);
                assert(tail[j - 1] == exists[j]);
            }
        }
        assert forall|j: int| 0 <= j < exists.len() && !exists[j] implies #[trigger] full.contains(
            j,
        ) by {
            if j == 0 {
                assert(full[0] == 0);
            } else {
                assert(!tail[j - 1]);
                assert(rest.contains(j - 1));
                let w = choose|w: int| 0 <= w < rest.len() && rest[w] == j - 1;
                assert(shifted[w] == j);
                assert(full[head.len() + w] == j);
            }
        }
    }
}

/// Compute which URLs to fetch, from the existence of each derived path.
pub fn plan_fetches(exists: &Vec<bool>) -> (r: Vec<usize>)
    ensures
        r@.map_values(|i: usize| i as int) == fetch_list_spec(exists@),
{
    let mut r: Vec<usize> = Vec::new();
    let mut i: usize = 0;
    proof {
        assert(exists@.skip(0) =~= exists@);
        assert(r@.map_values(|x: usize| x as int) + fetch_list_spec(exists@) =~= fetch_list_spec(
            exists@,
        ));
    }
    while i < exists.len()
        invariant
            0 <= i <= exists@.len(),
            fetch_list_spec(exists@) == r@.map_values(|x: usize| x as int) + fetch_list_spec(
                exists@.skip(i as int),
            ).map_values(|j: int| j + i),
        decreases exists@.len() - i,
    {
        let ghost suffix = exists@.skip(i as int);
        proof {
            assert(suffix[0] == exists@[i as int]);
            assert(suffix.drop_first() =~= exists@.skip(i + 1));
        }
        if !exists[i] {
            r.push(i);
            proof {
                let f1 = fetch_list_spec(exists@.skip(i + 1));
                assert(fetch_list_spec(suffix) == seq![0int] + f1.map_values(|j: int| j + 1));
                assert(fetch_list_spec(suffix).map_values(|j: int| j + i) =~= seq![i as int]
                    + f1.map_values(|j: int| j + (i + 1)));
                assert(r@.map_values(|x: usize| x as int) =~= r@.drop_last().map_values(
                    |x: usize| x as int,
                ).push(i as int));
                assert(r@.drop_last().map_values(|x: usize| x as int).push(i as int) + f1.map_values(
                    |j: int| j + (i + 1),
                ) =~= r@.drop_last().map_values(|x: usize| x as int) + (seq![i as int]
                    + f1.map_values(|j: int| j + (i + 1))));
            }
        } else {
            proof {
                let f1 = fetch_list_spec(exists@.skip(i + 1));
                assert(fetch_list_spec(suffix) == f1.map_values(|j: int| j + 1));
                assert(fetch_list_spec(suffix).map_values(|j: int| j + i) =~= f1.map_values(
                    |j: int| j + (i + 1),
                ));
            }
        }
        i = i + 1;
    }
    proof {
        assert(exists@.skip(exists@.len() as int) =~= Seq::<bool>::empty());
        assert(fetch_list_spec(Seq::<bool>::empty()).map_values(|j: int| j + exists@.len())
            =~= Seq::<int>::empty());
        assert(r@.map_values(|x: usize| x as int) + Seq::<int>::empty() =~= r@.map_values(
            |x: usize| x as int,
        ));
    }
    r
}

/// The whole-percent progress after `completed` of `total` responses:
/// `completed / total * 100`, rounded to the nearest integer.
pub open spec fn percent_spec(completed: int, total: int) -> int {
    (200 * completed + total) / (2 * total)
}

/// Progress of one download batch: how many responses have landed out of how
/// many were issued.
pub struct FetchProgress {
    pub total: usize,
    pub completed: usize,
}

impl FetchProgress {
    /// All counters start at zero responses.
    pub fn new(total: usize) -> (r: Self)
        ensures
            r.total == total,
            r.completed == 0,
    {
        FetchProgress { total, completed: 0 }
    }

    /// Record one more response and report the rounded percentage.
    pub fn on_response(&mut self) -> (percent: u8)
        requires
            old(self).completed < old(self).total,
        ensures
            final (self).total == old(self).total,
            final (self).completed == old(self).completed + 1,
            percent as int == percent_spec(final (self).completed as int, final (self).total as int),
            0 <= percent <= 100,
    {
        self.completed = self.completed + 1;
        let c = self.completed;
        let t = self.total;
        proof {
            assert(0 <= percent_spec(c as int, t as int) <= 100) by (nonlinear_arith)
                requires
                    0 < c <= t,
            ;
        }
        let num: u128 = 200u128 * (c as u128) + (t as u128);
        let den: u128 = 2u128 * (t as u128);
        let p: u128 = num / den;
        proof {
            assert(p == percent_spec(c as int, t as int));
        }
        p as u8
    }
}

/// More responses never report a smaller percentage: the progress signal is
/// monotone whatever order the fetches complete in.
pub proof fn lemma_progress_monotonic(c1: int, c2: int, total: int)
    requires
        0 <= c1 <= c2 <= total,
        0 < total,
    ensures
        percent_spec(c1, total) <= percent_spec(c2, total),
{
    assert((200 * c1 + total) <= (200 * c2 + total)) by (nonlinear_arith)
        requires
            c1 <= c2,
    ;
    assert((200 * c1 + total) / (2 * total) <= (200 * c2 + total) / (2 * total)) by (nonlinear_arith)
        requires
            0 < total,
            (200 * c1 + total) <= (200 * c2 + total),
            0 <= c1,
    ;
}

/// The planned path list is a function of the destination and the URL list
/// alone: invoking the downloader twice over the same inputs names the same
/// files, in the same order.
pub proof fn lemma_paths_deterministic(
    dest: Seq<char>,
    urls: Seq<Seq<char>>,
    p1: Seq<Seq<char>>,
    p2: Seq<Seq<char>>,
)
    requires
        p1.len() == urls.len(),
        forall|k: int| 0 <= k < urls.len() ==> #[trigger] p1[k] == derived_path_spec(dest, urls[k]),
        p2.len() == urls.len(),
        forall|k: int| 0 <= k < urls.len() ==> #[trigger] p2[k] == derived_path_spec(dest, urls[k]),
    ensures
        p1 == p2,
{
    assert(p1 =~= p2);
}

} // verus!
