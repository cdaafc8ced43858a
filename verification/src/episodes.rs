//! The episode scraper: parsing episode-list entries, walking the paginated
//! list with its stop conditions, and parsing one episode's reader page.
use vstd::prelude::*;

use crate::html;
use crate::text;
use crate::types::{EpisodeData, EpisodePreview, ScrapEdgeCase, WebtoonId, WtError};

verus! {

/// The episode number written in a list entry: the text of its `.tx` label,
/// trimmed, with every leading `#` stripped, read as a decimal number.
pub open spec fn entry_number(e: Seq<char>) -> Option<int> {
    match html::frag_first_text(e, ".tx"@) {
        None => None,
        Some(t) => {
            let d = text::strip_prefix_all(text::trim_spec(t), "#"@);
            if d.len() > 0 && text::all_digits(d) && text::digits_to_nat(d) <= usize::MAX {
                Some(text::digits_to_nat(d) as int)
            } else {
                None
            }
        },
    }
}

/// The likes count written in a list entry: the text of its `.like_area`,
/// with the leading "like" caption stripped and thousands separators removed.
pub open spec fn entry_likes(e: Seq<char>) -> Option<int> {
    match html::frag_first_text(e, ".like_area"@) {
        None => None,
        Some(t) => {
            let d = text::remove_all_spec(text::strip_prefix_all(t, "like"@), ","@);
            if d.len() > 0 && text::all_digits(d) && text::digits_to_nat(d) <= usize::MAX {
                Some(text::digits_to_nat(d) as int)
            } else {
                None
            }
        },
    }
}

/// The posted-at display text of a list entry.
pub open spec fn entry_date(e: Seq<char>) -> Option<Seq<char>> {
    match html::frag_first_text(e, ".date"@) {
        None => None,
        Some(t) => Some(text::trim_spec(t)),
    }
}

/// The title of a list entry, with the platform's trailing "UP" badge text
/// stripped.
pub open spec fn entry_title(e: Seq<char>) -> Option<Seq<char>> {
    match html::frag_first_text(e, ".subj > span"@) {
        None => None,
        Some(t) => Some(text::strip_suffix_all(t, "UP"@)),
    }
}

/// The first parse failure of a list entry, in the order the fields are
/// extracted, or nothing when every field reads cleanly.
pub open spec fn entry_error(e: Seq<char>) -> Option<Seq<char>> {
    if html::frag_first_text(e, ".tx"@) is None {
        Some("No ep num"@)
    } else if entry_number(e) is None {
        Some("invalid episode number"@)
    } else if html::frag_first_text(e, ".date"@) is None {
        Some("No date"@)
    } else if html::frag_first_text(e, ".subj > span"@) is None {
        Some("No title"@)
    } else if html::frag_first_attr(e, ".thmb > img"@, "src"@) is None {
        Some("No thumbnail"@)
    } else if html::frag_first_attr(e, ".thmb > img"@, "src"@) == Some(None::<Seq<char>>) {
        Some("No ep thumb src"@)
    } else if html::frag_first_text(e, ".like_area"@) is None {
        Some("No likes"@)
    } else if entry_likes(e) is None {
        Some("invalid likes count"@)
    } else if html::frag_first_attr(e, "a"@, "href"@) is None {
        Some("No ep url"@)
    } else if html::frag_first_attr(e, "a"@, "href"@) == Some(None::<Seq<char>>) {
        Some("No ep url href"@)
    } else {
        None
    }
}

/// Whether `ep` is exactly the preview a clean entry describes.
pub open spec fn entry_matches(parent: WebtoonId, e: Seq<char>, ep: EpisodePreview) -> bool {
    &&& entry_error(e) is None
    &&& ep.parent_wt_id == parent
    &&& entry_number(e) == Some(ep.number as int)
    &&& entry_date(e) == Some(ep.posted_at@)
    &&& entry_title(e) == Some(ep.title@)
    &&& html::frag_first_attr(e, ".thmb > img"@, "src"@) == Some(Some(ep.thumbnail@))
    &&& entry_likes(e) == Some(ep.likes as int)
    &&& html::frag_first_attr(e, "a"@, "href"@) == Some(Some(ep.ep_url@))
}

/// Parse the text between a `.tx`-style caption and a number: trim or strip
/// the given decorations, then read the digits.
fn parse_decorated_number(t: &str, trim_first: bool, prefix: &str, strip_commas: bool) -> (r:
    Option<usize>)
    requires
        prefix@.len() > 0,
    ensures
        ({
            let base = if trim_first {
                text::trim_spec(t@)
            } else {
                t@
            };
            let stripped = text::strip_prefix_all(base, prefix@);
            let d = if strip_commas {
                text::remove_all_spec(stripped, ","@)
            } else {
                stripped
            };
            match r {
                Some(n) => d.len() > 0 && text::all_digits(d) && text::digits_to_nat(d) == n,
                None => !(d.len() > 0 && text::all_digits(d) && text::digits_to_nat(d)
                    <= usize::MAX),
            }
        }),
{
    let cs = text::chars_of_str(t);
    let base = if trim_first {
        text::trim_chars(&cs)
    } else {
        cs
    };
    let stripped = text::strip_prefix_all_exec(&base, &text::chars_of_str(prefix));
    let comma = text::chars_of_str(",");
    proof {
        reveal_strlit(",");
    }
    let d = if strip_commas {
        text::remove_all_exec(&stripped, &comma)
    } else {
        stripped
    };
    text::parse_usize(&d)
}

/// Parse one episode-list entry into a preview record.
///
/// Every extraction step treats a missing element or attribute as a
/// recoverable parse error naming the field, so page drift surfaces as an
/// error, never a crash.
pub fn parse_episode_entry(parent: WebtoonId, frag: &str) -> (r: Result<EpisodePreview, WtError>)
    ensures
        match r {
            Ok(ep) => entry_matches(parent, frag@, ep),
            Err(er) => er matches WtError::Parse(m) && entry_error(frag@) == Some(m@),
        },
{
    let num_text = match html::fragment_first_text(frag, ".tx") {
        Some(t) => t,
        None => {
            return Err(WtError::Parse("No ep num".to_owned()));
        },
    };
    proof {
        reveal_strlit("#");
    }
    let number = match parse_decorated_number(num_text.as_str(), true, "#", false) {
        Some(n) => n,
        None => {
            return Err(WtError::Parse("invalid episode number".to_owned()));
        },
    };
    let date_text = match html::fragment_first_text(frag, ".date") {
        Some(t) => t,
        None => {
            return Err(WtError::Parse("No date".to_owned()));
        },
    };
    let posted_at = text::string_of_chars(&text::trim_chars(&text::chars_of_str(date_text.as_str())));
    let title_text = match html::fragment_first_text(frag, ".subj > span") {
        Some(t) => t,
        None => {
            return Err(WtError::Parse("No title".to_owned()));
        },
    };
    let up = text::chars_of_str("UP");
    proof {
        reveal_strlit("UP");
    }
    let title = text::string_of_chars(
        &text::strip_suffix_all_exec(&text::chars_of_str(title_text.as_str()), &up),
    );
    let thumbnail = match html::fragment_first_attr(frag, ".thmb > img", "src") {
        Some(Some(t)) => t,
        Some(None) => {
            return Err(WtError::Parse("No ep thumb src".to_owned()));
        },
        None => {
            return Err(WtError::Parse("No thumbnail".to_owned()));
        },
    };
    let likes_text = match html::fragment_first_text(frag, ".like_area") {
        Some(t) => t,
        None => {
            return Err(WtError::Parse("No likes".to_owned()));
        },
    };
    proof {
        reveal_strlit("like");
    }
    let likes = match parse_decorated_number(likes_text.as_str(), false, "like", true) {
        Some(n) => n,
        None => {
            return Err(WtError::Parse("invalid likes count".to_owned()));
        },
    };
    let ep_url = match html::fragment_first_attr(frag, "a", "href") {
        Some(Some(t)) => t,
        Some(None) => {
            return Err(WtError::Parse("No ep url href".to_owned()));
        },
        None => {
            return Err(WtError::Parse("No ep url".to_owned()));
        },
    };
    Ok(
        EpisodePreview {
            parent_wt_id: parent,
            number,
            title,
            thumbnail,
            likes,
            posted_at,
            ep_url,
        },
    )
}

/// The selector that finds the episode-list entries of a list page.
pub open spec fn entry_selector() -> Seq<char> {
    "#_listUl > li"@
}

/// Parse every episode-list entry of one list page, in page order
/// (newest first). The first malformed entry aborts the page.
pub fn parse_episode_page(parent: WebtoonId, page_html: &str) -> (r: Result<
    Vec<EpisodePreview>,
    WtError,
>)
    ensures
        ({
            let frags = html::doc_fragments(page_html@, entry_selector());
            match r {
                Ok(eps) => eps@.len() == frags.len() && forall|k: int|
                    0 <= k < frags.len() ==> entry_matches(parent, frags[k], #[trigger] eps@[k]),
                Err(er) => er matches WtError::Parse(m) && exists|k: int|
                    0 <= k < frags.len() && #[trigger] entry_error(frags[k]) == Some(m@) && (forall|
                        j: int,
                    |
                        0 <= j < k ==> entry_error(frags[j]) is None),
            }
        }),
{
    let frags = html::select_fragments(page_html, "#_listUl > li");
    let mut eps: Vec<EpisodePreview> = Vec::new();
    let mut i: usize = 0;
    let ghost gfrags = html::doc_fragments(page_html@, entry_selector());
    while i < frags.len()
        invariant
            0 <= i <= frags@.len(),
            gfrags == html::doc_fragments(page_html@, entry_selector()),
            frags@.len() == gfrags.len(),
            forall|k: int| 0 <= k < gfrags.len() ==> frags@[k]@ == gfrags[k],
            eps@.len() == i,
            forall|k: int| 0 <= k < i ==> entry_matches(parent, gfrags[k], #[trigger] eps@[k]),
        decreases frags@.len() - i,
    {
        match parse_episode_entry(parent, frags[i].as_str()) {
            Ok(ep) => {
                eps.push(ep);
                i = i + 1;
            },
            Err(er) => {
                proof {
                    let m = er->Parse_0;
                    assert(entry_error(gfrags[i as int]) == Some(m@));
                    assert forall|j: int| 0 <= j < i implies entry_error(gfrags[j]) is None by {
                        assert(entry_matches(parent, gfrags[j], eps@[j]));
                    }
                    assert(exists|k: int|
                        0 <= k < gfrags.len() && #[trigger] entry_error(gfrags[k]) == Some(m@) && (
                        forall|j: int| 0 <= j < k ==> entry_error(gfrags[j]) is None));
                }
                return Err(er);
            },
        }
    }
    Ok(eps)
}

/// What one page's walk collects, given the numbers already seen.
///
/// Entries are walked newest first. In inclusive mode the entry that reaches
/// the bound is collected before the walk stops; in exclusive mode it is not.
/// Two consecutive equal numbers stop the walk after the second is collected,
/// so a repeating page can never loop forever.
pub open spec fn page_collect(
    es: Seq<EpisodePreview>,
    bound: int,
    inclusive: bool,
    last: Option<int>,
) -> Seq<EpisodePreview>
    decreases es.len(),
{
    if es.len() == 0 {
        Seq::<EpisodePreview>::empty()
    } else {
        let e = es[0];
        let n = e.number as int;
        if inclusive {
            if n <= bound {
                seq![e]
            } else if last == Some(n) {
                seq![e]
            } else {
                seq![e] + page_collect(es.drop_first(), bound, inclusive, Some(n))
            }
        } else {
            if n <= bound {
                Seq::<EpisodePreview>::empty()
            } else if last == Some(n) {
                seq![e]
            } else {
                seq![e] + page_collect(es.drop_first(), bound, inclusive, Some(n))
            }
        }
    }
}

/// Whether one page's walk hits a stop condition before the page runs out.
pub open spec fn page_stops(
    es: Seq<EpisodePreview>,
    bound: int,
    inclusive: bool,
    last: Option<int>,
) -> bool
    decreases es.len(),
{
    if es.len() == 0 {
        false
    } else {
        let n = es[0].number as int;
        if n <= bound {
            true
        } else if last == Some(n) {
            true
        } else {
            page_stops(es.drop_first(), bound, inclusive, Some(n))
        }
    }
}

/// An exact copy of a preview record.
fn copy_preview(e: &EpisodePreview) -> (r: EpisodePreview)
    ensures
        r == *e,
{
    EpisodePreview {
        parent_wt_id: e.parent_wt_id,
        number: e.number,
        title: e.title.clone(),
        thumbnail: e.thumbnail.clone(),
        likes: e.likes,
        posted_at: e.posted_at.clone(),
        ep_url: e.ep_url.clone(),
    }
}

/// The sequential walk over a webtoon's paginated episode list.
///
/// The embedding layer fetches one page at a time and feeds the parsed
/// entries in; the machine decides what to collect, when to stop, which URL
/// comes next, and what progress to report. Collection happens newest first;
/// [`EpisodeScrape::finish`] reverses it to the persisted oldest-first order.
pub struct EpisodeScrape {
    pub parent: WebtoonId,
    pub bound: usize,
    pub edge: ScrapEdgeCase,
    pub base_url: Option<String>,
    pub next_page: usize,
    pub collected: Vec<EpisodePreview>,
    pub done: bool,
    pub progress: u8,
}

impl EpisodeScrape {
    /// A fresh walk: nothing collected, page one next, progress at zero.
    pub fn new(parent: WebtoonId, bound: usize, edge: ScrapEdgeCase) -> (r: Self)
        ensures
            r.parent == parent,
            r.bound == bound,
            r.edge == edge,
            r.base_url is None,
            r.next_page == 1,
            r.collected@ =~= Seq::<EpisodePreview>::empty(),
            !r.done,
            r.progress == 0,
    {
        EpisodeScrape {
            parent,
            bound,
            edge,
            base_url: None,
            next_page: 1,
            collected: Vec::new(),
            done: false,
            progress: 0,
        }
    }

    /// Record the resolved URL of the first page response, the base for every
    /// later page-number URL.
    pub fn record_resolved_url(&mut self, url: String)
        ensures
            final (self).base_url == Some(url),
            final (self).parent == old(self).parent,
            final (self).bound == old(self).bound,
            final (self).edge == old(self).edge,
            final (self).next_page == old(self).next_page,
            final (self).collected@ == old(self).collected@,
            final (self).done == old(self).done,
            final (self).progress == old(self).progress,
    {
        self.base_url = Some(url);
    }

    /// The URL of the page to fetch next: the resolved base when one is
    /// known, else the canonical list URL of the webtoon, with the page
    /// number appended.
    pub fn current_url(&self) -> (r: String)
        ensures
            r@ == page_url_spec(
                match self.base_url {
                    Some(u) => u@,
                    None => webtoon_url_spec(self.parent),
                },
                self.next_page as int,
            ),
    {
        let base = match &self.base_url {
            Some(u) => text::chars_of_str(u.as_str()),
            None => text::chars_of_str(generate_webtoon_url(self.parent).as_str()),
        };
        let with_sep = text::concat_chars(&base, &text::chars_of_str("&page="));
        let with_page = text::concat_chars(&with_sep, &text::usize_to_chars(self.next_page));
        text::string_of_chars(&with_page)
    }

    /// Walk one page's entries, newest first, collecting and stopping as
    /// [`page_collect`] and [`page_stops`] describe, then step the progress
    /// signal and the page number.
    pub fn ingest_page(&mut self, entries: &Vec<EpisodePreview>)
        requires
            !old(self).done,
            old(self).progress < 100,
            old(self).next_page < usize::MAX,
        ensures
            final (self).parent == old(self).parent,
            final (self).bound == old(self).bound,
            final (self).edge == old(self).edge,
            final (self).base_url == old(self).base_url,
            final (self).next_page == old(self).next_page + 1,
            final (self).collected@ == old(self).collected@ + page_collect(
                entries@,
                old(self).bound as int,
                old(self).edge is Inclusive,
                None,
            ),
            final (self).done == page_stops(
                entries@,
                old(self).bound as int,
                old(self).edge is Inclusive,
                None,
            ),
            final (self).progress == (old(self).progress + 10) % 100,
            final (self).progress < 100,
    {
        let ghost b = self.bound as int;
        let ghost inc = self.edge is Inclusive;
        let ghost start = self.collected@;
        let inclusive = match self.edge {
            ScrapEdgeCase::Inclusive => true,
            ScrapEdgeCase::Exclusive => false,
        };
        let mut last: Option<usize> = None;
        let mut stop = false;
        let mut i: usize = 0;
        proof {
            assert(entries@.skip(0) =~= entries@);
            assert(start + Seq::<EpisodePreview>::empty() =~= start);
        }
        while i < entries.len() && !stop
            invariant
                0 <= i <= entries@.len(),
                inc == (self.edge is Inclusive),
                inclusive == inc,
                b == self.bound as int,
                self.parent == old(self).parent,
                self.bound == old(self).bound,
                self.edge == old(self).edge,
                self.base_url == old(self).base_url,
                self.next_page == old(self).next_page,
                self.done == old(self).done,
                self.progress == old(self).progress,
                start == old(self).collected@,
                !stop ==> {
                    let last_g = match last {
                        Some(x) => Some(x as int),
                        None => None::<int>,
                    };
                    &&& start + page_collect(entries@, b, inc, None) == self.collected@
                        + page_collect(entries@.skip(i as int), b, inc, last_g)
                    &&& page_stops(entries@, b, inc, None) == page_stops(
                        entries@.skip(i as int),
                        b,
                        inc,
                        last_g,
                    )
                },
                stop ==> self.collected@ == start + page_collect(entries@, b, inc, None)
                    && page_stops(entries@, b, inc, None),
            decreases entries@.len() - i,
        {
            let ghost last_g = match last {
                Some(x) => Some(x as int),
                None => None::<int>,
            };
            let ghost suffix = entries@.skip(i as int);
            proof {
                assert(suffix[0] == entries@[i as int]);
                assert(suffix.drop_first() =~= entries@.skip(i + 1));
            }
            let e = copy_preview(&entries[i]);
            let n = e.number;
            if inclusive {
                self.collected.push(e);
                if n <= self.bound {
                    stop = true;
                } else if last == Some(n) {
                    stop = true;
                } else {
                    last = Some(n);
                }
            } else {
                if n <= self.bound {
                    stop = true;
                } else {
                    self.collected.push(e);
                    if last == Some(n) {
                        stop = true;
                    } else {
                        last = Some(n);
                    }
                }
            }
            proof {
                let cur = page_collect(suffix, b, inc, last_g);
                let curstop = page_stops(suffix, b, inc, last_g);
                if stop {
                    if inc {
                        assert(cur =~= seq![entries@[i as int]]);
                        assert(self.collected@ =~= self.collected@.drop_last().push(
                            entries@[i as int],
                        ));
                        assert(self.collected@.drop_last() + cur =~= self.collected@);
                    } else {
                        if n <= self.bound {
                            assert(cur =~= Seq::<EpisodePreview>::empty());
                            assert(self.collected@ + cur =~= self.collected@);
                        } else {
                            assert(cur =~= seq![entries@[i as int]]);
                            assert(self.collected@.drop_last() + cur =~= self.collected@);
                        }
                    }
                } else {
                    let next_g = Some(n as int);
                    let rest = page_collect(entries@.skip(i + 1), b, inc, next_g);
                    assert(cur == seq![entries@[i as int]] + rest);
                    assert(self.collected@.drop_last() + (seq![entries@[i as int]] + rest)
                        =~= self.collected@ + rest);
                    assert(curstop == page_stops(entries@.skip(i + 1), b, inc, next_g));
                }
            }
            i = i + 1;
        }
        proof {
            if !stop {
                assert(i == entries@.len());
                assert(entries@.skip(i as int) =~= Seq::<EpisodePreview>::empty());
                assert(self.collected@ + Seq::<EpisodePreview>::empty() =~= self.collected@);
            }
        }
        self.done = stop;
        self.progress = (self.progress + 10) % 100;
        self.next_page = self.next_page + 1;
    }

    /// Hand out what the walk collected, reversed to ascending episode order.
    pub fn finish(self) -> (r: Vec<EpisodePreview>)
        ensures
            r@ == self.collected@.reverse(),
    {
        let mut r: Vec<EpisodePreview> = Vec::new();
        let mut i: usize = self.collected.len();
        while i > 0
            invariant
                0 <= i <= self.collected@.len(),
                r@.len() == self.collected@.len() - i,
                forall|k: int|
                    0 <= k < r@.len() ==> #[trigger] r@[k] == self.collected@[self.collected@.len()
                        - 1 - k],
            decreases i,
        {
            i = i - 1;
            r.push(copy_preview(&self.collected[i]));
        }
        proof {
            assert(r@ =~= self.collected@.reverse());
        }
        r
    }
}

/// The canonical episode-list URL of a webtoon. The platform redirects the
/// wildcard segments to the real title path.
pub open spec fn webtoon_url_spec(id: WebtoonId) -> Seq<char> {
    match id.wt_type {
        crate::types::WtType::Canvas => "https://www.webtoons.com/en/canvas/*/list?title_no="@
            + text::dec_digits(id.wt_id as int),
        crate::types::WtType::Original => "https://www.webtoons.com/en/*/*/list?title_no="@
            + text::dec_digits(id.wt_id as int),
    }
}

/// A page-number URL under a list base URL.
pub open spec fn page_url_spec(base: Seq<char>, page: int) -> Seq<char> {
    base + "&page="@ + text::dec_digits(page)
}

/// Build the canonical episode-list URL of a webtoon.
pub fn generate_webtoon_url(id: WebtoonId) -> (r: String)
    ensures
        r@ == webtoon_url_spec(id),
{
    let prefix = match id.wt_type {
        crate::types::WtType::Canvas => text::chars_of_str(
            "https://www.webtoons.com/en/canvas/*/list?title_no=",
        ),
        crate::types::WtType::Original => text::chars_of_str(
            "https://www.webtoons.com/en/*/*/list?title_no=",
        ),
    };
    let full = text::concat_chars(&prefix, &text::usize_to_chars(id.wt_id));
    text::string_of_chars(&full)
}

/// Episodes numbered densely ascending from one: entry `i` is episode `i+1`.
pub open spec fn dense_ascending(eps: Seq<EpisodePreview>) -> bool {
    forall|i: int| 0 <= i < eps.len() ==> (#[trigger] eps[i].number) as int == i + 1
}

/// Entries numbered densely descending: entry `i` is episode `len - i`, the
/// order a list page presents them in.
pub open spec fn dense_descending(es: Seq<EpisodePreview>) -> bool {
    forall|i: int| 0 <= i < es.len() ==> (#[trigger] es[i].number) as int == es.len() - i
}

proof fn lemma_collect_dense_inclusive(es: Seq<EpisodePreview>, last: Option<int>)
    requires
        es.len() >= 1,
        dense_descending(es),
        last != Some(es.len() as int),
    ensures
        page_collect(es, 1, true, last) == es,
        page_stops(es, 1, true, last),
    decreases es.len(),
{
    let n = es.len() as int;
    assert(es[0].number as int == n);
    if n == 1 {
        assert(page_collect(es, 1, true, last) =~= es);
    } else {
        let rest = es.drop_first();
        assert(dense_descending(rest)) by {
            assert(forall|i: int|
                0 <= i < rest.len() ==> (#[trigger] rest[i].number) as int == rest.len() - i);
        }
        lemma_collect_dense_inclusive(rest, Some(n));
        assert(seq![es[0]] + rest =~= es);
    }
}

/// A full scrape of a webtoon whose listing presents episodes `N .. 1`
/// newest first returns exactly episodes `1 .. N`, strictly ascending with
/// no gaps.
pub proof fn lemma_scrape_all_dense(es: Seq<EpisodePreview>, n: int)
    requires
        n >= 1,
        es.len() == n,
        dense_descending(es),
    ensures
        ({
            let c = page_collect(es, 1, true, None).reverse();
            &&& c.len() == n
            &&& dense_ascending(c)
            &&& page_stops(es, 1, true, None)
        }),
{
    lemma_collect_dense_inclusive(es, None);
    let c = page_collect(es, 1, true, None).reverse();
    assert(c.len() == n);
    assert forall|i: int| 0 <= i < c.len() implies (#[trigger] c[i].number) as int == i + 1 by {
        assert(c[i] == es[n - 1 - i]);
    }
}

proof fn lemma_collect_dense_exclusive(es: Seq<EpisodePreview>, k: int, last: Option<int>)
    requires
        es.len() >= 1,
        dense_descending(es),
        0 <= k <= es.len(),
        last != Some(es.len() as int),
    ensures
        page_collect(es, k, false, last) == es.take(es.len() - k),
        page_stops(es, k, false, last) == (k >= 1),
    decreases es.len(),
{
    let n = es.len() as int;
    assert(es[0].number as int == n);
    if n <= k {
        assert(page_collect(es, k, false, last) =~= es.take(0));
    } else {
        if n == 1 {
            assert(k == 0);
            assert(es.drop_first() =~= Seq::<EpisodePreview>::empty());
            assert(page_collect(Seq::<EpisodePreview>::empty(), k, false, Some(1int))
                =~= Seq::<EpisodePreview>::empty());
            assert(!page_stops(Seq::<EpisodePreview>::empty(), k, false, Some(1int)));
            assert(page_collect(es, k, false, last) =~= es.take(1));
        } else {
            let rest = es.drop_first();
            assert(dense_descending(rest)) by {
                assert(forall|i: int|
                    0 <= i < rest.len() ==> (#[trigger] rest[i].number) as int == rest.len() - i);
            }
            lemma_collect_dense_exclusive(rest, k, Some(n));
            assert(seq![es[0]] + rest.take(rest.len() - k) =~= es.take(es.len() - k));
        }
    }
}

/// An incremental sync against a listing that presents episodes `N .. 1`,
/// with `k` episodes already cached, returns exactly episodes `k+1 .. N`
/// ascending; with `k == N` it returns nothing.
pub proof fn lemma_scrape_new_since(es: Seq<EpisodePreview>, n: int, k: int)
    requires
        n >= 1,
        es.len() == n,
        dense_descending(es),
        0 <= k <= n,
    ensures
        ({
            let c = page_collect(es, k, false, None).reverse();
            &&& c.len() == n - k
            &&& forall|i: int| 0 <= i < c.len() ==> (#[trigger] c[i].number) as int == k + i + 1
        }),
{
    lemma_collect_dense_exclusive(es, k, None);
    let c = page_collect(es, k, false, None).reverse();
    assert(c.len() == n - k);
    assert forall|i: int| 0 <= i < c.len() implies (#[trigger] c[i].number) as int == k + i + 1 by {
        let t = es.take(es.len() - k);
        assert(c[i] == t[n - k - 1 - i]);
        assert(t[n - k - 1 - i] == es[n - k - 1 - i]);
    }
}

/// Appending a batch that continues the numbering keeps the cached list
/// densely ascending: `1 .. k` followed by `k+1 .. N` is `1 .. N`.
pub proof fn lemma_append_keeps_dense(a: Seq<EpisodePreview>, b: Seq<EpisodePreview>)
    requires
        dense_ascending(a),
        forall|i: int| 0 <= i < b.len() ==> (#[trigger] b[i].number) as int == a.len() + i + 1,
    ensures
        dense_ascending(a + b),
{
    assert forall|i: int| 0 <= i < (a + b).len() implies ((a + b)[i].number) as int == i + 1 by {
        if i < a.len() {
            assert((a + b)[i] == a[i]);
        } else {
            assert((a + b)[i] == b[i - a.len()]);
        }
    }
}

/// Entries numbered descending from `hi`: entry `i` is episode `hi - i`.
pub open spec fn descending_from(es: Seq<EpisodePreview>, hi: int) -> bool {
    forall|i: int| 0 <= i < es.len() ==> (#[trigger] es[i].number) as int == hi - i
}

/// What a whole pagination run collects: page after page, each walked with a
/// fresh duplicate guard, until one page hits a stop condition. This is the
/// page-by-page behavior [`EpisodeScrape::ingest_page`] guarantees, written
/// as one function of the pages.
pub open spec fn run_pages(pages: Seq<Seq<EpisodePreview>>, bound: int, inclusive: bool) -> Seq<
    EpisodePreview,
>
    decreases pages.len(),
{
    if pages.len() == 0 {
        Seq::<EpisodePreview>::empty()
    } else {
        let first = page_collect(pages[0], bound, inclusive, None);
        if page_stops(pages[0], bound, inclusive, None) {
            first
        } else {
            first + run_pages(pages.drop_first(), bound, inclusive)
        }
    }
}

/// Whether a pagination run reaches a stop condition on some page.
pub open spec fn run_stops(pages: Seq<Seq<EpisodePreview>>, bound: int, inclusive: bool) -> bool
    decreases pages.len(),
{
    if pages.len() == 0 {
        false
    } else {
        page_stops(pages[0], bound, inclusive, None) || run_stops(
            pages.drop_first(),
            bound,
            inclusive,
        )
    }
}

/// A page whose lowest number still lies above the bound is collected whole,
/// without stopping.
proof fn lemma_chunk_no_stop(
    es: Seq<EpisodePreview>,
    hi: int,
    bound: int,
    inclusive: bool,
    last: Option<int>,
)
    requires
        descending_from(es, hi),
        hi - es.len() >= bound,
        es.len() > 0 ==> last != Some(hi),
    ensures
        page_collect(es, bound, inclusive, last) == es,
        !page_stops(es, bound, inclusive, last),
    decreases es.len(),
{
    if es.len() == 0 {
        assert(page_collect(es, bound, inclusive, last) =~= es);
    } else {
        assert(es[0].number as int == hi);
        let rest = es.drop_first();
        assert(descending_from(rest, hi - 1)) by {
            assert(forall|i: int|
                0 <= i < rest.len() ==> (#[trigger] rest[i].number) as int == (hi - 1) - i);
        }
        lemma_chunk_no_stop(rest, hi - 1, bound, inclusive, Some(hi));
        assert(seq![es[0]] + rest =~= es);
    }
}

/// A page whose numbers reach an inclusive bound is collected down to the
/// bound, bound included, and stops there.
proof fn lemma_chunk_inclusive_stop(es: Seq<EpisodePreview>, hi: int, bound: int, last: Option<int>)
    requires
        descending_from(es, hi),
        es.len() >= 1,
        last != Some(hi),
        hi - es.len() < bound <= hi,
    ensures
        page_collect(es, bound, true, last) == es.take(hi - bound + 1),
        page_stops(es, bound, true, last),
    decreases es.len(),
{
    assert(es[0].number as int == hi);
    if hi <= bound {
        assert(hi == bound);
        assert(page_collect(es, bound, true, last) =~= es.take(1));
    } else {
        let rest = es.drop_first();
        assert(descending_from(rest, hi - 1)) by {
            assert(forall|i: int|
                0 <= i < rest.len() ==> (#[trigger] rest[i].number) as int == (hi - 1) - i);
        }
        lemma_chunk_inclusive_stop(rest, hi - 1, bound, Some(hi));
        assert(seq![es[0]] + rest.take((hi - 1) - bound + 1) =~= es.take(hi - bound + 1));
    }
}

/// A page whose numbers reach an exclusive bound is collected down to the
/// bound, bound excluded, and stops there.
proof fn lemma_chunk_exclusive_stop(es: Seq<EpisodePreview>, hi: int, bound: int, last: Option<int>)
    requires
        descending_from(es, hi),
        es.len() >= 1,
        last != Some(hi),
        hi - es.len() < bound <= hi,
    ensures
        page_collect(es, bound, false, last) == es.take(hi - bound),
        page_stops(es, bound, false, last),
    decreases es.len(),
{
    assert(es[0].number as int == hi);
    if hi <= bound {
        assert(hi == bound);
        assert(page_collect(es, bound, false, last) =~= es.take(0));
    } else {
        let rest = es.drop_first();
        assert(descending_from(rest, hi - 1)) by {
            assert(forall|i: int|
                0 <= i < rest.len() ==> (#[trigger] rest[i].number) as int == (hi - 1) - i);
        }
        lemma_chunk_exclusive_stop(rest, hi - 1, bound, Some(hi));
        assert(seq![es[0]] + rest.take((hi - 1) - bound) =~= es.take(hi - bound));
    }
}

/// A full scrape over any pagination of a listing that presents episodes
/// `N .. 1` newest first collects exactly the whole listing, stops, and,
/// reversed, yields episodes `1 .. N` strictly ascending with no gaps.
pub proof fn lemma_full_scrape_pages(pages: Seq<Seq<EpisodePreview>>, n: int)
    requires
        pages.len() >= 1,
        forall|p: int| 0 <= p < pages.len() ==> (#[trigger] pages[p]).len() >= 1,
        pages.flatten().len() == n,
        descending_from(pages.flatten(), n),
    ensures
        run_pages(pages, 1, true) == pages.flatten(),
        run_stops(pages, 1, true),
        ({
            let c = run_pages(pages, 1, true).reverse();
            c.len() == n && dense_ascending(c)
        }),
    decreases pages.len(),
{
    let flat = pages.flatten();
    let first = pages[0];
    let rest = pages.drop_first();
    assert(flat == first + rest.flatten());
    let len0 = first.len() as int;
    assert(descending_from(first, n)) by {
        assert(forall|i: int| 0 <= i < len0 ==> first[i] == flat[i]);
    }
    if pages.len() == 1 {
        assert(rest.flatten() =~= Seq::<EpisodePreview>::empty());
        assert(first =~= flat);
        assert(n == len0);
        lemma_chunk_inclusive_stop(first, n, 1, None);
        assert(first.take(n) =~= first);
    } else {
        assert(rest[0].len() >= 1);
        assert(rest.flatten() == rest[0] + rest.drop_first().flatten());
        assert(rest.flatten().len() >= 1);
        assert(n - len0 >= 1);
        lemma_chunk_no_stop(first, n, 1, true, None);
        assert(descending_from(rest.flatten(), n - len0)) by {
            assert(forall|i: int|
                0 <= i < rest.flatten().len() ==> rest.flatten()[i] == flat[len0 + i]);
        }
        lemma_full_scrape_pages(rest, n - len0);
        assert(first + rest.flatten() =~= flat);
    }
    let c = run_pages(pages, 1, true).reverse();
    assert forall|i: int| 0 <= i < c.len() implies (#[trigger] c[i].number) as int == i + 1 by {
        assert(c[i] == flat[n - 1 - i]);
    }
}

/// An incremental sync over any pagination of a listing that presents
/// episodes `N .. 1`, with `k >= 1` episodes already cached, collects exactly
/// the episodes above `k`, stops, and, reversed, yields episodes
/// `k+1 .. N` ascending; with `k == N` it collects nothing.
pub proof fn lemma_new_since_pages(pages: Seq<Seq<EpisodePreview>>, n: int, k: int)
    requires
        pages.len() >= 1,
        forall|p: int| 0 <= p < pages.len() ==> (#[trigger] pages[p]).len() >= 1,
        pages.flatten().len() == n,
        descending_from(pages.flatten(), n),
        1 <= k <= n,
    ensures
        run_pages(pages, k, false) == pages.flatten().take(n - k),
        run_stops(pages, k, false),
        ({
            let c = run_pages(pages, k, false).reverse();
            c.len() == n - k && forall|i: int|
                0 <= i < c.len() ==> (#[trigger] c[i].number) as int == k + i + 1
        }),
    decreases pages.len(),
{
    let flat = pages.flatten();
    let first = pages[0];
    let rest = pages.drop_first();
    assert(flat == first + rest.flatten());
    let len0 = first.len() as int;
    assert(descending_from(first, n)) by {
        assert(forall|i: int| 0 <= i < len0 ==> first[i] == flat[i]);
    }
    if k > n - len0 {
        lemma_chunk_exclusive_stop(first, n, k, None);
        assert(first.take(n - k) =~= flat.take(n - k));
    } else {
        assert(pages.len() >= 2) by {
            if pages.len() == 1 {
                assert(rest.flatten() =~= Seq::<EpisodePreview>::empty());
                assert(n == len0);
            }
        }
        assert(rest[0].len() >= 1);
        assert(rest.flatten() == rest[0] + rest.drop_first().flatten());
        lemma_chunk_no_stop(first, n, k, false, None);
        assert(descending_from(rest.flatten(), n - len0)) by {
            assert(forall|i: int|
                0 <= i < rest.flatten().len() ==> rest.flatten()[i] == flat[len0 + i]);
        }
        lemma_new_since_pages(rest, n - len0, k);
        assert(first + rest.flatten().take((n - len0) - k) =~= flat.take(n - k));
    }
    let c = run_pages(pages, k, false).reverse();
    assert forall|i: int| 0 <= i < c.len() implies (#[trigger] c[i].number) as int == k + i + 1 by {
        let t = flat.take(n - k);
        assert(c[i] == t[n - k - 1 - i]);
        assert(t[n - k - 1 - i] == flat[n - k - 1 - i]);
    }
}

/// The selector that finds the panel images of a reader page.
pub open spec fn panel_selector() -> Seq<char> {
    "#_imageList > img"@
}

/// The selector that finds the author name link of a reader page.
pub open spec fn author_name_selector() -> Seq<char> {
    ".author_area .author_name"@
}

/// The selector that finds the author thumbnail of a reader page.
pub open spec fn author_thumb_selector() -> Seq<char> {
    ".author_area > .profile > img"@
}

/// The first parse failure of a reader page, in extraction order.
pub open spec fn detail_error(h: Seq<char>) -> Option<Seq<char>> {
    let panels = html::doc_attrs(h, panel_selector(), "data-url"@);
    if exists|k: int| 0 <= k < panels.len() && (#[trigger] panels[k]) is None {
        Some("No panel url"@)
    } else if html::doc_first_text(h, author_name_selector()) is None {
        Some("No author name"@)
    } else if html::doc_first_attr(h, author_name_selector(), "href"@) is None {
        Some("No author name"@)
    } else if html::doc_first_attr(h, author_thumb_selector(), "src"@) is None {
        Some("No author thumb"@)
    } else if html::doc_first_attr(h, author_thumb_selector(), "src"@) == Some(None::<Seq<char>>) {
        Some("No author thumb src"@)
    } else {
        None
    }
}

/// The author identifier read from the author link: the trailing path
/// segment of its href, when the link carries one.
pub open spec fn author_id_of(href: Option<Seq<char>>) -> Option<Seq<char>> {
    match href {
        None => None,
        Some(u) => Some(text::split_spec(u, seq!['/']).last()),
    }
}

/// Parse one episode's reader page into its detail record: the lazy-load
/// panel URLs, the optional author note, the author's name, identifier and
/// thumbnail.
pub fn parse_episode_detail(preview: &EpisodePreview, page_html: &str) -> (r: Result<
    EpisodeData,
    WtError,
>)
    ensures
        ({
            let h = page_html@;
            let panels = html::doc_attrs(h, panel_selector(), "data-url"@);
            match r {
                Ok(d) => {
                    &&& detail_error(h) is None
                    &&& d.parent_wt_id == preview.parent_wt_id
                    &&& d.number == preview.number
                    &&& d.panels@.len() == panels.len()
                    &&& forall|k: int|
                        0 <= k < panels.len() ==> panels[k] == Some(#[trigger] d.panels@[k]@)
                    &&& match html::doc_first_text(h, ".author_text"@) {
                        None => d.author_note is None,
                        Some(t) => d.author_note matches Some(note) && note@ == t,
                    }
                    &&& html::doc_first_text(h, author_name_selector()) == Some(d.author_name@)
                    &&& match html::doc_first_attr(h, author_name_selector(), "href"@) {
                        Some(inner) => match author_id_of(inner) {
                            None => d.author_id is None,
                            Some(aid) => d.author_id matches Some(a) && a@ == aid,
                        },
                        None => false,
                    }
                    &&& html::doc_first_attr(h, author_thumb_selector(), "src"@) == Some(
                        Some(d.author_thumb@),
                    )
                },
                Err(er) => er matches WtError::Parse(m) && detail_error(h) == Some(m@),
            }
        }),
{
    let raw_panels = html::select_attrs(page_html, "#_imageList > img", "data-url");
    let ghost gpanels = html::doc_attrs(page_html@, panel_selector(), "data-url"@);
    let mut panels: Vec<String> = Vec::new();
    let mut i: usize = 0;
    while i < raw_panels.len()
        invariant
            0 <= i <= raw_panels@.len(),
            gpanels == html::doc_attrs(page_html@, panel_selector(), "data-url"@),
            raw_panels@.len() == gpanels.len(),
            forall|k: int|
                0 <= k < gpanels.len() ==> match #[trigger] raw_panels@[k] {
                    Some(t) => gpanels[k] == Some(t@),
                    None => gpanels[k] is None,
                },
            panels@.len() == i,
            forall|k: int| 0 <= k < i ==> gpanels[k] == Some(#[trigger] panels@[k]@),
        decreases raw_panels@.len() - i,
    {
        match &raw_panels[i] {
            Some(u) => {
                panels.push(u.clone());
            },
            None => {
                proof {
                    assert(gpanels[i as int] is None);
                }
                return Err(WtError::Parse("No panel url".to_owned()));
            },
        }
        i = i + 1;
    }
    proof {
        assert forall|k: int| 0 <= k < gpanels.len() implies !((#[trigger] gpanels[k]) is None) by {
            assert(gpanels[k] == Some(panels@[k]@));
        }
    }
    let author_note = html::select_first_text(page_html, ".author_text");
    let author_name = match html::select_first_text(page_html, ".author_area .author_name") {
        Some(t) => t,
        None => {
            return Err(WtError::Parse("No author name".to_owned()));
        },
    };
    let author_id = match html::select_first_attr(page_html, ".author_area .author_name", "href") {
        Some(Some(href)) => {
            let cs = text::chars_of_str(href.as_str());
            let slash = text::chars_of_str("/");
            proof {
                reveal_strlit("/");
                assert(slash@ =~= seq!['/']);
            }
            let segs = text::split_exec(&cs, &slash);
            proof {
                text::lemma_split_len_pos(cs@, slash@);
            }
            Some(text::string_of_chars(&segs[segs.len() - 1]))
        },
        Some(None) => None,
        None => {
            return Err(WtError::Parse("No author name".to_owned()));
        },
    };
    let author_thumb = match html::select_first_attr(
        page_html,
        ".author_area > .profile > img",
        "src",
    ) {
        Some(Some(t)) => t,
        Some(None) => {
            return Err(WtError::Parse("No author thumb src".to_owned()));
        },
        None => {
            return Err(WtError::Parse("No author thumb".to_owned()));
        },
    };
    Ok(
        EpisodeData {
            parent_wt_id: preview.parent_wt_id,
            number: preview.number,
            panels,
            author_note,
            author_name,
            author_id,
            author_thumb,
        },
    )
}

/// Look an episode up in the cached list by its one-based number, and say
/// whether a later episode exists. Episode numbers start at one; a number of
/// zero or past the end of the list is out of range.
pub fn episode_for_number(episodes: &Vec<EpisodePreview>, ep_num: usize) -> (r: Result<
    (EpisodePreview, bool),
    WtError,
>)
    ensures
        r is Ok <==> 1 <= ep_num <= episodes@.len(),
        match r {
            Ok((ep, has_next)) => ep == episodes@[ep_num - 1] && has_next == (ep_num
                != episodes@.len()),
            Err(er) => er matches WtError::NotFound(m) && if ep_num == 0 {
                m@ == "episode number cannot be 0"@
            } else {
                m@ == "Requested episode not found in store"@
            },
        },
{
    if ep_num == 0 {
        return Err(WtError::NotFound("episode number cannot be 0".to_owned()));
    }
    if ep_num > episodes.len() {
        return Err(WtError::NotFound("Requested episode not found in store".to_owned()));
    }
    let ep = copy_preview(&episodes[ep_num - 1]);
    Ok((ep, ep_num != episodes.len()))
}

/// Rewrite each preview's thumbnail to its cached local path, keeping every
/// other field and the order: entry `k` takes path `k`, matching the path
/// list the image cache planned for these episodes.
pub fn with_thumbnails(eps: Vec<EpisodePreview>, thumbs: Vec<String>) -> (r: Vec<EpisodePreview>)
    requires
        eps@.len() == thumbs@.len(),
    ensures
        r@.len() == eps@.len(),
        forall|k: int|
            0 <= k < eps@.len() ==> {
                let e = #[trigger] r@[k];
                &&& e.parent_wt_id == eps@[k].parent_wt_id
                &&& e.number == eps@[k].number
                &&& e.title == eps@[k].title
                &&& e.thumbnail@ == thumbs@[k]@
                &&& e.likes == eps@[k].likes
                &&& e.posted_at == eps@[k].posted_at
                &&& e.ep_url == eps@[k].ep_url
            },
{
    let mut r: Vec<EpisodePreview> = Vec::new();
    let mut i: usize = 0;
    while i < eps.len()
        invariant
            0 <= i <= eps@.len(),
            eps@.len() == thumbs@.len(),
            r@.len() == i,
            forall|k: int|
                0 <= k < i ==> {
                    let e = #[trigger] r@[k];
                    &&& e.parent_wt_id == eps@[k].parent_wt_id
                    &&& e.number == eps@[k].number
                    &&& e.title == eps@[k].title
                    &&& e.thumbnail@ == thumbs@[k]@
                    &&& e.likes == eps@[k].likes
                    &&& e.posted_at == eps@[k].posted_at
                    &&& e.ep_url == eps@[k].ep_url
                },
        decreases eps@.len() - i,
    {
        let src = &eps[i];
        r.push(
            EpisodePreview {
                parent_wt_id: src.parent_wt_id,
                number: src.number,
                title: src.title.clone(),
                thumbnail: thumbs[i].clone(),
                likes: src.likes,
                posted_at: src.posted_at.clone(),
                ep_url: src.ep_url.clone(),
            },
        );
        i = i + 1;
    }
    r
}

/// Rewrite a detail record's panels and author thumbnail to their cached
/// local paths, keeping everything else.
pub fn with_panel_paths(data: EpisodeData, panel_paths: Vec<String>, author_thumb: String) -> (r:
    EpisodeData)
    ensures
        r.parent_wt_id == data.parent_wt_id,
        r.number == data.number,
        r.panels == panel_paths,
        r.author_note == data.author_note,
        r.author_name == data.author_name,
        r.author_id == data.author_id,
        r.author_thumb == author_thumb,
{
    EpisodeData {
        parent_wt_id: data.parent_wt_id,
        number: data.number,
        panels: panel_paths,
        author_note: data.author_note,
        author_name: data.author_name,
        author_id: data.author_id,
        author_thumb,
    }
}

} // verus!
