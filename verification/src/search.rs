//! The search and recommendation scrapers: parsing the platform's
//! search-results page and its two homepage listings into lightweight search
//! records, and assembling the shuffled recommendation list.
use vstd::prelude::*;

use crate::html;
use crate::text;
use crate::types::{WebtoonId, WebtoonSearchInfo, WtError, WtType};

verus! {

/// What the percent-encoding of a query is. Relies on urlencoding's
/// documented behavior: the result depends on the input text alone.
pub uninterp spec fn url_encoded(s: Seq<char>) -> Seq<char>;

/// Relies on urlencoding's `encode`: percent-encodes every byte except
/// ASCII alphanumerics and `-`, `_`, `.`, `~`; an empty query stays empty.
#[verifier::external_body]
fn encode_query(q: &str) -> (r: String)
    ensures
        r@ == url_encoded(q@),
        q@.len() == 0 ==> r@.len() == 0,
{
    urlencoding::encode(q).into_owned()
}

/// Relies on nanorand's `WyRand::new` and `Rng::generate_range`, whose
/// result always lies within the inclusive bounds it is given.
#[verifier::external_body]
pub fn random_canvas_page() -> (r: u8)
    ensures
        1 <= r <= 5,
{
    let mut rng = nanorand::WyRand::new();
    nanorand::Rng::generate_range(&mut rng, 1_u8..=5)
}

/// Relies on nanorand's `Rng::shuffle`, a Fisher-Yates walk of swaps: the
/// result holds exactly the same records, in some order.
#[verifier::external_body]
pub fn shuffle_results(v: &mut Vec<WebtoonSearchInfo>)
    ensures
        final (v)@.len() == old(v)@.len(),
        final (v)@.to_multiset() == old(v)@.to_multiset(),
{
    let mut rng = nanorand::WyRand::new();
    nanorand::Rng::shuffle(&mut rng, v.as_mut_slice());
}

/// The search-results URL of a query.
pub open spec fn search_url_spec(q: Seq<char>) -> Seq<char> {
    "https://www.webtoons.com/en/search?keyword="@ + url_encoded(q)
}

/// Build the search-results URL of a query.
pub fn search_url(query: &str) -> (r: String)
    ensures
        r@ == search_url_spec(query@),
{
    let prefix = text::chars_of_str("https://www.webtoons.com/en/search?keyword=");
    let encoded = encode_query(query);
    let full = text::concat_chars(&prefix, &text::chars_of_str(encoded.as_str()));
    text::string_of_chars(&full)
}

/// The URL of the Originals homepage listing.
pub fn originals_url() -> (r: String)
    ensures
        r@ == "https://www.webtoons.com/en/originals"@,
{
    "https://www.webtoons.com/en/originals".to_owned()
}

/// The URL of one page of the popularity-sorted Canvas catalog.
pub open spec fn canvas_url_spec(page: int) -> Seq<char> {
    "https://www.webtoons.com/en/canvas/list?genreTab=ALL&sortOrder=MANA&page="@
        + text::dec_digits(page)
}

pub fn canvas_url(page: u8) -> (r: String)
    ensures
        r@ == canvas_url_spec(page as int),
{
    let prefix = text::chars_of_str(
        "https://www.webtoons.com/en/canvas/list?genreTab=ALL&sortOrder=MANA&page=",
    );
    let full = text::concat_chars(&prefix, &text::usize_to_chars(page as usize));
    text::string_of_chars(&full)
}

pub open spec fn search_entry_selector() -> Seq<char> {
    ".webtoon_list > li > a"@
}

/// The numeric id a search entry carries in its data attribute.
pub open spec fn search_entry_id(e: Seq<char>) -> Option<int> {
    match html::frag_first_attr(e, "a"@, "data-title-no"@) {
        Some(Some(t)) => {
            let d = text::trim_spec(t);
            if d.len() > 0 && text::all_digits(d) && text::digits_to_nat(d) <= usize::MAX {
                Some(text::digits_to_nat(d) as int)
            } else {
                None
            }
        },
        _ => None,
    }
}

/// The catalog a search entry's type marker names: "webtoon" is an Original,
/// "challenge" a Canvas.
pub open spec fn search_entry_kind(e: Seq<char>) -> Option<WtType> {
    match html::frag_first_attr(e, "a"@, "data-webtoon-type"@) {
        Some(Some(t)) => {
            let m = text::trim_spec(text::lower_spec(t));
            if m == "webtoon"@ {
                Some(WtType::Original)
            } else if m == "challenge"@ {
                Some(WtType::Canvas)
            } else {
                None
            }
        },
        _ => None,
    }
}

/// The first parse failure of a search entry, in extraction order.
pub open spec fn search_entry_error(e: Seq<char>) -> Option<Seq<char>> {
    if html::frag_first_attr(e, "a"@, "data-title-no"@) is None || html::frag_first_attr(
        e,
        "a"@,
        "data-title-no"@,
    ) == Some(None::<Seq<char>>) {
        Some("No wt id"@)
    } else if search_entry_id(e) is None {
        Some("invalid webtoon id"@)
    } else if html::frag_first_attr(e, "a"@, "data-webtoon-type"@) is None || html::frag_first_attr(
        e,
        "a"@,
        "data-webtoon-type"@,
    ) == Some(None::<Seq<char>>) {
        Some("No wt type"@)
    } else if search_entry_kind(e) is None {
        Some("Failed to parse wt type"@)
    } else if html::frag_first_text(e, ".info_text > .title"@) is None {
        Some("No title"@)
    } else if html::frag_first_attr(e, ".image_wrap > img"@, "src"@) is None {
        Some("No thumbnail"@)
    } else if html::frag_first_attr(e, ".image_wrap > img"@, "src"@) == Some(None::<Seq<char>>) {
        Some("No src"@)
    } else if html::frag_first_text(e, ".info_text > .author"@) is None {
        Some("No author"@)
    } else {
        None
    }
}

/// Whether `w` is exactly the record a clean search entry describes.
pub open spec fn search_entry_matches(e: Seq<char>, w: WebtoonSearchInfo) -> bool {
    &&& search_entry_error(e) is None
    &&& search_entry_id(e) == Some(w.id.wt_id as int)
    &&& search_entry_kind(e) == Some(w.id.wt_type)
    &&& html::frag_first_text(e, ".info_text > .title"@) matches Some(t) && w.title@
        == text::trim_spec(t)
    &&& html::frag_first_attr(e, ".image_wrap > img"@, "src"@) == Some(Some(w.thumbnail@))
    &&& html::frag_first_text(e, ".info_text > .author"@) matches Some(a) && (w.creator matches
    Some(c) && c@ == text::trim_spec(a))
}

/// Parse one search-results entry.
fn parse_search_entry(frag: &str) -> (r: Result<WebtoonSearchInfo, WtError>)
    ensures
        match r {
            Ok(w) => search_entry_matches(frag@, w),
            Err(er) => er matches WtError::Parse(m) && search_entry_error(frag@) == Some(m@),
        },
{
    let id_text = match html::fragment_first_attr(frag, "a", "data-title-no") {
        Some(Some(t)) => t,
        _ => {
            return Err(WtError::Parse("No wt id".to_owned()));
        },
    };
    let wt_id = match text::parse_usize(&text::trim_chars(&text::chars_of_str(id_text.as_str()))) {
        Some(n) => n,
        None => {
            return Err(WtError::Parse("invalid webtoon id".to_owned()));
        },
    };
    let kind_text = match html::fragment_first_attr(frag, "a", "data-webtoon-type") {
        Some(Some(t)) => t,
        _ => {
            return Err(WtError::Parse("No wt type".to_owned()));
        },
    };
    let marker = text::trim_chars(&text::lower_chars(&text::chars_of_str(kind_text.as_str())));
    let wt_type = if text::eq_chars(&marker, &text::chars_of_str("webtoon")) {
        WtType::Original
    } else if text::eq_chars(&marker, &text::chars_of_str("challenge")) {
        WtType::Canvas
    } else {
        return Err(WtError::Parse("Failed to parse wt type".to_owned()));
    };
    let title = match html::fragment_first_text(frag, ".info_text > .title") {
        Some(t) => text::string_of_chars(&text::trim_chars(&text::chars_of_str(t.as_str()))),
        None => {
            return Err(WtError::Parse("No title".to_owned()));
        },
    };
    let thumbnail = match html::fragment_first_attr(frag, ".image_wrap > img", "src") {
        Some(Some(t)) => t,
        Some(None) => {
            return Err(WtError::Parse("No src".to_owned()));
        },
        None => {
            return Err(WtError::Parse("No thumbnail".to_owned()));
        },
    };
    let creator = match html::fragment_first_text(frag, ".info_text > .author") {
        Some(a) => text::string_of_chars(&text::trim_chars(&text::chars_of_str(a.as_str()))),
        None => {
            return Err(WtError::Parse("No author".to_owned()));
        },
    };
    Ok(
        WebtoonSearchInfo {
            id: WebtoonId { wt_id, wt_type },
            title,
            thumbnail,
            creator: Some(creator),
        },
    )
}

/// Parse a search-results page into its result records, in page order. The
/// first malformed entry aborts the page.
pub fn parse_search_page(page_html: &str) -> (r: Result<Vec<WebtoonSearchInfo>, WtError>)
    ensures
        ({
            let frags = html::doc_fragments(page_html@, search_entry_selector());
            match r {
                Ok(ws) => ws@.len() == frags.len() && forall|k: int|
                    0 <= k < frags.len() ==> search_entry_matches(frags[k], #[trigger] ws@[k]),
                Err(er) => er matches WtError::Parse(m) && exists|k: int|
                    0 <= k < frags.len() && #[trigger] search_entry_error(frags[k]) == Some(m@) && (
                    forall|j: int| 0 <= j < k ==> search_entry_error(frags[j]) is None),
            }
        }),
{
    let frags = html::select_fragments(page_html, ".webtoon_list > li > a");
    let ghost gfrags = html::doc_fragments(page_html@, search_entry_selector());
    let mut ws: Vec<WebtoonSearchInfo> = Vec::new();
    let mut i: usize = 0;
    while i < frags.len()
        invariant
            0 <= i <= frags@.len(),
            gfrags == html::doc_fragments(page_html@, search_entry_selector()),
            frags@.len() == gfrags.len(),
            forall|k: int| 0 <= k < gfrags.len() ==> frags@[k]@ == gfrags[k],
            ws@.len() == i,
            forall|k: int| 0 <= k < i ==> search_entry_matches(gfrags[k], #[trigger] ws@[k]),
        decreases frags@.len() - i,
    {
        match parse_search_entry(frags[i].as_str()) {
            Ok(w) => {
                ws.push(w);
                i = i + 1;
            },
            Err(er) => {
                proof {
                    let m = er->Parse_0;
                    assert(search_entry_error(gfrags[i as int]) == Some(m@));
                    assert forall|j: int| 0 <= j < i implies search_entry_error(gfrags[j])
                        is None by {
                        assert(search_entry_matches(gfrags[j], ws@[j]));
                    }
                    assert(exists|k: int|
                        0 <= k < gfrags.len() && #[trigger] search_entry_error(gfrags[k]) == Some(
                            m@,
                        ) && (forall|j: int| 0 <= j < k ==> search_entry_error(gfrags[j]) is None));
                }
                return Err(er);
            },
        }
    }
    Ok(ws)
}

pub open spec fn originals_entry_selector() -> Seq<char> {
    ".webtoon_list > li"@
}

/// The numeric id of an Originals homepage entry.
pub open spec fn originals_entry_id(e: Seq<char>) -> Option<int> {
    match html::frag_first_attr(e, "a"@, "data-title-no"@) {
        Some(Some(t)) => {
            let d = text::trim_spec(t);
            if d.len() > 0 && text::all_digits(d) && text::digits_to_nat(d) <= usize::MAX {
                Some(text::digits_to_nat(d) as int)
            } else {
                None
            }
        },
        _ => None,
    }
}

/// The first parse failure of an Originals homepage entry.
pub open spec fn originals_entry_error(e: Seq<char>) -> Option<Seq<char>> {
    if html::frag_first_attr(e, "a"@, "data-title-no"@) is None {
        Some("No id :("@)
    } else if html::frag_first_attr(e, "a"@, "data-title-no"@) == Some(None::<Seq<char>>) {
        Some("No id"@)
    } else if originals_entry_id(e) is None {
        Some("invalid webtoon id"@)
    } else if html::frag_first_text(e, ".title"@) is None {
        Some("No title"@)
    } else if html::frag_first_attr(e, ".image_wrap > img"@, "src"@) is None {
        Some("No thumbnail"@)
    } else if html::frag_first_attr(e, ".image_wrap > img"@, "src"@) == Some(None::<Seq<char>>) {
        Some("No src"@)
    } else {
        None
    }
}

/// Whether `w` is exactly the record a clean Originals homepage entry
/// describes; the listing shows no creator.
pub open spec fn originals_entry_matches(e: Seq<char>, w: WebtoonSearchInfo) -> bool {
    &&& originals_entry_error(e) is None
    &&& originals_entry_id(e) == Some(w.id.wt_id as int)
    &&& w.id.wt_type == WtType::Original
    &&& html::frag_first_text(e, ".title"@) matches Some(t) && w.title@ == text::trim_spec(t)
    &&& html::frag_first_attr(e, ".image_wrap > img"@, "src"@) == Some(Some(w.thumbnail@))
    &&& w.creator is None
}

/// Parse one Originals homepage entry.
fn parse_originals_entry(frag: &str) -> (r: Result<WebtoonSearchInfo, WtError>)
    ensures
        match r {
            Ok(w) => originals_entry_matches(frag@, w),
            Err(er) => er matches WtError::Parse(m) && originals_entry_error(frag@) == Some(m@),
        },
{
    let id_text = match html::fragment_first_attr(frag, "a", "data-title-no") {
        Some(Some(t)) => t,
        Some(None) => {
            return Err(WtError::Parse("No id".to_owned()));
        },
        None => {
            return Err(WtError::Parse("No id :(".to_owned()));
        },
    };
    let wt_id = match text::parse_usize(&text::trim_chars(&text::chars_of_str(id_text.as_str()))) {
        Some(n) => n,
        None => {
            return Err(WtError::Parse("invalid webtoon id".to_owned()));
        },
    };
    let title = match html::fragment_first_text(frag, ".title") {
        Some(t) => text::string_of_chars(&text::trim_chars(&text::chars_of_str(t.as_str()))),
        None => {
            return Err(WtError::Parse("No title".to_owned()));
        },
    };
    let thumbnail = match html::fragment_first_attr(frag, ".image_wrap > img", "src") {
        Some(Some(t)) => t,
        Some(None) => {
            return Err(WtError::Parse("No src".to_owned()));
        },
        None => {
            return Err(WtError::Parse("No thumbnail".to_owned()));
        },
    };
    Ok(
        WebtoonSearchInfo {
            id: WebtoonId { wt_id, wt_type: WtType::Original },
            title,
            thumbnail,
            creator: None,
        },
    )
}

/// How many entries the Originals homepage listing keeps.
pub const ORIGINALS_CAP: usize = 20;

/// Parse the Originals homepage listing, keeping at most the first twenty
/// entries; the listing exposes no creator text.
pub fn parse_originals_page(page_html: &str) -> (r: Result<Vec<WebtoonSearchInfo>, WtError>)
    ensures
        ({
            let frags = html::doc_fragments(page_html@, originals_entry_selector());
            let kept = if frags.len() <= ORIGINALS_CAP {
                frags.len() as int
            } else {
                ORIGINALS_CAP as int
            };
            match r {
                Ok(ws) => ws@.len() == kept && forall|k: int|
                    0 <= k < kept ==> originals_entry_matches(frags[k], #[trigger] ws@[k]),
                Err(er) => er matches WtError::Parse(m) && exists|k: int|
                    0 <= k < kept && #[trigger] originals_entry_error(frags[k]) == Some(m@) && (
                    forall|j: int| 0 <= j < k ==> originals_entry_error(frags[j]) is None),
            }
        }),
{
    let frags = html::select_fragments(page_html, ".webtoon_list > li");
    let ghost gfrags = html::doc_fragments(page_html@, originals_entry_selector());
    let mut ws: Vec<WebtoonSearchInfo> = Vec::new();
    let mut i: usize = 0;
    while i < frags.len() && i < ORIGINALS_CAP
        invariant
            0 <= i <= frags@.len(),
            i <= ORIGINALS_CAP,
            gfrags == html::doc_fragments(page_html@, originals_entry_selector()),
            frags@.len() == gfrags.len(),
            forall|k: int| 0 <= k < gfrags.len() ==> frags@[k]@ == gfrags[k],
            ws@.len() == i,
            forall|k: int| 0 <= k < i ==> originals_entry_matches(gfrags[k], #[trigger] ws@[k]),
        decreases frags@.len() - i,
    {
        match parse_originals_entry(frags[i].as_str()) {
            Ok(w) => {
                ws.push(w);
                i = i + 1;
            },
            Err(er) => {
                proof {
                    let m = er->Parse_0;
                    assert(originals_entry_error(gfrags[i as int]) == Some(m@));
                    assert forall|j: int| 0 <= j < i implies originals_entry_error(gfrags[j])
                        is None by {
                        assert(originals_entry_matches(gfrags[j], ws@[j]));
                    }
                    let kept = if gfrags.len() <= ORIGINALS_CAP {
                        gfrags.len() as int
                    } else {
                        ORIGINALS_CAP as int
                    };
                    assert(exists|k: int|
                        0 <= k < kept && #[trigger] originals_entry_error(gfrags[k]) == Some(m@)
                            && (forall|j: int|
                            0 <= j < k ==> originals_entry_error(gfrags[j]) is None));
                }
                return Err(er);
            },
        }
    }
    Ok(ws)
}

pub open spec fn canvas_entry_selector() -> Seq<char> {
    ".challenge_lst li"@
}

/// The numeric id of a Canvas catalog entry: the text after the first `=` of
/// its link's href, read as a decimal number.
pub open spec fn canvas_entry_id(e: Seq<char>) -> Option<int> {
    match html::frag_first_attr(e, "a"@, "href"@) {
        Some(Some(href)) => {
            let pieces = text::split_spec(text::trim_spec(href), seq!['=']);
            if pieces.len() < 2 {
                None
            } else {
                let d = pieces[1];
                if d.len() > 0 && text::all_digits(d) && text::digits_to_nat(d) <= usize::MAX {
                    Some(text::digits_to_nat(d) as int)
                } else {
                    None
                }
            }
        },
        _ => None,
    }
}

/// The first parse failure of a Canvas catalog entry.
pub open spec fn canvas_entry_error(e: Seq<char>) -> Option<Seq<char>> {
    if html::frag_first_attr(e, "a"@, "href"@) is None {
        Some("No id :("@)
    } else if html::frag_first_attr(e, "a"@, "href"@) == Some(None::<Seq<char>>) {
        Some("No id"@)
    } else if canvas_entry_id(e) is None {
        Some("No id"@)
    } else if html::frag_first_text(e, ".subj"@) is None {
        Some("No title"@)
    } else if html::frag_first_attr(e, ".img_area > img"@, "src"@) is None {
        Some("No thumbnail"@)
    } else if html::frag_first_attr(e, ".img_area > img"@, "src"@) == Some(None::<Seq<char>>) {
        Some("No src"@)
    } else if html::frag_first_text(e, ".author"@) is None {
        Some("No author"@)
    } else {
        None
    }
}

/// Whether `w` is exactly the record a clean Canvas catalog entry describes.
pub open spec fn canvas_entry_matches(e: Seq<char>, w: WebtoonSearchInfo) -> bool {
    &&& canvas_entry_error(e) is None
    &&& canvas_entry_id(e) == Some(w.id.wt_id as int)
    &&& w.id.wt_type == WtType::Canvas
    &&& html::frag_first_text(e, ".subj"@) matches Some(t) && w.title@ == text::trim_spec(t)
    &&& html::frag_first_attr(e, ".img_area > img"@, "src"@) == Some(Some(w.thumbnail@))
    &&& html::frag_first_text(e, ".author"@) matches Some(a) && (w.creator matches Some(c) && c@
        == text::trim_spec(a))
}

/// Parse one Canvas catalog entry.
fn parse_canvas_entry(frag: &str) -> (r: Result<WebtoonSearchInfo, WtError>)
    ensures
        match r {
            Ok(w) => canvas_entry_matches(frag@, w),
            Err(er) => er matches WtError::Parse(m) && canvas_entry_error(frag@) == Some(m@),
        },
{
    let href = match html::fragment_first_attr(frag, "a", "href") {
        Some(Some(t)) => t,
        Some(None) => {
            return Err(WtError::Parse("No id".to_owned()));
        },
        None => {
            return Err(WtError::Parse("No id :(".to_owned()));
        },
    };
    let eq = text::chars_of_str("=");
    proof {
        reveal_strlit("=");
        assert(eq@ =~= seq!['=']);
    }
    let pieces = text::split_exec(&text::trim_chars(&text::chars_of_str(href.as_str())), &eq);
    let wt_id = if pieces.len() < 2 {
        return Err(WtError::Parse("No id".to_owned()));
    } else {
        match text::parse_usize(&pieces[1]) {
            Some(n) => n,
            None => {
                return Err(WtError::Parse("No id".to_owned()));
            },
        }
    };
    let title = match html::fragment_first_text(frag, ".subj") {
        Some(t) => text::string_of_chars(&text::trim_chars(&text::chars_of_str(t.as_str()))),
        None => {
            return Err(WtError::Parse("No title".to_owned()));
        },
    };
    let thumbnail = match html::fragment_first_attr(frag, ".img_area > img", "src") {
        Some(Some(t)) => t,
        Some(None) => {
            return Err(WtError::Parse("No src".to_owned()));
        },
        None => {
            return Err(WtError::Parse("No thumbnail".to_owned()));
        },
    };
    let creator = match html::fragment_first_text(frag, ".author") {
        Some(a) => text::string_of_chars(&text::trim_chars(&text::chars_of_str(a.as_str()))),
        None => {
            return Err(WtError::Parse("No author".to_owned()));
        },
    };
    Ok(
        WebtoonSearchInfo {
            id: WebtoonId { wt_id, wt_type: WtType::Canvas },
            title,
            thumbnail,
            creator: Some(creator),
        },
    )
}

/// Parse one page of the popularity-sorted Canvas catalog, in page order.
pub fn parse_canvas_page(page_html: &str) -> (r: Result<Vec<WebtoonSearchInfo>, WtError>)
    ensures
        ({
            let frags = html::doc_fragments(page_html@, canvas_entry_selector());
            match r {
                Ok(ws) => ws@.len() == frags.len() && forall|k: int|
                    0 <= k < frags.len() ==> canvas_entry_matches(frags[k], #[trigger] ws@[k]),
                Err(er) => er matches WtError::Parse(m) && exists|k: int|
                    0 <= k < frags.len() && #[trigger] canvas_entry_error(frags[k]) == Some(m@) && (
                    forall|j: int| 0 <= j < k ==> canvas_entry_error(frags[j]) is None),
            }
        }),
{
    let frags = html::select_fragments(page_html, ".challenge_lst li");
    let ghost gfrags = html::doc_fragments(page_html@, canvas_entry_selector());
    let mut ws: Vec<WebtoonSearchInfo> = Vec::new();
    let mut i: usize = 0;
    while i < frags.len()
        invariant
            0 <= i <= frags@.len(),
            gfrags == html::doc_fragments(page_html@, canvas_entry_selector()),
            frags@.len() == gfrags.len(),
            forall|k: int| 0 <= k < gfrags.len() ==> frags@[k]@ == gfrags[k],
            ws@.len() == i,
            forall|k: int| 0 <= k < i ==> canvas_entry_matches(gfrags[k], #[trigger] ws@[k]),
        decreases frags@.len() - i,
    {
        match parse_canvas_entry(frags[i].as_str()) {
            Ok(w) => {
                ws.push(w);
                i = i + 1;
            },
            Err(er) => {
                proof {
                    let m = er->Parse_0;
                    assert(canvas_entry_error(gfrags[i as int]) == Some(m@));
                    assert forall|j: int| 0 <= j < i implies canvas_entry_error(gfrags[j])
                        is None by {
                        assert(canvas_entry_matches(gfrags[j], ws@[j]));
                    }
                    assert(exists|k: int|
                        0 <= k < gfrags.len() && #[trigger] canvas_entry_error(gfrags[k]) == Some(
                            m@,
                        ) && (forall|j: int| 0 <= j < k ==> canvas_entry_error(gfrags[j]) is None));
                }
                return Err(er);
            },
        }
    }
    Ok(ws)
}

/// Merge the two homepage listings and shuffle the result, so repeated
/// homepage loads vary: the outcome holds exactly the records of both lists.
pub fn merge_recommendations(originals: Vec<WebtoonSearchInfo>, canvas: Vec<WebtoonSearchInfo>) -> (
    r: Vec<WebtoonSearchInfo>)
    ensures
        r@.len() == originals@.len() + canvas@.len(),
        r@.to_multiset() == (originals@ + canvas@).to_multiset(),
{
    let mut merged = originals;
    let mut incoming = canvas;
    let ghost before = merged@;
    merged.append(&mut incoming);
    proof {
        assert(merged@.to_multiset() =~= merged@.to_multiset());
    }
    shuffle_results(&mut merged);
    merged
}

} // verus!
