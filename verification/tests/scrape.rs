use fosstoon::episodes::{
    episode_for_number, generate_webtoon_url, parse_episode_detail, parse_episode_entry,
    parse_episode_page, EpisodeScrape,
};
use fosstoon::types::{EpisodePreview, ScrapEdgeCase, WebtoonId, WtError, WtType};

fn entry_html(number: usize, title: &str) -> String {
    let mut s = String::new();
    s.push_str("<li class=\"_episodeItem\">");
    s.push_str("<a href=\"https://www.webtoons.com/en/x/y/ep");
    s.push_str(&number.to_string());
    s.push_str("/viewer?title_no=1&episode_no=");
    s.push_str(&number.to_string());
    s.push_str("\">");
    s.push_str("<span class=\"thmb\"><img src=\"https://cdn.example.com/thumb");
    s.push_str(&number.to_string());
    s.push_str(".jpg\"></span>");
    s.push_str("<span class=\"subj\"><span>");
    s.push_str(title);
    s.push_str("</span></span>");
    s.push_str("<span class=\"date\"> Mar 3, 2024 </span>");
    s.push_str("<span class=\"like_area\">like12,345</span>");
    s.push_str("<span class=\"tx\">#");
    s.push_str(&number.to_string());
    s.push_str("</span>");
    s.push_str("</a></li>");
    s
}

fn page_html(numbers: &[usize]) -> String {
    let mut s = String::from("<html><body><ul id=\"_listUl\">");
    for n in numbers {
        s.push_str(&entry_html(*n, "An Episode"));
    }
    s.push_str("</ul></body></html>");
    s
}

fn wid() -> WebtoonId {
    WebtoonId::new(1, WtType::Original)
}

#[test]
fn entry_parses_every_field() {
    let ep = parse_episode_entry(wid(), &entry_html(3, "Episode ThreeUP")).unwrap();
    assert_eq!(ep.number, 3);
    assert_eq!(ep.title, "Episode Three");
    assert_eq!(ep.thumbnail, "https://cdn.example.com/thumb3.jpg");
    assert_eq!(ep.likes, 12345);
    assert_eq!(ep.posted_at, "Mar 3, 2024");
    assert_eq!(
        ep.ep_url,
        "https://www.webtoons.com/en/x/y/ep3/viewer?title_no=1&episode_no=3"
    );
    assert_eq!(ep.parent_wt_id, wid());
}

#[test]
fn entry_without_number_errors() {
    let broken = "<li><a href=\"u\"><span class=\"date\">d</span></a></li>";
    match parse_episode_entry(wid(), broken) {
        Err(WtError::Parse(m)) => assert_eq!(m, "No ep num"),
        other => panic!("expected a parse error, got {:?}", other),
    }
}

#[test]
fn page_parses_in_page_order() {
    let eps = parse_episode_page(wid(), &page_html(&[3, 2, 1])).unwrap();
    let nums: Vec<usize> = eps.iter().map(|e| e.number).collect();
    assert_eq!(nums, vec![3, 2, 1]);
}

#[test]
fn full_scrape_over_two_pages_is_dense_ascending() {
    let mut scrape = EpisodeScrape::new(wid(), 1, ScrapEdgeCase::Inclusive);
    assert_eq!(scrape.progress, 0);
    let page1 = parse_episode_page(wid(), &page_html(&[5, 4])).unwrap();
    scrape.ingest_page(&page1);
    assert!(!scrape.done);
    assert_eq!(scrape.progress, 10);
    let page2 = parse_episode_page(wid(), &page_html(&[3, 2, 1])).unwrap();
    scrape.ingest_page(&page2);
    assert!(scrape.done);
    assert_eq!(scrape.progress, 20);
    let eps = scrape.finish();
    let nums: Vec<usize> = eps.iter().map(|e| e.number).collect();
    assert_eq!(nums, vec![1, 2, 3, 4, 5]);
}

#[test]
fn incremental_scrape_keeps_only_new_episodes() {
    let mut scrape = EpisodeScrape::new(wid(), 3, ScrapEdgeCase::Exclusive);
    let page = parse_episode_page(wid(), &page_html(&[5, 4, 3, 2, 1])).unwrap();
    scrape.ingest_page(&page);
    assert!(scrape.done);
    let eps = scrape.finish();
    let nums: Vec<usize> = eps.iter().map(|e| e.number).collect();
    assert_eq!(nums, vec![4, 5]);
}

#[test]
fn incremental_scrape_with_nothing_new_is_empty() {
    let mut scrape = EpisodeScrape::new(wid(), 3, ScrapEdgeCase::Exclusive);
    let page = parse_episode_page(wid(), &page_html(&[3, 2, 1])).unwrap();
    scrape.ingest_page(&page);
    assert!(scrape.done);
    assert!(scrape.finish().is_empty());
}

#[test]
fn repeated_number_stops_without_error() {
    let mut scrape = EpisodeScrape::new(wid(), 1, ScrapEdgeCase::Inclusive);
    let page = parse_episode_page(wid(), &page_html(&[5, 4, 4, 3])).unwrap();
    scrape.ingest_page(&page);
    assert!(scrape.done);
    let eps = scrape.finish();
    let nums: Vec<usize> = eps.iter().map(|e| e.number).collect();
    assert_eq!(nums, vec![4, 4, 5]);
}

#[test]
fn page_urls_follow_the_resolved_base() {
    let mut scrape = EpisodeScrape::new(
        WebtoonId::new(95, WtType::Original),
        1,
        ScrapEdgeCase::Inclusive,
    );
    assert_eq!(
        scrape.current_url(),
        "https://www.webtoons.com/en/*/*/list?title_no=95&page=1"
    );
    scrape.record_resolved_url("https://www.webtoons.com/en/fantasy/tower/list?title_no=95".to_string());
    let page = parse_episode_page(wid(), &page_html(&[5, 4])).unwrap();
    scrape.ingest_page(&page);
    assert_eq!(
        scrape.current_url(),
        "https://www.webtoons.com/en/fantasy/tower/list?title_no=95&page=2"
    );
}

#[test]
fn canvas_list_url_uses_the_canvas_path() {
    assert_eq!(
        generate_webtoon_url(WebtoonId::new(843910, WtType::Canvas)),
        "https://www.webtoons.com/en/canvas/*/list?title_no=843910"
    );
}

fn reader_html(with_note: bool) -> String {
    let mut s = String::from("<html><body><div id=\"_imageList\">");
    s.push_str("<img data-url=\"https://cdn.example.com/p1.jpg\" src=\"l\">");
    s.push_str("<img data-url=\"https://cdn.example.com/p2.jpg\" src=\"l\">");
    s.push_str("</div><div class=\"author_area\">");
    s.push_str(
        "<a class=\"author_name\" href=\"https://www.webtoons.com/en/creator/abc123\">Jane</a>",
    );
    s.push_str("<span class=\"profile\"><img src=\"https://cdn.example.com/auth.jpg\"></span>");
    s.push_str("</div>");
    if with_note {
        s.push_str("<p class=\"author_text\">thanks for reading</p>");
    }
    s.push_str("</body></html>");
    s
}

#[test]
fn reader_page_parses_panels_and_author() {
    let preview = parse_episode_entry(wid(), &entry_html(2, "Two")).unwrap();
    let d = parse_episode_detail(&preview, &reader_html(true)).unwrap();
    assert_eq!(
        d.panels,
        vec![
            "https://cdn.example.com/p1.jpg".to_string(),
            "https://cdn.example.com/p2.jpg".to_string()
        ]
    );
    assert_eq!(d.author_note.as_deref(), Some("thanks for reading"));
    assert_eq!(d.author_name, "Jane");
    assert_eq!(d.author_id.as_deref(), Some("abc123"));
    assert_eq!(d.author_thumb, "https://cdn.example.com/auth.jpg");
    assert_eq!(d.number, 2);
}

#[test]
fn reader_page_without_note_is_fine() {
    let preview = parse_episode_entry(wid(), &entry_html(2, "Two")).unwrap();
    let d = parse_episode_detail(&preview, &reader_html(false)).unwrap();
    assert!(d.author_note.is_none());
}

fn preview(n: usize) -> EpisodePreview {
    parse_episode_entry(wid(), &entry_html(n, "T")).unwrap()
}

#[test]
fn episode_lookup_by_number() {
    let eps = vec![preview(1), preview(2), preview(3)];
    let (ep, has_next) = episode_for_number(&eps, 2).unwrap();
    assert_eq!(ep.number, 2);
    assert!(has_next);
    let (ep, has_next) = episode_for_number(&eps, 3).unwrap();
    assert_eq!(ep.number, 3);
    assert!(!has_next);
    assert!(matches!(
        episode_for_number(&eps, 0),
        Err(WtError::NotFound(_))
    ));
    assert!(matches!(
        episode_for_number(&eps, 4),
        Err(WtError::NotFound(_))
    ));
}
