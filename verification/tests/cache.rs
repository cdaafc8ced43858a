use std::collections::HashMap;

use fosstoon::episodes::{parse_episode_page, EpisodeScrape};
use fosstoon::freshness::{bump_refresh_clock, freshness_decision, CacheAction};
use fosstoon::image_cache::{
    derive_filename, derive_path, plan_fetches, plan_image_paths, FetchProgress,
};
use fosstoon::metadata::{
    append_new_episodes, apply_refresh, expiries_from, parse_webtoon_page, poster_filename,
    poster_path,
};
use fosstoon::posts::{collect_top_posts, RawPost};
use fosstoon::search::{
    canvas_url, merge_recommendations, originals_url, parse_canvas_page, parse_originals_page,
    parse_search_page, random_canvas_page, search_url,
};
use fosstoon::store::{change_language, mark_as_read, subscribe, unsubscribe};
use fosstoon::types::{
    Genre, Language, Schedule, ScrapEdgeCase, UserData, Weekday, WebtoonId, WebtoonInfo, WtType,
};

#[test]
fn filenames_come_from_the_last_segment() {
    assert_eq!(
        derive_filename("https://cdn.example.com/a/b/img.jpg?type=q90"),
        "img.jpg"
    );
    assert_eq!(derive_filename("https://cdn.example.com/plain.png"), "plain.png");
    assert_eq!(derive_filename("noslashes?x=1"), "noslashes");
    assert_eq!(
        derive_path("/cache", "https://cdn.example.com/a/img.jpg"),
        "/cache/img.jpg"
    );
}

#[test]
fn path_list_is_parallel_to_urls() {
    let urls = vec![
        "https://cdn.example.com/a/one.jpg?x=1".to_string(),
        "https://cdn.example.com/b/two.jpg".to_string(),
        "https://cdn.example.com/c/three.png".to_string(),
    ];
    let paths = plan_image_paths("/tmp/cache", &urls);
    assert_eq!(
        paths,
        vec![
            "/tmp/cache/one.jpg".to_string(),
            "/tmp/cache/two.jpg".to_string(),
            "/tmp/cache/three.png".to_string()
        ]
    );
}

#[test]
fn second_run_over_cached_files_fetches_nothing() {
    let urls = vec![
        "https://cdn.example.com/a/one.jpg".to_string(),
        "https://cdn.example.com/b/two.jpg".to_string(),
    ];
    let first = plan_image_paths("/tmp/cache", &urls);
    let to_fetch = plan_fetches(&vec![false, false]);
    assert_eq!(to_fetch, vec![0, 1]);
    let second = plan_image_paths("/tmp/cache", &urls);
    assert_eq!(first, second);
    let to_fetch_again = plan_fetches(&vec![true, true]);
    assert!(to_fetch_again.is_empty());
}

#[test]
fn only_missing_files_are_fetched_in_order() {
    let to_fetch = plan_fetches(&vec![true, false, true, false, false]);
    assert_eq!(to_fetch, vec![1, 3, 4]);
}

#[test]
fn progress_rounds_to_nearest_percent() {
    let mut p = FetchProgress::new(3);
    assert_eq!(p.on_response(), 33);
    assert_eq!(p.on_response(), 67);
    assert_eq!(p.on_response(), 100);
    let mut q = FetchProgress::new(1);
    assert_eq!(q.on_response(), 100);
}

fn info_page(kind: WtType, single_creator: bool) -> String {
    let mut s = String::from("<html><body><div id=\"content\">");
    if let WtType::Original = kind {
        s.push_str(
            "<div class=\"detail_bg\" style=\"background:url('https://cdn.example.com/banner.jpg') repeat-x\"></div>",
        );
    }
    s.push_str("<div class=\"detail_header\">");
    s.push_str("<span class=\"thmb\"><img src=\"https://cdn.example.com/poster.jpg\"></span>");
    s.push_str("<h1 class=\"subj\"> Tower of Trials </h1>");
    if single_creator {
        s.push_str(
            "<div class=\"author_area\"><a href=\"https://www.webtoons.com/en/creator/auth42\">Jane Doe</a></div>",
        );
    } else {
        s.push_str("<div class=\"author_area\">Alice, Bobauthor info</div>");
    }
    s.push_str("<h2 class=\"genre\">Comedy</h2><h2 class=\"genre\">Cooking</h2>");
    s.push_str("</div><div class=\"detail_body\">");
    if let WtType::Original = kind {
        s.push_str("<p class=\"day_info\">UPEvery Mon, Wed</p>");
    }
    s.push_str("<div class=\"grade_area\"><span class=\"cnt\">1.2M</span><span class=\"cnt\">500,211</span></div>");
    s.push_str("<p class=\"summary\"> A funny tale. </p>");
    s.push_str("</div></div></body></html>");
    s
}

#[test]
fn original_info_page_parses_fully() {
    let id = WebtoonId::new(95, WtType::Original);
    let info = parse_webtoon_page(&info_page(WtType::Original, true), id, 1_000_000).unwrap();
    assert_eq!(info.id, id);
    assert_eq!(info.title, "Tower of Trials");
    assert_eq!(info.thumbnail, "https://cdn.example.com/poster.jpg");
    assert_eq!(info.banner.as_deref(), Some("https://cdn.example.com/banner.jpg"));
    assert_eq!(info.creators, vec!["Jane Doe".to_string()]);
    assert_eq!(info.creator_id.as_deref(), Some("auth42"));
    assert_eq!(
        info.genres,
        vec![Genre::Comedy, Genre::Other("Cooking".to_string())]
    );
    assert_eq!(
        info.schedule,
        Some(Schedule::Weekdays(vec![Weekday::Monday, Weekday::Wednesday]))
    );
    assert_eq!(info.views, "1.2M");
    assert_eq!(info.subs, "500,211");
    assert_eq!(info.summary, "A funny tale.");
    assert!(info.episodes.is_none());
    assert_eq!(info.refresh_eps_at, 1_000_000 + 86_400);
    assert_eq!(info.expired_at, 1_000_000 + 864_000);
}

#[test]
fn canvas_info_page_has_no_banner_or_schedule() {
    let id = WebtoonId::new(843910, WtType::Canvas);
    let info = parse_webtoon_page(&info_page(WtType::Canvas, false), id, 42).unwrap();
    assert!(info.banner.is_none());
    assert!(info.schedule.is_none());
    assert_eq!(info.creators, vec!["Alice".to_string(), "Bob".to_string()]);
    assert!(info.creator_id.is_none());
}

#[test]
fn expiry_clocks_and_poster_names() {
    assert_eq!(expiries_from(100), Some((86_500, 864_100)));
    assert_eq!(expiries_from(u64::MAX - 10), None);
    assert_eq!(poster_filename(95), "Thumb_Poster_95.jpg");
    assert_eq!(poster_path("/data", 95), "/data/Thumb_Poster_95.jpg");
}

fn cached_record(refresh_eps_at: u64, expired_at: u64) -> WebtoonInfo {
    let id = WebtoonId::new(95, WtType::Original);
    let mut info = parse_webtoon_page(&info_page(WtType::Original, true), id, 0).unwrap();
    info.refresh_eps_at = refresh_eps_at;
    info.expired_at = expired_at;
    let eps = parse_episode_page(id, &episode_page(&[2, 1])).unwrap();
    let mut scrape = EpisodeScrape::new(id, 1, ScrapEdgeCase::Inclusive);
    scrape.ingest_page(&eps);
    info.episodes = Some(scrape.finish());
    info
}

fn episode_page(numbers: &[usize]) -> String {
    let mut s = String::from("<html><body><ul id=\"_listUl\">");
    for n in numbers {
        s.push_str("<li><a href=\"https://www.webtoons.com/en/x/ep\">");
        s.push_str("<span class=\"thmb\"><img src=\"https://cdn.example.com/t.jpg\"></span>");
        s.push_str("<span class=\"subj\"><span>T</span></span>");
        s.push_str("<span class=\"date\">d</span>");
        s.push_str("<span class=\"like_area\">like1</span>");
        s.push_str(&format!("<span class=\"tx\">#{}</span>", n));
        s.push_str("</a></li>");
    }
    s.push_str("</ul></body></html>");
    s
}

#[test]
fn fresh_record_is_served_unchanged() {
    let now = 1_000;
    let cached = Some(cached_record(now + 5, now + 5));
    let action = freshness_decision(&cached, now);
    assert_eq!(action, CacheAction::ServeCached);
    assert!(!action.writes_back());
}

#[test]
fn expired_metadata_refreshes_but_keeps_episodes() {
    let now = 1_000;
    let cached = cached_record(now + 500, now - 1);
    let action = freshness_decision(&Some(cached.clone()), now);
    assert_eq!(action, CacheAction::RefreshMetadata);
    assert!(action.writes_back());

    let id = cached.id;
    let fresh = parse_webtoon_page(&info_page(WtType::Original, true), id, now).unwrap();
    let old_eps: Vec<usize> = cached
        .episodes
        .as_ref()
        .unwrap()
        .iter()
        .map(|e| e.number)
        .collect();
    let merged = apply_refresh(cached, fresh);
    let new_eps: Vec<usize> = merged
        .episodes
        .as_ref()
        .unwrap()
        .iter()
        .map(|e| e.number)
        .collect();
    assert_eq!(old_eps, new_eps);
    assert_eq!(merged.title, "Tower of Trials");
    assert_eq!(merged.expired_at, now + 864_000);
}

#[test]
fn stale_episode_list_triggers_incremental_sync() {
    let now = 1_000;
    let cached = Some(cached_record(now - 1, now + 500));
    assert_eq!(freshness_decision(&cached, now), CacheAction::UpdateEpisodes);
    let both = Some(cached_record(now - 1, now - 1));
    assert_eq!(freshness_decision(&both, now), CacheAction::RefreshBoth);
}

#[test]
fn empty_cache_forces_a_full_fetch() {
    let now = 1_700_000_000u64;
    assert_eq!(freshness_decision(&None, now), CacheAction::FullFetch);

    let id = WebtoonId::new(843910, WtType::Canvas);
    let mut info = parse_webtoon_page(&info_page(WtType::Canvas, false), id, now).unwrap();
    let entries = parse_episode_page(id, &episode_page(&[3, 2, 1])).unwrap();
    let mut scrape = EpisodeScrape::new(id, 1, ScrapEdgeCase::Inclusive);
    scrape.ingest_page(&entries);
    assert!(scrape.done);
    info.episodes = Some(scrape.finish());

    let eps = info.episodes.as_ref().unwrap();
    let nums: Vec<usize> = eps.iter().map(|e| e.number).collect();
    assert_eq!(nums, vec![1, 2, 3]);
    assert!(info.expired_at >= now + 864_000 && info.expired_at <= now + 864_000 + 5);
}

#[test]
fn appending_a_sync_batch_extends_the_list() {
    let id = WebtoonId::new(95, WtType::Original);
    let mut eps = parse_episode_page(id, &episode_page(&[1])).unwrap();
    let more = parse_episode_page(id, &episode_page(&[2, 3])).unwrap();
    append_new_episodes(&mut eps, more);
    let nums: Vec<usize> = eps.iter().map(|e| e.number).collect();
    assert_eq!(nums, vec![1, 2, 3]);
}

#[test]
fn refresh_clock_can_be_forced_forward() {
    let mut info = cached_record(10, 10);
    bump_refresh_clock(&mut info, 5_000).unwrap();
    assert_eq!(info.refresh_eps_at, 5_000 + 86_400);
    assert_eq!(info.expired_at, 10);
}

#[test]
fn subscriptions_round_trip() {
    let info = cached_record(1, 1);
    let mut data = UserData::new(Language::En, HashMap::new());
    subscribe(&mut data, &info);
    let uw = data.webtoons.get(&95).unwrap();
    assert_eq!(uw.title, "Tower of Trials");
    assert_eq!(uw.creator, "Jane Doe");
    assert!(uw.last_seen.is_none());
    assert!(uw.episode_seen.is_empty());

    mark_as_read(&mut data, 95, 2, 777);
    let uw = data.webtoons.get(&95).unwrap();
    assert_eq!(uw.last_seen, Some(777));
    assert_eq!(uw.episode_seen.get(&2), Some(&true));

    mark_as_read(&mut data, 1234, 1, 777);
    assert!(data.webtoons.get(&1234).is_none());

    change_language(&mut data, Language::Fr);
    assert_eq!(data.language, Language::Fr);

    unsubscribe(&mut data, 95);
    assert!(data.webtoons.get(&95).is_none());
}

#[test]
fn only_top_level_top_comments_are_kept() {
    let raw = |idx: usize, top: bool, comment: bool| RawPost {
        id: format!("p{}", idx),
        content: format!("c{}", idx),
        is_spoiler: false,
        upvotes: idx as u32,
        downvotes: 0,
        posted_at: 100 + idx as u64,
        poster_name: "n".to_string(),
        is_top: top,
        is_comment: comment,
    };
    let id = WebtoonId::new(95, WtType::Original);
    let posts = collect_top_posts(
        id,
        4,
        vec![raw(1, true, true), raw(2, false, true), raw(3, true, false), raw(4, true, true)],
    );
    let ids: Vec<&str> = posts.iter().map(|p| p.id.as_str()).collect();
    assert_eq!(ids, vec!["p1", "p4"]);
    assert_eq!(posts[0].wt_id, id);
    assert_eq!(posts[0].ep_num, 4);
}

fn search_page() -> String {
    let mut s = String::from("<html><body><ul class=\"webtoon_list\">");
    s.push_str("<li><a data-title-no=\"95\" data-webtoon-type=\"WEBTOON\" href=\"#\">");
    s.push_str("<span class=\"image_wrap\"><img src=\"https://cdn.example.com/s1.jpg\"></span>");
    s.push_str(
        "<div class=\"info_text\"><strong class=\"title\"> Tower </strong><span class=\"author\"> SIU </span></div>",
    );
    s.push_str("</a></li>");
    s.push_str("<li><a data-title-no=\"843910\" data-webtoon-type=\"challenge\" href=\"#\">");
    s.push_str("<span class=\"image_wrap\"><img src=\"https://cdn.example.com/s2.jpg\"></span>");
    s.push_str(
        "<div class=\"info_text\"><strong class=\"title\">Doodles</strong><span class=\"author\">Ann</span></div>",
    );
    s.push_str("</a></li>");
    s.push_str("</ul></body></html>");
    s
}

#[test]
fn search_results_carry_id_kind_and_creator() {
    let ws = parse_search_page(&search_page()).unwrap();
    assert_eq!(ws.len(), 2);
    assert_eq!(ws[0].id, WebtoonId::new(95, WtType::Original));
    assert_eq!(ws[0].title, "Tower");
    assert_eq!(ws[0].creator.as_deref(), Some("SIU"));
    assert_eq!(ws[1].id, WebtoonId::new(843910, WtType::Canvas));
    assert_eq!(ws[1].thumbnail, "https://cdn.example.com/s2.jpg");
}

#[test]
fn originals_listing_caps_at_twenty() {
    let mut s = String::from("<html><body><ul class=\"webtoon_list\">");
    for i in 0..25 {
        s.push_str(&format!(
            "<li><a data-title-no=\"{}\" href=\"#\"><span class=\"image_wrap\"><img src=\"t.jpg\"></span><strong class=\"title\">T{}</strong></a></li>",
            i + 1,
            i + 1
        ));
    }
    s.push_str("</ul></body></html>");
    let ws = parse_originals_page(&s).unwrap();
    assert_eq!(ws.len(), 20);
    assert_eq!(ws[0].id, WebtoonId::new(1, WtType::Original));
    assert!(ws[0].creator.is_none());
    assert_eq!(ws[19].id, WebtoonId::new(20, WtType::Original));
}

#[test]
fn canvas_listing_reads_ids_from_hrefs() {
    let mut s = String::from("<html><body><ul class=\"challenge_lst\">");
    s.push_str("<li><a href=\"/en/challenge/doodles/list?title_no=777\">");
    s.push_str("<span class=\"img_area\"><img src=\"https://cdn.example.com/c.jpg\"></span>");
    s.push_str("<strong class=\"subj\"> Doodles </strong><span class=\"author\"> Ann </span>");
    s.push_str("</a></li></ul></body></html>");
    let ws = parse_canvas_page(&s).unwrap();
    assert_eq!(ws.len(), 1);
    assert_eq!(ws[0].id, WebtoonId::new(777, WtType::Canvas));
    assert_eq!(ws[0].title, "Doodles");
    assert_eq!(ws[0].creator.as_deref(), Some("Ann"));
}

#[test]
fn recommendation_urls_and_random_page() {
    assert_eq!(originals_url(), "https://www.webtoons.com/en/originals");
    assert_eq!(
        canvas_url(3),
        "https://www.webtoons.com/en/canvas/list?genreTab=ALL&sortOrder=MANA&page=3"
    );
    for _ in 0..50 {
        let p = random_canvas_page();
        assert!((1..=5).contains(&p));
    }
    assert_eq!(
        search_url("hello world"),
        "https://www.webtoons.com/en/search?keyword=hello%20world"
    );
}

#[test]
fn merged_recommendations_keep_every_record() {
    let originals = parse_search_page(&search_page()).unwrap();
    let canvas = parse_search_page(&search_page()).unwrap();
    let merged = merge_recommendations(originals.clone(), canvas);
    assert_eq!(merged.len(), 4);
    for w in &originals {
        assert!(merged.iter().filter(|m| m.id == w.id).count() == 2);
    }
}
