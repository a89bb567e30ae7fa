use animedl::anime::{Episode, Quality};
use animedl::cache::{Cache, CacheError, Stored};
use animedl::download::{
    confirms, episode_file, expected_size, is_confirmation, partition, prepare_download,
    DownloadError,
};
use animedl::fetch::{FetchError, Pager, FIRST_POST_PAGE, LIST_URL};
use animedl::parser::{first_line_of, Page, ParseError, Parser};
use animedl::settings::{Options, Settings, SettingsError};
use animedl::text::decimal_string;

const LISTING: &str = "<html><body><div class=\"all_anime_global\"><a href=\"/naruto/\">Naruto\nShippuden</a></div><div class=\"all_anime_global other\"><a href=\"/bleach/\">  Bleach  </a></div></body></html>";
const SHOW: &str = "<html><body><a class=\"short-btn\" href=\"/naruto/episode-1.html\">Episode 1</a><a class=\"short-btn green\" href=\"/naruto/episode-2.html\">Episode 2</a></body></html>";
const EPISODE: &str = "<html><body><video><source res=\"720\" src=\"https://cdn.example/720.mp4\"><source res=\"1080\" src=\"https://cdn.example/1080.mp4\"><source res=\"720\" src=\"https://cdn.example/other.mp4\"></video></body></html>";

fn sizes(chunks: &Vec<Vec<u32>>) -> Vec<usize> {
    chunks.iter().map(|c| c.len()).collect()
}

#[test]
fn five_episodes_two_workers_make_chunks_of_three_and_two() {
    let chunks = partition(vec![1u32, 2, 3, 4, 5], 2);
    assert_eq!(sizes(&chunks), vec![3, 2]);
    assert_eq!(chunks.concat(), vec![1, 2, 3, 4, 5]);
}

#[test]
fn chunk_count_is_min_of_workers_and_items() {
    let chunks = partition(vec![1u32, 2, 3, 4, 5], 4);
    assert_eq!(sizes(&chunks), vec![2, 1, 1, 1]);
    assert_eq!(chunks.concat(), vec![1, 2, 3, 4, 5]);
    let chunks = partition(vec![7u32, 8, 9], 10);
    assert_eq!(sizes(&chunks), vec![1, 1, 1]);
    let chunks = partition(vec![1u32, 2, 3, 4, 5, 6], 3);
    assert_eq!(sizes(&chunks), vec![2, 2, 2]);
    let chunks = partition(vec![1u32, 2, 3], 1);
    assert_eq!(sizes(&chunks), vec![3]);
}

#[test]
fn no_items_make_no_chunks() {
    let chunks = partition(Vec::<u32>::new(), 3);
    assert!(chunks.is_empty());
}

#[test]
fn pagination_concatenates_pages_until_sentinel() {
    let mut pager = Pager::new(String::from("<seed>"), FIRST_POST_PAGE);
    assert_eq!(pager.request_body(), "ajax_load=yes&start_from_page=2&show_search=&anime_of_user=");
    assert_eq!(pager.on_response(200, String::from("<page-two>")).unwrap(), true);
    assert_eq!(pager.request_body(), "ajax_load=yes&start_from_page=3&show_search=&anime_of_user=");
    assert_eq!(pager.on_response(200, String::from("<page-three>")).unwrap(), true);
    assert_eq!(pager.on_response(200, String::from("empty")).unwrap(), false);
    assert!(pager.finished);
    assert_eq!(pager.html, "<seed><page-two><page-three>");
    assert_eq!(pager.page, 3);
    assert_eq!(LIST_URL, "https://jut.su/anime/");
}

#[test]
fn pagination_with_immediate_sentinel_keeps_seed() {
    let mut pager = Pager::new(String::from("<seed>"), FIRST_POST_PAGE);
    assert_eq!(pager.on_response(200, String::from("empty")).unwrap(), false);
    assert_eq!(pager.html, "<seed>");
    assert_eq!(pager.page, 1);
}

#[test]
fn pagination_fails_on_bad_status() {
    let mut pager = Pager::new(String::from("<seed>"), 5);
    assert_eq!(pager.on_response(503, String::from("<x>")), Err(FetchError::Status(503)));
    assert_eq!(pager.html, "<seed>");
    assert_eq!(pager.page, 5);
}

#[test]
fn pagination_stops_at_page_limit() {
    let mut pager = Pager::new(String::new(), u64::MAX);
    assert_eq!(pager.on_response(200, String::from("<x>")), Err(FetchError::PageLimit));
}

#[test]
fn decimal_formatting() {
    assert_eq!(decimal_string(0), "0");
    assert_eq!(decimal_string(7), "7");
    assert_eq!(decimal_string(1234), "1234");
    assert_eq!(decimal_string(u64::MAX), "18446744073709551615");
}

#[test]
fn quality_tiers_classify() {
    let url = String::from("https://cdn.example/a.mp4");
    let cases = [("360", 0u8), ("480", 1), ("720", 2), ("1080", 3)];
    for (res, rank) in cases {
        let q = Quality::classify(&String::from(res), url.clone()).unwrap();
        assert_eq!(q.rank(), rank);
        assert_eq!(q.val(), url);
    }
    assert!(matches!(Quality::classify(&String::from("360"), url.clone()), Ok(Quality::Q360P(_))));
    assert!(matches!(Quality::classify(&String::from("1080"), url.clone()), Ok(Quality::Q1080P(_))));
    assert_eq!(
        Quality::classify(&String::from("240"), url.clone()).unwrap_err(),
        ParseError::UnknownQualityTier
    );
    assert_eq!(
        Quality::classify(&String::from("720p"), url).unwrap_err(),
        ParseError::UnknownQualityTier
    );
}

#[test]
fn tier_equality_ignores_url() {
    let a = Quality::Q720P(String::from("https://a"));
    let b = Quality::Q720P(String::from("https://b"));
    let c = Quality::Q1080P(String::from("https://a"));
    assert!(a.equal(&b));
    assert!(a != b);
    assert!(!a.equal(&c));
    assert!(a == Quality::Q720P(String::from("https://a")));
    assert_eq!(a.empty().val(), "");
    assert_eq!(Quality::arr()[2].val(), "720p");
}

#[test]
fn listing_extraction() {
    let parser = Parser::new();
    let shows = parser.parse_anime_list(String::from(LISTING)).unwrap();
    assert_eq!(shows.len(), 2);
    assert_eq!(shows[0].name, "Naruto");
    assert_eq!(shows[0].url, "https://jut.su/naruto/");
    assert_eq!(shows[1].name, "Bleach");
    assert_eq!(shows[1].url, "https://jut.su/bleach/");
    assert!(shows[0].episodes.is_empty());
}

#[test]
fn extraction_is_deterministic() {
    let parser = Parser::new();
    let a = parser.parse_anime_list(String::from(LISTING)).unwrap();
    let b = parser.parse_anime_list(String::from(LISTING)).unwrap();
    assert_eq!(a.len(), b.len());
    for (x, y) in a.iter().zip(b.iter()) {
        assert_eq!(x.name, y.name);
        assert_eq!(x.url, y.url);
    }
    let e1 = parser.parse_anime(String::from(SHOW)).unwrap();
    let e2 = parser.parse_anime(String::from(SHOW)).unwrap();
    assert_eq!(e1.episodes.len(), e2.episodes.len());
    for (x, y) in e1.episodes.iter().zip(e2.episodes.iter()) {
        assert_eq!(x.name, y.name);
        assert_eq!(x.url, y.url);
    }
}

#[test]
fn listing_node_without_link_fails() {
    let parser = Parser::new();
    let html = "<div class=\"all_anime_global\">Naruto</div>";
    let r = parser.parse_anime_list(String::from(html));
    assert_eq!(r.unwrap_err(), ParseError::Extraction);
}

#[test]
fn listing_node_with_empty_name_fails() {
    let parser = Parser::new();
    let html = "<div class=\"all_anime_global\"><a href=\"/x/\">   </a></div>";
    let r = parser.parse_anime_list(String::from(html));
    assert_eq!(r.unwrap_err(), ParseError::Extraction);
}

#[test]
fn show_page_extraction() {
    let parser = Parser::new();
    let show = parser.parse_anime(String::from(SHOW)).unwrap();
    assert_eq!(show.episodes.len(), 2);
    assert_eq!(show.episodes[0].name, "Episode 1");
    assert_eq!(show.episodes[0].url, "https://jut.su/naruto/episode-1.html");
    assert_eq!(show.episodes[1].url, "https://jut.su/naruto/episode-2.html");
    assert!(show.episodes[1].quality.is_empty());
    let bad = parser.parse_anime(String::from("<a class=\"short-btn\">1</a>"));
    assert_eq!(bad.unwrap_err(), ParseError::Extraction);
}

#[test]
fn episode_page_variants_unique_by_tier() {
    let parser = Parser::new();
    let ep = parser.parse_episode(String::from(EPISODE)).unwrap();
    assert_eq!(ep.quality.len(), 2);
    assert_eq!(ep.quality[0].rank(), 2);
    assert_eq!(ep.quality[0].val(), "https://cdn.example/720.mp4");
    assert_eq!(ep.quality[1].rank(), 3);
}

#[test]
fn episode_page_unknown_tier_fails() {
    let parser = Parser::new();
    let html = "<video><source res=\"720\" src=\"a\"><source res=\"240\" src=\"b\"></video>";
    assert_eq!(parser.parse_episode(String::from(html)).unwrap_err(), ParseError::UnknownQualityTier);
    let html = "<video><source res=\"720\"></video>";
    assert_eq!(parser.parse_episode(String::from(html)).unwrap_err(), ParseError::Extraction);
}

#[test]
fn source_node_reads_as_variant() {
    let html = "<video><source res=\"480\" src=\"https://cdn.example/480.mp4\"></video>";
    let page = Page::new(String::from(html));
    let mut found = None;
    for node in 0..64 {
        if let Ok(q) = Quality::from(&page, node) {
            found = Some(q);
            break;
        }
    }
    let q = found.unwrap();
    assert_eq!(q.rank(), 1);
    assert_eq!(q.val(), "https://cdn.example/480.mp4");
    assert_eq!(Quality::from(&page, usize::MAX).unwrap_err(), ParseError::Extraction);
}

#[test]
fn catalog_list_is_copied() {
    let parser = Parser::new();
    let mut cache = Cache::defaults();
    let mut pager = cache.begin_refresh(String::from(LISTING));
    pager.on_response(200, String::from("empty")).unwrap();
    cache.finish_refresh(&parser, pager).unwrap();
    let list = cache.get_anime_list();
    assert_eq!(list.len(), 2);
    assert_eq!(list[0].name, "Naruto");
    assert_eq!(list[1].url, "https://jut.su/bleach/");
}

#[test]
fn first_line_and_trim() {
    assert_eq!(first_line_of("a\nb"), "a");
    assert_eq!(first_line_of("abc"), "abc");
    assert_eq!(first_line_of("\nabc"), "");
    assert_eq!(first_line_of(""), "");
}

#[test]
fn download_preparation() {
    let parser = Parser::new();
    let ep = Episode::new(String::from("Ep 1"), String::from("https://jut.su/e1"), Vec::new());
    let want = Quality::Q1080P(String::new());
    let job = prepare_download(&parser, ep.clone(), String::from(EPISODE), &want).unwrap();
    assert_eq!(job.url, "https://cdn.example/1080.mp4");
    assert_eq!(job.path, "./data/anime/Ep 1.mp4");
    assert_eq!(job.name, "Ep 1");
    let missing = Quality::Q360P(String::new());
    let r = prepare_download(&parser, ep.clone(), String::from(EPISODE), &missing);
    assert_eq!(r.unwrap_err(), DownloadError::QualityUnavailable);
    let html = "<video><source res=\"999\" src=\"x\"></video>";
    let r = prepare_download(&parser, ep, String::from(html), &want);
    assert_eq!(r.unwrap_err(), DownloadError::Parse(ParseError::UnknownQualityTier));
}

#[test]
fn content_length_is_required() {
    assert_eq!(expected_size(Some(42)), Ok(42));
    assert_eq!(expected_size(None), Err(DownloadError::MissingContentLength));
}

#[test]
fn episode_file_name() {
    assert_eq!(episode_file(&String::from("abc")), "./data/anime/abc.mp4");
}

#[test]
fn confirmation_answers() {
    assert!(is_confirmation("y"));
    assert!(is_confirmation("Y"));
    assert!(is_confirmation("YeS"));
    assert!(!is_confirmation("no"));
    assert!(!is_confirmation(""));
    assert!(confirms(&String::from("yes")));
    assert!(!confirms(&String::from("Yes")));
}

#[test]
fn corrupt_catalog_loads_as_default() {
    let corrupt = Cache::load(Stored::Invalid);
    let missing = Cache::load(Stored::NoFile);
    let no_dir = Cache::load(Stored::NoFolder);
    for c in [&corrupt, &missing, &no_dir] {
        assert_eq!(c.path, "./data/cache.json");
        assert_eq!(c.pages, 0);
        assert!(c.anime.is_empty());
        assert_eq!(c.settings.settings.len(), 1);
        assert_eq!(c.settings.settings[0].0, corrupt.settings.settings[0].0);
        assert!(!c.settings.settings[0].1);
    }
}

#[test]
fn well_formed_catalog_loads_as_is() {
    let stored = Cache::new(String::from("/tmp/c.json"), Settings::defaults(), 9, Vec::new());
    let c = Cache::load(Stored::Parsed(stored));
    assert_eq!(c.path, "/tmp/c.json");
    assert_eq!(c.pages, 9);
}

#[test]
fn refresh_replaces_shows_and_records_pages() {
    let parser = Parser::new();
    let mut cache = Cache::defaults();
    let mut pager = cache.begin_refresh(String::from(LISTING));
    assert_eq!(pager.page, 2);
    pager.on_response(200, String::from("empty")).unwrap();
    cache.finish_refresh(&parser, pager).unwrap();
    assert_eq!(cache.anime.len(), 2);
    assert_eq!(cache.pages, 1);
    assert_eq!(cache.anime_url(1).unwrap(), "https://jut.su/bleach/");
    assert_eq!(cache.anime_url(2), Err(CacheError::NotFound));
    let show = cache.get_anime(&parser, 0, String::from(SHOW)).unwrap();
    assert_eq!(show.episodes.len(), 2);
    assert_eq!(show.name, "Naruto");
    assert_eq!(show.url, "https://jut.su/naruto/");
    assert_eq!(show.episodes[1].name, "Episode 2");
    assert_eq!(cache.get_anime(&parser, 5, String::from(SHOW)).unwrap_err(), CacheError::NotFound);
}

#[test]
fn settings_reset_on_extra_key() {
    let name = Options::arr()[0].val();
    let mut s = Settings::new(vec![(name.clone(), true), (String::from("stale"), true)]);
    s.change_option(name.clone()).unwrap();
    assert_eq!(s.settings.len(), 1);
    assert_eq!(s.settings[0].0, name);
    assert!(s.settings[0].1);
}

#[test]
fn settings_reset_on_missing_key() {
    let name = Options::arr()[0].val();
    let mut s = Settings::new(vec![(String::from("other"), true)]);
    s.change_option(name.clone()).unwrap();
    assert_eq!(s.settings, vec![(name, true)]);
    let mut empty = Settings::new(Vec::new());
    empty.check_settings();
    assert_eq!(empty.settings.len(), 1);
    assert!(!empty.settings[0].1);
}

#[test]
fn settings_toggle_keeps_matching_shape() {
    let name = Options::arr()[0].val();
    let mut s = Settings::new(vec![(name.clone(), true)]);
    s.change_option(name.clone()).unwrap();
    assert_eq!(s.settings, vec![(name.clone(), false)]);
    s.change_option(name.clone()).unwrap();
    assert_eq!(s.settings, vec![(name.clone(), true)]);
    assert_eq!(s.change_option(String::from("nope")), Err(SettingsError::UnknownOption));
    assert_eq!(s.settings, vec![(name, true)]);
}
