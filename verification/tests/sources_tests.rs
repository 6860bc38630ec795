use aura::online::bing::{bing_items, BingImage};
use aura::online::minimalistic::{catalogue_fallback, catalogue_is_fresh, minimal_items, try_minimal_items, CatalogueFailure, MinimalRawEntry};
use aura::online::models::{OnlineSource, OnlineWallpaperItem};
use aura::online::motionbgs::{motionbgs_items, motionbgs_page_url};
use aura::online::updater::{extracted_binary_candidates, first_existing, release_info, release_status_error, update_paths};

fn bing(hsh: &str) -> BingImage {
    BingImage {
        urlbase: Some(format!("/th?id=OHR.{}_EN-US1", hsh)),
        copyright: None,
        title: Some("T".to_string()),
        startdate: Some("20260101".to_string()),
        hsh: Some(hsh.to_string()),
    }
}

fn no_path() -> BingImage {
    BingImage { urlbase: None, copyright: None, title: None, startdate: None, hsh: Some("zzz".to_string()) }
}

fn ids(v: &[OnlineWallpaperItem]) -> Vec<String> {
    v.iter().map(|i| i.id.clone()).collect()
}

#[test]
fn bing_pages_merge_without_repeats() {
    let items = bing_items(Some(vec![bing("a"), no_path()]), Some(vec![bing("a"), bing("b")])).unwrap();
    assert_eq!(ids(&items), vec!["a", "b"]);
    assert_eq!(items[0].source, OnlineSource::Bing);
    assert_eq!(items[0].date, Some("2026-01-01".to_string()));
}

#[test]
fn bing_first_page_is_kept_whole() {
    let items = bing_items(Some(vec![bing("a"), bing("a")]), None).unwrap();
    assert_eq!(ids(&items), vec!["a", "a"]);
    let second_only = bing_items(None, Some(vec![bing("b"), bing("b")])).unwrap();
    assert_eq!(ids(&second_only), vec!["b"]);
}

#[test]
fn bing_without_wallpapers_is_an_error() {
    let msg = "Could not load wallpapers from Bing. Check your internet connection.".to_string();
    assert_eq!(bing_items(None, None).map(|v| v.len()), Err(msg.clone()));
    assert_eq!(bing_items(Some(vec![no_path()]), Some(Vec::new())).map(|v| v.len()), Err(msg));
}

fn json_str(v: &serde_json::Value, key: &str) -> Option<String> {
    v[key].as_str().map(|s| s.to_string())
}

#[test]
fn test_parse_minimalistic_json() {
    let json = r#"[
            {
                "name": "alena-aenami-clouds.jpg",
                "path": "images/alena-aenami-clouds.jpg",
                "download_url": "https://raw.githubusercontent.com/DenverCoder1/minimalistic-wallpaper-collection/main/images/alena-aenami-clouds.jpg",
                "size": 828770
            }
        ]"#;
    let value: serde_json::Value = serde_json::from_str(json).expect("should parse");
    let entries: Vec<MinimalRawEntry> = value
        .as_array()
        .expect("should parse")
        .iter()
        .map(|e| MinimalRawEntry {
            name: json_str(e, "name").unwrap(),
            path: json_str(e, "path"),
            download_url: json_str(e, "download_url").unwrap(),
            size: e["size"].as_u64(),
        })
        .collect();

    let items = minimal_items(&entries);
    assert_eq!(items.len(), 1);
    let item = &items[0];
    assert_eq!(item.source, OnlineSource::Minimalistic);
    assert_eq!(item.title, "Clouds");
    assert_eq!(item.author_or_copyright, "Alena Aenami");
    assert_eq!(item.resolution, "2K QHD");
    assert_eq!(item.id, "minimal_alena-aenami-clouds_jpg");
    let checked = try_minimal_items(&entries).expect("every name can be read");
    assert_eq!(checked.len(), 1);
    assert_eq!(checked[0].title, "Clouds");
    assert_eq!(checked[0].author_or_copyright, "Alena Aenami");
}

#[test]
fn catalogue_cache_policy() {
    assert!(catalogue_is_fresh(0));
    assert!(catalogue_is_fresh(86399));
    assert!(!catalogue_is_fresh(86400));
    let saved = minimal_items(&vec![MinimalRawEntry {
        name: "unknown-forest-dawn.jpg".to_string(),
        path: None,
        download_url: "https://x/f.jpg".to_string(),
        size: None,
    }]);
    let ok = catalogue_fallback(Some(saved), CatalogueFailure::Connection("refused".to_string())).unwrap();
    assert_eq!(ok[0].title, "Forest Dawn");
    assert_eq!(ok[0].resolution, "HD");
    assert_eq!(
        catalogue_fallback(None, CatalogueFailure::Status("500 Internal Server Error".to_string())).map(|v| v.len()),
        Err("HTTP error: 500 Internal Server Error".to_string())
    );
    assert_eq!(
        catalogue_fallback(None, CatalogueFailure::Connection("refused".to_string())).map(|v| v.len()),
        Err("Connection error: refused".to_string())
    );
    assert_eq!(
        catalogue_fallback(None, CatalogueFailure::Body("cut".to_string())).map(|v| v.len()),
        Err("Error reading response text: cut".to_string())
    );
}

#[test]
fn release_page_is_read() {
    let text = r#"{"tag_name":"v1.4.0","body":"Notes","assets":[
        {"name":"aura-source.zip","browser_download_url":"https://x/src.zip"},
        {"name":"aura-linux-x86_64.tar.gz","browser_download_url":"https://x/aura.tar.gz"},
        {"name":"aura-linux-arm.tar.gz","browser_download_url":"https://x/arm.tar.gz"}]}"#;
    assert_eq!(
        release_info(text),
        Ok(("v1.4.0".to_string(), "Notes".to_string(), Some("https://x/aura.tar.gz".to_string())))
    );
    assert_eq!(release_info(r#"{"tag_name":"v2"}"#), Ok(("v2".to_string(), String::new(), None)));
    assert_eq!(
        release_info(r#"{"tag_name":"v2","assets":[{"browser_download_url":"https://x/a"},{"name":"linux.tar.gz"}]}"#),
        Ok(("v2".to_string(), String::new(), None))
    );
    assert_eq!(release_info(r#"{"body":"x"}"#), Err("Missing tag_name in release".to_string()));
    assert_eq!(release_info("[1, 2]"), Err("Missing tag_name in release".to_string()));
    let bad = release_info("nope").unwrap_err();
    assert_eq!(bad, "Failed to parse GitHub response: error decoding response body");
}

#[test]
fn release_page_status() {
    assert_eq!(release_status_error(200, "200 OK"), None);
    assert_eq!(release_status_error(404, "404 Not Found"), Some("No public releases found on GitHub.".to_string()));
    assert_eq!(
        release_status_error(500, "500 Internal Server Error"),
        Some("GitHub API returned status code 500 Internal Server Error".to_string())
    );
}

#[test]
fn update_install_locations() {
    assert_eq!(
        update_paths("/home/u"),
        ("/home/u/.local/bin/aura".to_string(), "/home/u/.local/bin/aura.new".to_string())
    );
    let cands = extracted_binary_candidates("/tmp/x", &vec!["/tmp/x/aura-1.4".to_string()]);
    assert_eq!(cands, vec!["/tmp/x/aura".to_string(), "/tmp/x/aura-1.4/aura".to_string()]);
    assert_eq!(first_existing(&cands, &vec![false, true]), Some("/tmp/x/aura-1.4/aura".to_string()));
    assert_eq!(first_existing(&cands, &vec![true, true]), Some("/tmp/x/aura".to_string()));
    assert_eq!(first_existing(&cands, &vec![false, false]), None);
}

#[test]
fn motionbgs_listing_urls() {
    assert_eq!(motionbgs_page_url(1, Some(" gojo satoru "), "anime"), "https://motionbgs.com/search?q=gojo+satoru");
    assert_eq!(motionbgs_page_url(2, Some("gojo"), "anime"), "https://motionbgs.com/search?q=gojo&page=2");
    assert_eq!(motionbgs_page_url(1, Some("   "), "anime"), "https://motionbgs.com/tag:anime/");
    assert_eq!(motionbgs_page_url(3, None, "all"), "https://motionbgs.com/3/");
    assert_eq!(
        motionbgs_items("<html></html>", "4k", "all").map(|v| v.len()),
        Err("No live wallpapers found on MotionBGS for this query.".to_string())
    );
}
