use aura::online::bing::{convert_bing_image, BingImage};
use aura::online::cache::{
    clean_filename, clean_title_filename, download_candidates, is_downloaded, is_partial_download, legacy_online_dir, thumbs_online_cache_dir,
    user_pictures_dir, wallpapers_online_dir,
};
use aura::online::minimalistic::{capitalize_words, parse_minimal_filename, try_parse_minimal_filename};
use aura::online::models::{OnlineSource, OnlineWallpaperItem};
use aura::online::motionbgs::{build_catalog_url, form_urlencoded, parse_motionbgs_html};
use aura::online::updater::{is_newer_version, parse_semver, select_download_url};
use aura::online::wallhaven::{convert_wallhaven_item, search_query_params, wallhaven_items, WallhavenItem, WallhavenThumbs};

#[test]
fn test_convert_bing_image() {
    let raw = BingImage {
        urlbase: Some("/th?id=OHR.MountFuji_EN-US123".into()),
        copyright: Some("Mount Fuji in Japan (© Photographer/Getty)".into()),
        title: Some("Mount Fuji".into()),
        startdate: Some("20260904".into()),
        hsh: Some("abc123hash".into()),
    };

    let item = convert_bing_image(raw).expect("Conversion should succeed");
    assert_eq!(item.id, "abc123hash");
    assert_eq!(item.title, "Mount Fuji");
    assert_eq!(item.date, Some("2026-09-04".into()));
    assert_eq!(item.source, OnlineSource::Bing);
    assert!(item.full_url.contains("/th?id=OHR.MountFuji_EN-US123_UHD.jpg"));
    assert!(item.thumb_url.contains("480"));
}

#[test]
fn test_clean_filename() {
    let name = clean_filename("bing", "OHR.MountFuji_EN-US123", "jpg");
    assert_eq!(name, "bing_OHR_MountFuji_EN-US123.jpg");

    let name_symbols = clean_filename("wallhaven", "x9k!@#$%-test", "png");
    assert_eq!(name_symbols, "wallhaven_x9k_____-test.png");
}

#[test]
fn test_directories_non_empty() {
    let pictures = user_pictures_dir(None, Some("/home/test"), None, false, false);
    let wall_dir = wallpapers_online_dir(&pictures);
    let thumb_dir = thumbs_online_cache_dir(None, Some("/home/test"));
    assert!(wall_dir.contains("Wallpapers/Aura") || wall_dir.contains("aura"));
    assert!(thumb_dir.contains("online_thumbs"));
}

#[test]
fn test_parse_minimal_filename() {
    let (title, author) = parse_minimal_filename("alena-aenami-clouds.jpg");
    assert_eq!(title, "Clouds");
    assert_eq!(author, "Alena Aenami");

    let (title2, author2) = parse_minimal_filename("OGARart-eagle-mountain-sunset-minimalist.jpg");
    assert_eq!(title2, "Eagle Mountain Sunset Minimalist");
    assert_eq!(author2, "OGARart");

    let (title3, author3) = parse_minimal_filename("Electronic_Sample_96-calm-night.png");
    assert_eq!(title3, "Calm Night");
    assert_eq!(author3, "Electronic Sample 96");

    let (title4, author4) = parse_minimal_filename("unknown-forest-dawn.jpg");
    assert_eq!(title4, "Forest Dawn");
    assert_eq!(author4, "Minimalist");
}

#[test]
fn test_item_extensions_and_prefix() {
    let item = OnlineWallpaperItem {
        id: "bing_123".into(),
        title: "Test Image".into(),
        author_or_copyright: "Bing".into(),
        thumb_url: "https://bing.com/thumb.jpg".into(),
        full_url: "https://bing.com/full_uhd.png".into(),
        resolution: "3840x2160".into(),
        source: OnlineSource::Bing,
        date: Some("2026-09-04".into()),
    };

    assert_eq!(item.extension(), "png");
    assert_eq!(item.thumb_extension(), "jpg");
    assert_eq!(item.source_prefix(), "bing");
    assert_eq!(item.wallpaper_filename(), "Test Image.png");
    assert!(item.local_wallpaper_path("/home/u/Pictures/Wallpapers/Aura").ends_with("Test Image.png"));
    assert!(item.local_thumb_path("/home/u/.cache/aura/online_thumbs").ends_with("bing_bing_123.jpg"));

    let minimal_item = OnlineWallpaperItem {
        id: "minimal_alena-aenami-clouds_jpg".into(),
        title: "Clouds".into(),
        author_or_copyright: "Alena Aenami".into(),
        thumb_url: "https://raw.githubusercontent.com/test.jpg".into(),
        full_url: "https://raw.githubusercontent.com/test.jpg".into(),
        resolution: "2K QHD".into(),
        source: OnlineSource::Minimalistic,
        date: None,
    };

    assert_eq!(minimal_item.source_prefix(), "minimal");
    assert_eq!(minimal_item.wallpaper_filename(), "Alena Aenami - Clouds.jpg");
}

#[test]
fn test_parse_motionbgs_html() {
    let sample_html = r#"
        <div class=tmb>
            <a title="Celestial Battle Gojo vs Mahoraga live wallpaper" href=/celestial-battle-gojo-vs-mahoraga>
                <figure><picture>
                    <img src=/i/c/364x205/media/9967/celestial-battle-gojo-vs-mahoraga.3840x2160.jpg width=364>
                </picture></figure>
                <span class=ttl>Celestial Battle Gojo vs Mahoraga</span>
                <span class=frm> 4K </span>
            </a>
            <a title="Dark Angel Rising live wallpaper" href=/dark-angel-rising>
                <figure><picture>
                    <img src=/i/c/364x205/media/10102/dark-angel-rising.3840x2160.jpg width=364>
                </picture></figure>
                <span class=ttl>Dark Angel Rising</span>
                <span class=frm> 4K </span>
            </a>
        </div>
        "#;

    let items = parse_motionbgs_html(sample_html, "4k", "anime");
    assert_eq!(items.len(), 2);

    assert_eq!(items[0].id, "9967");
    assert_eq!(items[0].title, "Celestial Battle Gojo vs Mahoraga");
    assert_eq!(items[0].resolution, "4K UHD");
    assert_eq!(items[0].full_url, "https://motionbgs.com/dl/4k/9967/");
    assert_eq!(items[0].thumb_url, "https://motionbgs.com/i/c/364x205/media/9967/celestial-battle-gojo-vs-mahoraga.3840x2160.jpg");
    assert_eq!(items[0].author_or_copyright, "MotionBGS (Anime)");
    assert_eq!(items[0].source, OnlineSource::MotionBGS);

    assert_eq!(items[1].id, "10102");
    assert_eq!(items[1].title, "Dark Angel Rising");
    assert_eq!(items[1].full_url, "https://motionbgs.com/dl/4k/10102/");
}

#[test]
fn test_build_catalog_url() {
    assert_eq!(build_catalog_url("all", 1), "https://motionbgs.com/");
    assert_eq!(build_catalog_url("all", 2), "https://motionbgs.com/2/");
    assert_eq!(build_catalog_url("anime", 1), "https://motionbgs.com/tag:anime/");
    assert_eq!(build_catalog_url("anime", 3), "https://motionbgs.com/tag:anime/3/");
}

#[test]
fn test_form_urlencoded() {
    assert_eq!(form_urlencoded("gojo satoru"), "gojo+satoru");
    assert_eq!(form_urlencoded("cyberpunk 2077!"), "cyberpunk+2077%21");
}

#[test]
fn test_parse_semver() {
    assert_eq!(parse_semver("1.1.0"), (1, 1, 0));
    assert_eq!(parse_semver("v1.1.2"), (1, 1, 2));
    assert_eq!(parse_semver("2.0.0-beta"), (2, 0, 0));
}

#[test]
fn updater_test_is_newer_version() {
    assert!(is_newer_version("1.1.2", "1.1.1"));
    assert!(is_newer_version("v1.2.0", "v1.1.9"));
    assert!(!is_newer_version("1.1.0", "1.1.1"));
    assert!(!is_newer_version("1.1.1", "1.1.1"));
}

#[test]
fn pictures_dir_sources() {
    assert_eq!(user_pictures_dir(Some("/data/Bilder\n"), Some("/home/u"), None, true, true), "/data/Bilder");
    assert_eq!(user_pictures_dir(Some("relative"), Some("/home/u"), None, true, true), "/home/u/Imágenes");
    let dirs = "# comment\nXDG_DESKTOP_DIR=\"$HOME/Desktop\"\n  XDG_PICTURES_DIR=\"$HOME/Fotos\"\n";
    assert_eq!(user_pictures_dir(None, Some("/home/u"), Some(dirs), true, true), "/home/u/Fotos");
    assert_eq!(user_pictures_dir(None, Some("/home/u"), Some("x"), false, true), "/home/u/Pictures");
    assert_eq!(user_pictures_dir(None, None, Some(dirs), true, true), "/tmp");
    assert_eq!(wallpapers_online_dir("/home/u/Pictures"), "/home/u/Pictures/Wallpapers/Aura");
    assert_eq!(legacy_online_dir(None, Some("/home/u")), "/home/u/.local/share/aura/wallpapers/online");
    assert_eq!(legacy_online_dir(Some("/d"), Some("/home/u")), "/d/aura/wallpapers/online");
    assert_eq!(thumbs_online_cache_dir(Some("/c"), None), "/c/aura/online_thumbs");
}

#[test]
fn downloads_and_titles() {
    let c = download_candidates("/w", "bing", "a.b");
    assert_eq!(c[0], "/w/bing_a_b.jpg");
    assert_eq!(is_downloaded(&c, &vec![None, Some(10), Some(2048), Some(4096)]), Some(c[2].clone()));
    assert_eq!(is_downloaded(&c, &vec![None]), None);
    assert_eq!(clean_title_filename(" What: a \"day\"? "), "What_ a _day__");
}

#[test]
fn minimal_names_and_words() {
    assert_eq!(capitalize_words(&"hello big world".chars().collect::<Vec<char>>()).iter().collect::<String>(), "Hello Big World");
    assert!(try_parse_minimal_filename("plain.jpg").is_some());
}

#[test]
fn wallhaven_params_and_items() {
    let p = search_query_params(2, Some("  cats "), "110", "toplist");
    assert_eq!(p.len(), 7);
    assert_eq!(p[3], ("page".to_string(), "2".to_string()));
    assert_eq!(p[5], ("topRange".to_string(), "1M".to_string()));
    assert_eq!(p[6], ("q".to_string(), "cats".to_string()));
    let raw = WallhavenItem {
        id: "x9k123".into(),
        resolution: Some("3840x2160".into()),
        path: Some("https://w.wallhaven.cc/full/x9/wallhaven-x9k123.jpg".into()),
        thumbs: Some(WallhavenThumbs { large: None, small: Some("https://th.wallhaven.cc/small/x9/x9k123.jpg".into()) }),
        category: Some("anime".into()),
    };
    let item = convert_wallhaven_item(&raw).expect("has an image");
    assert_eq!(item.thumb_url, "https://th.wallhaven.cc/small/x9/x9k123.jpg");
    assert_eq!(item.source, OnlineSource::Wallhaven);
    assert!(wallhaven_items(&vec![]).is_err());
}

#[test]
fn release_asset_choice() {
    let assets = vec![
        ("aura.tar.gz.sha256".to_string(), Some("u0".to_string())),
        ("aura-v1.3.3-linux-x86_64.tar.gz".to_string(), Some("u1".to_string())),
        ("aura-linux-arm64.tar.gz".to_string(), Some("u2".to_string())),
    ];
    assert_eq!(select_download_url(&assets), Some("u1".to_string()));
    assert_eq!(select_download_url(&vec![]), None);
}

#[test]
fn written_versions_read_back() {
    for &(a, b, c) in &[(0u32, 0u32, 0u32), (1, 2, 3), (10, 0, 42), (4294967295, 7, 4294967295)] {
        assert_eq!(parse_semver(&format!("{}.{}.{}", a, b, c)), (a, b, c));
        assert_eq!(parse_semver(&format!("v{}.{}.{}", a, b, c)), (a, b, c));
        assert_eq!(parse_semver(&a.to_string()), (a, 0, 0));
    }
}

#[test]
fn form_encoding_is_plain_and_distinct() {
    let inputs = ["", " ", "+", "%2B", "a b", "a+b", "é", "%C3%A9", "naïve café", "~-_."];
    let encoded: Vec<String> = inputs.iter().map(|s| form_urlencoded(s)).collect();
    for e in &encoded {
        assert!(e.chars().all(|c| c.is_ascii() && c != ' ' && !c.is_ascii_control()));
    }
    for i in 0..encoded.len() {
        for j in 0..encoded.len() {
            if i != j {
                assert_ne!(encoded[i], encoded[j]);
            }
        }
    }
    assert_eq!(form_urlencoded("é"), "%C3%A9");
    assert_eq!(form_urlencoded("a b+c"), "a+b%2Bc");
}

#[test]
fn partial_downloads_are_recognised() {
    assert!(is_partial_download("wallhaven_abc.tmp"));
    assert!(is_partial_download("bing_x.tmp.jpg"));
    assert!(!is_partial_download("bing_x.jpg"));
    assert!(!is_partial_download("clip.tmp.mp4"));
    assert!(!is_partial_download("tmp"));
}
