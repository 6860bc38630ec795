use aura::scanner::collect::{build_library, scan_roots, text_le_exec, FoundFile};
use aura::scanner::thumbs::thumbnail_args;

fn found(path: &str, size: u64, thumb: Option<&str>) -> FoundFile {
    FoundFile { path: path.to_string(), size, thumb_path: thumb.map(|t| t.to_string()) }
}

#[test]
fn online_folder_is_searched_first() {
    let dirs = vec!["/v".to_string(), "/p".to_string()];
    assert_eq!(scan_roots(&dirs, "/o"), vec!["/o".to_string(), "/v".to_string(), "/p".to_string()]);
    let with = vec!["/v".to_string(), "/o".to_string()];
    assert_eq!(scan_roots(&with, "/o"), with);
    assert_eq!(scan_roots(&Vec::new(), "/o"), vec!["/o".to_string()]);
}

#[test]
fn text_order_is_by_character_code() {
    assert!(text_le_exec("abc", "abd"));
    assert!(!text_le_exec("abd", "abc"));
    assert!(text_le_exec("ab", "abc"));
    assert!(!text_le_exec("abc", "ab"));
    assert!(text_le_exec("", ""));
    assert!(text_le_exec("B", "a"));
    assert!(text_le_exec("same", "same"));
}

#[test]
fn library_filters_dedups_and_sorts() {
    let dir_files = vec![
        found("/w/b/Zeta.mp4", 2048, None),
        found("/w/b/notes.txt", 10, None),
        found("/w/b/alpha.PNG", 500, Some("/c/t.jpg")),
        found("/w/b/Zeta.mp4", 1, None),
    ];
    let extra = vec![
        found("/x/beta.mkv", 1024, None),
        found("/w/b/alpha.PNG", 7, None),
        found("/x/noext", 0, None),
    ];
    let lib = build_library(dir_files, extra, "/w");
    let names: Vec<&str> = lib.iter().map(|v| v.name.as_str()).collect();
    assert_eq!(names, vec!["alpha", "beta", "noext", "Zeta"]);

    assert_eq!(lib[0].path, "/w/b/alpha.PNG");
    assert_eq!(lib[0].name_lower, "alpha");
    assert_eq!(lib[0].size_formatted, "500 B");
    assert_eq!(lib[0].thumb_path, Some("/c/t.jpg".to_string()));
    assert!(!lib[0].is_video);
    assert!(lib[0].is_downloaded);

    assert_eq!(lib[1].path, "/x/beta.mkv");
    assert_eq!(lib[1].size_formatted, "1 KB");
    assert!(lib[1].is_video);
    assert!(!lib[1].is_downloaded);

    assert_eq!(lib[2].path, "/x/noext");
    assert_eq!(lib[2].size_formatted, "0 B");
    assert!(!lib[2].is_video);

    assert_eq!(lib[3].path, "/w/b/Zeta.mp4");
    assert_eq!(lib[3].name_lower, "zeta");
    assert_eq!(lib[3].size_formatted, "2 KB");
    assert!(lib[3].is_video);
    assert!(lib[3].is_downloaded);
}

#[test]
fn equal_names_keep_the_order_met() {
    let dir_files = vec![found("/a/Same.mp4", 1, None), found("/b/same.webm", 2, None), found("/c/Other.mov", 3, None)];
    let lib = build_library(dir_files, Vec::new(), "/o");
    let paths: Vec<&str> = lib.iter().map(|v| v.path.as_str()).collect();
    assert_eq!(paths, vec!["/c/Other.mov", "/a/Same.mp4", "/b/same.webm"]);
}

#[test]
fn a_file_without_a_name_is_called_wallpaper() {
    let lib = build_library(Vec::new(), vec![found("/x/..", 0, None)], "/o");
    assert_eq!(lib.len(), 1);
    assert_eq!(lib[0].name, "Wallpaper");
    assert_eq!(lib[0].name_lower, "wallpaper");
}

#[test]
fn empty_scan_gives_empty_library() {
    assert!(build_library(Vec::new(), Vec::new(), "/o").is_empty());
    let only_unsupported = vec![found("/a/readme.md", 5, None), found("/a/setup.exe", 9, None)];
    assert!(build_library(only_unsupported, Vec::new(), "/o").is_empty());
}

#[test]
fn thumbnail_grabber_arguments() {
    assert_eq!(
        thumbnail_args("/v/a.mp4", "/t/a.jpg"),
        vec!["-y", "-ss", "00:00:01", "-i", "/v/a.mp4", "-an", "-sn", "-vframes", "1", "-vf", "scale=480:-1", "/t/a.jpg"]
    );
    assert_eq!(
        thumbnail_args("/p/b.PNG", "/t/b.jpg"),
        vec!["-y", "-i", "/p/b.PNG", "-vframes", "1", "-vf", "scale=480:-1", "/t/b.jpg"]
    );
}

#[test]
fn the_same_place_written_twice_counts_once() {
    let dir_files = vec![found("/w/b/alpha.png", 5, None), found("/w//b/./alpha.png", 6, None)];
    let extra = vec![found("/w/b/alpha.png/", 7, None), found("w/b/alpha.png", 8, None)];
    let lib = build_library(dir_files, extra, "/o");
    let paths: Vec<&str> = lib.iter().map(|v| v.path.as_str()).collect();
    assert_eq!(paths, vec!["/w/b/alpha.png", "w/b/alpha.png"]);
    assert_eq!(aura::paths::paths_equal("/a//b/", "/a/b"), true);
    assert_eq!(aura::paths::paths_equal("/a/b", "a/b"), false);
    assert_eq!(aura::paths::paths_equal("/a/b", "/a/c"), false);
}
