use aura::scanner::size::format_file_size;
use aura::scanner::thumbs::{
    get_cache_dir, get_scaled_cache_dir, hex_u64_padded, image_needs_scaling, md5_simple, scaled_image_path, thumb_path_for_video,
};
use aura::scanner::{is_supported_wallpaper_ext, VideoItem, IMAGE_EXTENSIONS, VIDEO_EXTENSIONS};
use std::path::Path;

#[test]
fn test_format_file_size() {
    assert_eq!(format_file_size(0), "0 B");
    assert_eq!(format_file_size(500), "500 B");
    assert_eq!(format_file_size(1024), "1 KB");
    assert_eq!(format_file_size(1536), "2 KB");
    assert_eq!(format_file_size(10 * 1024 * 1024), "10.0 MB");
    assert_eq!(format_file_size(2 * 1024 * 1024 * 1024), "2.0 GB");
}

#[test]
fn test_video_extensions() {
    assert!(VIDEO_EXTENSIONS.contains(&"mp4"));
    assert!(VIDEO_EXTENSIONS.contains(&"webm"));
    assert!(VIDEO_EXTENSIONS.contains(&"mkv"));
    assert!(VIDEO_EXTENSIONS.contains(&"avi"));
    assert!(VIDEO_EXTENSIONS.contains(&"mov"));
    assert!(!VIDEO_EXTENSIONS.contains(&"png"));
    assert!(!VIDEO_EXTENSIONS.contains(&"exe"));
}

#[test]
fn test_image_and_supported_extensions() {
    assert!(IMAGE_EXTENSIONS.contains(&"jpg"));
    assert!(IMAGE_EXTENSIONS.contains(&"jpeg"));
    assert!(IMAGE_EXTENSIONS.contains(&"png"));
    assert!(IMAGE_EXTENSIONS.contains(&"webp"));
    assert!(is_supported_wallpaper_ext("mp4"));
    assert!(is_supported_wallpaper_ext("JPG"));
    assert!(is_supported_wallpaper_ext("PNG"));
    assert!(!is_supported_wallpaper_ext("exe"));
    assert!(!is_supported_wallpaper_ext("txt"));
}

#[test]
fn test_video_item_methods() {
    let online_dir = "/home/antwny/Pictures/Wallpapers/Aura";
    let vid = VideoItem::new("/home/antwny/Videos/cool.mp4".into(), "cool".into(), "10 MB".into(), None, online_dir);
    assert!(vid.is_video());
    assert!(!vid.is_image());
    assert!(!vid.is_downloaded());

    let img = VideoItem::new(format!("{}/bing_123.jpg", online_dir), "bing_123".into(), "2 MB".into(), None, online_dir);
    assert!(!img.is_video());
    assert!(img.is_image());
    assert!(img.is_downloaded());
}

#[test]
fn test_md5_simple_deterministic() {
    let h1 = md5_simple(b"/home/user/Videos/wallpaper.mp4");
    let h2 = md5_simple(b"/home/user/Videos/wallpaper.mp4");
    let h3 = md5_simple(b"/home/user/Videos/other.mp4");
    assert_eq!(h1, h2);
    assert_ne!(h1, h3);
}

#[test]
fn test_thumb_path_for_video() {
    let cache_dir = get_cache_dir(None, Some("/home/user"));
    let p = "/path/to/my video file!.mp4";
    let thumb = thumb_path_for_video(&cache_dir, p);
    let file_name = Path::new(&thumb).file_name().unwrap().to_str().unwrap();
    assert!(file_name.starts_with("myvideofile_"));
    assert!(file_name.ends_with(".jpg"));
    assert!(Path::new(&thumb).starts_with(&cache_dir));
}

#[test]
fn test_hash_leading_zeros_safety() {
    let hash = hex_u64_padded(0u64);
    assert_eq!(hash.len(), 16);
    assert_eq!(&hash[..8], "00000000");
}

#[test]
fn fnv_known_values() {
    assert_eq!(md5_simple(b""), 0xcbf29ce484222325);
    assert_eq!(md5_simple(b"a"), 0xaf63dc4c8601ec8c);
    assert_eq!(hex_u64_padded(0xaf63dc4c8601ec8c), "af63dc4c8601ec8c");
    assert_eq!(hex_u64_padded(255), "00000000000000ff");
}

#[test]
fn thumbnail_names() {
    let t = thumb_path_for_video("/c", "/v/Ünïcödé clip.mp4");
    assert!(t.starts_with("/c/Ünïcödéclip_"));
    let t2 = thumb_path_for_video("/c", "/");
    assert!(t2.starts_with("/c/video_"));
    let s = scaled_image_path("/s", "/p/big pic.png", 17, 7680, 4320);
    assert!(s.starts_with("/s/bigpic_"));
    assert!(s.ends_with("_17_7680x4320.jpg"));
    assert!(image_needs_scaling(8000, 100, 7680, 4320));
    assert!(!image_needs_scaling(7680, 4320, 7680, 4320));
    assert_eq!(get_cache_dir(Some("/xc"), Some("/home/u")), "/xc/aura/thumbs");
    assert_eq!(get_scaled_cache_dir(Some(""), Some("/home/u")), "/home/u/.cache/aura/scaled");
    assert_eq!(get_cache_dir(None, None), "/tmp/.cache/aura/thumbs");
}

#[test]
fn file_sizes_round_half_to_even() {
    assert_eq!(format_file_size(1023), "1023 B");
    assert_eq!(format_file_size(2560), "2 KB");
    assert_eq!(format_file_size(3584), "4 KB");
    assert_eq!(format_file_size(1024 * 1024), "1.0 MB");
}
