//! Cache locations and file names of thumbnails and of down-scaled images.
use vstd::prelude::*;
use vstd::string::StringSliceAdditionalSpecFns;
use crate::text::{chars_of, decimal, owned, push_char, push_chars, push_decimal, push_str, string_of};
use crate::unicode::{char_is_alphanumeric, is_unicode_alphanumeric};
use crate::paths::{file_stem, join, path_file_stem, path_join};

verus! {

/// The FNV-1a offset basis.
pub open spec fn fnv_offset() -> u64 {
    0xcbf29ce484222325
}

/// The FNV-1a prime.
pub open spec fn fnv_prime() -> u64 {
    0x100000001b3
}

/// One FNV-1a step: xor the byte in, multiply by the prime modulo 2^64.
pub open spec fn fnv_step(h: u64, b: u8) -> u64 {
    (((h ^ (b as u64)) as nat * fnv_prime() as nat) % 0x1_0000_0000_0000_0000) as u64
}

/// The 64-bit FNV-1a hash of a byte sequence.
pub open spec fn fnv1a(bytes: Seq<u8>) -> u64
    decreases bytes.len(),
{
    if bytes.len() == 0 {
        fnv_offset()
    } else {
        fnv_step(fnv1a(bytes.drop_last()), bytes.last())
    }
}

/// A fast deterministic hash of a byte string (64-bit FNV-1a), used to keep
/// cached file names apart.
pub fn md5_simple(bytes: &[u8]) -> (h: u64)
    ensures
        h == fnv1a(bytes@),
{
    let mut hash: u64 = 0xcbf29ce484222325;
    let mut i: usize = 0;
    proof {
        assert(bytes@.take(0) =~= Seq::<u8>::empty());
    }
    while i < bytes.len()
        invariant
            i <= bytes@.len(),
            hash == fnv1a(bytes@.take(i as int)),
        decreases bytes.len() - i,
    {
        proof {
            assert(bytes@.take(i + 1).drop_last() =~= bytes@.take(i as int));
        }
        hash = hash ^ (bytes[i] as u64);
        hash = hash.wrapping_mul(0x100000001b3);
        i = i + 1;
    }
    proof {
        assert(bytes@.take(bytes@.len() as int) =~= bytes@);
    }
    hash
}

/// Lower-case hexadecimal digit.
pub open spec fn hex_lower_digit(d: nat) -> char {
    seq!['0', '1', '2', '3', '4', '5', '6', '7', '8', '9', 'a', 'b', 'c', 'd', 'e', 'f'][d as int]
}

/// The last `n` hexadecimal digits of `v`, zero-padded (lower case).
pub open spec fn hex_width(v: nat, n: nat) -> Seq<char>
    decreases n,
{
    if n == 0 {
        seq![]
    } else {
        hex_width(v / 16, (n - 1) as nat).push(hex_lower_digit(v % 16))
    }
}

fn hex_digit(d: u64) -> (c: char)
    requires
        d < 16,
    ensures
        c == hex_lower_digit(d as nat),
{
    if d == 0 { '0' } else if d == 1 { '1' } else if d == 2 { '2' } else if d == 3 { '3' }
    else if d == 4 { '4' } else if d == 5 { '5' } else if d == 6 { '6' } else if d == 7 { '7' }
    else if d == 8 { '8' } else if d == 9 { '9' } else if d == 10 { 'a' } else if d == 11 { 'b' }
    else if d == 12 { 'c' } else if d == 13 { 'd' } else if d == 14 { 'e' } else { 'f' }
}

fn hex_digits(v: u64, n: u64) -> (r: Vec<char>)
    ensures
        r@ == hex_width(v as nat, n as nat),
        r@.len() == n,
    decreases n,
{
    if n == 0 {
        Vec::new()
    } else {
        let mut r = hex_digits(v / 16, n - 1);
        r.push(hex_digit(v % 16));
        r
    }
}

/// `v` in lower-case hexadecimal, zero-padded to sixteen digits (what
/// `format!("{:016x}", v)` gives).
pub fn hex_u64_padded(v: u64) -> (r: String)
    ensures
        r@ == hex_width(v as nat, 16),
{
    string_of(&hex_digits(v, 16))
}

/// The characters kept in a cached file name: Unicode letters and digits,
/// `_` and `-`.
pub open spec fn keep_name_char(c: char) -> bool {
    is_unicode_alphanumeric(c) || c == '_' || c == '-'
}

/// The characters of `s` that are kept in a cached file name.
pub open spec fn name_chars(s: Seq<char>) -> Seq<char>
    decreases s.len(),
{
    if s.len() == 0 {
        seq![]
    } else if keep_name_char(s.last()) {
        name_chars(s.drop_last()).push(s.last())
    } else {
        name_chars(s.drop_last())
    }
}

/// At most the first `n` kept characters of `s`.
pub open spec fn clean_stem(s: Seq<char>, n: nat) -> Seq<char> {
    let k = name_chars(s);
    if k.len() <= n { k } else { k.take(n as int) }
}

fn clean_stem_exec(s: &Vec<char>, n: usize) -> (r: Vec<char>)
    ensures
        r@ == clean_stem(s@, n as nat),
{
    let mut out: Vec<char> = Vec::new();
    proof {
        assert(s@.take(0) =~= Seq::<char>::empty());
    }
    for i in 0..s.len()
        invariant
            out@ == name_chars(s@.take(i as int)),
    {
        proof {
            assert(s@.take(i + 1).drop_last() =~= s@.take(i as int));
        }
        let c = s[i];
        if char_is_alphanumeric(c) || c == '_' || c == '-' {
            out.push(c);
        }
    }
    proof {
        assert(s@.take(s@.len() as int) =~= s@);
    }
    if out.len() <= n {
        out
    } else {
        crate::text::slice_chars(&out, 0, n)
    }
}

/// The first eight hexadecimal digits of the sixteen-digit hash of a path.
pub open spec fn path_hash8(path: Seq<char>) -> Seq<char> {
    hex_width(fnv1a(vstd::utf8::encode_utf8(path)) as nat, 16).take(8)
}

fn hash8(path: &str) -> (r: Vec<char>)
    ensures
        r@ == path_hash8(path@),
{
    let bytes = path.as_bytes();
    let h = md5_simple(bytes);
    assert(h == fnv1a(vstd::utf8::encode_utf8(path@)));
    let digits = hex_digits(h, 16);
    crate::text::slice_chars(&digits, 0, 8)
}

/// The stem of a path, or `fallback` when it has none.
pub open spec fn stem_or(path: Seq<char>, fallback: Seq<char>) -> Seq<char> {
    match file_stem(path) {
        Some(s) => s,
        None => fallback,
    }
}

/// The thumbnail file of a media file: `<clean stem>_<hash>.jpg` in the cache
/// folder, where the clean stem keeps at most 60 letters, digits, `_` and `-`
/// of the file stem (`video` when there is none) and the hash is the first
/// eight hexadecimal digits of the hash of the full path.
pub open spec fn thumb_path_spec(cache_dir: Seq<char>, video_path: Seq<char>) -> Seq<char> {
    join(cache_dir, clean_stem(stem_or(video_path, "video"@), 60) + "_"@ + path_hash8(video_path) + ".jpg"@)
}

pub fn thumb_path_for_video(cache_dir: &str, video_path: &str) -> (r: String)
    ensures
        r@ == thumb_path_spec(cache_dir@, video_path@),
{
    let stem = match path_file_stem(video_path) {
        Some(s) => s,
        None => chars_of("video"),
    };
    let clean = clean_stem_exec(&stem, 60);
    let h = hash8(video_path);
    let mut name = string_of(&clean);
    push_char(&mut name, '_');
    push_chars(&mut name, &h);
    push_str(&mut name, ".jpg");
    proof {
        reveal_strlit("_");
        assert(name@ =~= clean_stem(stem_or(video_path@, "video"@), 60) + "_"@ + path_hash8(video_path@) + ".jpg"@);
    }
    path_join(cache_dir, name.as_str())
}

/// An image larger than the allowed size in either dimension is scaled down
/// before it is shown.
pub open spec fn needs_scaling(w: u32, h: u32, max_w: u32, max_h: u32) -> bool {
    !(w <= max_w && h <= max_h)
}

pub fn image_needs_scaling(w: u32, h: u32, max_w: u32, max_h: u32) -> (r: bool)
    ensures
        r == needs_scaling(w, h, max_w, max_h),
{
    !(w <= max_w && h <= max_h)
}

/// The cached file of a down-scaled image:
/// `<clean stem>_<hash>_<mtime>_<max_w>x<max_h>.jpg` in the cache folder,
/// where the clean stem keeps at most 50 characters (`img` when the path has
/// no stem).
pub open spec fn scaled_path_spec(cache_dir: Seq<char>, image_path: Seq<char>, mtime: u64, max_w: u32, max_h: u32) -> Seq<char> {
    join(cache_dir, clean_stem(stem_or(image_path, "img"@), 50) + "_"@ + path_hash8(image_path) + "_"@
        + decimal(mtime as nat) + "_"@ + decimal(max_w as nat) + "x"@ + decimal(max_h as nat) + ".jpg"@)
}

pub fn scaled_image_path(cache_dir: &str, image_path: &str, mtime: u64, max_w: u32, max_h: u32) -> (r: String)
    ensures
        r@ == scaled_path_spec(cache_dir@, image_path@, mtime, max_w, max_h),
{
    let stem = match path_file_stem(image_path) {
        Some(s) => s,
        None => chars_of("img"),
    };
    let clean = clean_stem_exec(&stem, 50);
    let h = hash8(image_path);
    let mut name = string_of(&clean);
    push_char(&mut name, '_');
    push_chars(&mut name, &h);
    push_char(&mut name, '_');
    push_decimal(&mut name, mtime);
    push_char(&mut name, '_');
    push_decimal(&mut name, max_w as u64);
    push_char(&mut name, 'x');
    push_decimal(&mut name, max_h as u64);
    push_str(&mut name, ".jpg");
    proof {
        reveal_strlit("_");
        reveal_strlit("x");
        assert(name@ =~= clean_stem(stem_or(image_path@, "img"@), 50) + "_"@ + path_hash8(image_path@) + "_"@
            + decimal(mtime as nat) + "_"@ + decimal(max_w as nat) + "x"@ + decimal(max_h as nat) + ".jpg"@);
    }
    path_join(cache_dir, name.as_str())
}

/// The cache base folder: `XDG_CACHE_HOME` when it is set and not empty,
/// else `<HOME>/.cache` (with `/tmp` for a missing home).
pub open spec fn cache_base(xdg_cache: Option<Seq<char>>, home: Option<Seq<char>>) -> Seq<char> {
    match xdg_cache {
        Some(x) => if x.len() != 0 {
            x
        } else {
            join(match home { Some(h) => h, None => "/tmp"@ }, ".cache"@)
        },
        None => join(match home { Some(h) => h, None => "/tmp"@ }, ".cache"@),
    }
}

pub fn cache_base_exec(xdg_cache: Option<&str>, home: Option<&str>) -> (r: String)
    ensures
        r@ == cache_base(match xdg_cache { Some(x) => Some(x@), None => None }, match home { Some(h) => Some(h@), None => None }),
{
    let h = match home {
        Some(h) => h,
        None => "/tmp",
    };
    match xdg_cache {
        Some(x) => if !x.is_empty() {
            owned(x)
        } else {
            path_join(h, ".cache")
        },
        None => path_join(h, ".cache"),
    }
}

/// The folder of video thumbnails, from `XDG_CACHE_HOME` and `HOME` as read
/// from the environment.
pub fn get_cache_dir(xdg_cache: Option<&str>, home: Option<&str>) -> (r: String)
    ensures
        r@ == join(cache_base(match xdg_cache { Some(x) => Some(x@), None => None }, match home { Some(h) => Some(h@), None => None }), "aura/thumbs"@),
{
    let base = cache_base_exec(xdg_cache, home);
    path_join(base.as_str(), "aura/thumbs")
}

/// The folder of down-scaled images, from `XDG_CACHE_HOME` and `HOME`.
pub fn get_scaled_cache_dir(xdg_cache: Option<&str>, home: Option<&str>) -> (r: String)
    ensures
        r@ == join(cache_base(match xdg_cache { Some(x) => Some(x@), None => None }, match home { Some(h) => Some(h@), None => None }), "aura/scaled"@),
{
    let base = cache_base_exec(xdg_cache, home);
    path_join(base.as_str(), "aura/scaled")
}


/// The arguments of the frame grabber that writes the thumbnail of
/// `media_path` to `thumb_path`: overwrite; for a video, seek one second in
/// and drop audio and subtitles; one frame, scaled to 480 pixels wide.
pub open spec fn thumbnail_args_spec(media_path: Seq<char>, thumb_path: Seq<char>) -> Seq<Seq<char>> {
    let video = !crate::scanner::path_is_image(media_path);
    let a = if video { seq!["-y"@, "-ss"@, "00:00:01"@] } else { seq!["-y"@] };
    let b = a + seq!["-i"@, media_path];
    let c = if video { b + seq!["-an"@, "-sn"@] } else { b };
    c + seq!["-vframes"@, "1"@, "-vf"@, "scale=480:-1"@, thumb_path]
}

fn push_arg(v: &mut Vec<String>, a: &str)
    ensures
        crate::strlist::views(final(v)@) == crate::strlist::views(old(v)@).push(a@),
{
    let ghost before = v@;
    let x = crate::text::owned(a);
    v.push(x);
    proof {
        crate::strlist::lemma_views_push(before, x);
    }
}

/// The arguments of the frame grabber; see `thumbnail_args_spec`.
pub fn thumbnail_args(media_path: &str, thumb_path: &str) -> (r: Vec<String>)
    ensures
        crate::strlist::views(r@) == thumbnail_args_spec(media_path@, thumb_path@),
{
    let video = !crate::scanner::is_image_path(media_path);
    let mut r: Vec<String> = Vec::new();
    push_arg(&mut r, "-y");
    if video {
        push_arg(&mut r, "-ss");
        push_arg(&mut r, "00:00:01");
    }
    push_arg(&mut r, "-i");
    push_arg(&mut r, media_path);
    if video {
        push_arg(&mut r, "-an");
        push_arg(&mut r, "-sn");
    }
    push_arg(&mut r, "-vframes");
    push_arg(&mut r, "1");
    push_arg(&mut r, "-vf");
    push_arg(&mut r, "scale=480:-1");
    push_arg(&mut r, thumb_path);
    proof {
        assert(crate::strlist::views(r@) =~= thumbnail_args_spec(media_path@, thumb_path@));
    }
    r
}

} // verus!
