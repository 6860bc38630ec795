//! MotionBGS (motionbgs.com): catalogue URLs, search encoding and the
//! extraction of wallpapers from a catalogue page.
use vstd::prelude::*;
use vstd::string::StringSliceAdditionalSpecFns;
use vstd::utf8::encode_utf8;
use crate::text::{
    chars_of, contains, contains_seq, decimal, find_in, find_in_range, has_prefix, has_suffix, lemma_find_in,
    lemma_rfind_in, owned, push_char, push_chars, push_decimal, push_str, replace_all, replace_chars,
    rfind_before, rfind_in, slice_chars, string_of, str_eq, trim, trim_chars, utf8_len, utf8_length,
};
use crate::unicode::{
    ascii_lower, ascii_lower_char, char_is_ascii_digit, char_to_uppercase, is_ascii_digit, lowercase,
    to_lowercase, uppercase_of_char,
};
use crate::online::models::{items_view, OnlineItemView, OnlineSource, OnlineWallpaperItem};

verus! {

// ---------------------------------------------------------------------------
// Catalogue URLs
// ---------------------------------------------------------------------------

/// The catalogue page URL of a category: the front page for `all` (or an
/// empty category), a tag page otherwise; pages after the first get their
/// number appended.
pub open spec fn catalog_url(category: Seq<char>, page: u32) -> Seq<char> {
    let cat = lowercase(trim(category));
    if cat.len() == 0 || cat == "all"@ {
        if page <= 1 {
            "https://motionbgs.com/"@
        } else {
            "https://motionbgs.com/"@ + decimal(page as nat) + "/"@
        }
    } else if page <= 1 {
        "https://motionbgs.com/tag:"@ + cat + "/"@
    } else {
        "https://motionbgs.com/tag:"@ + cat + "/"@ + decimal(page as nat) + "/"@
    }
}

pub fn build_catalog_url(category: &str, page: u32) -> (r: String)
    ensures
        r@ == catalog_url(category@, page),
{
    let trimmed = string_of(&trim_chars(&chars_of(category)));
    let cat = to_lowercase(trimmed.as_str());
    if cat.as_str().is_empty() || str_eq(cat.as_str(), "all") {
        if page <= 1 {
            owned("https://motionbgs.com/")
        } else {
            let mut s = owned("https://motionbgs.com/");
            push_decimal(&mut s, page as u64);
            push_str(&mut s, "/");
            s
        }
    } else if page <= 1 {
        let mut s = owned("https://motionbgs.com/tag:");
        push_str(&mut s, cat.as_str());
        push_str(&mut s, "/");
        s
    } else {
        let mut s = owned("https://motionbgs.com/tag:");
        push_str(&mut s, cat.as_str());
        push_str(&mut s, "/");
        push_decimal(&mut s, page as u64);
        push_str(&mut s, "/");
        s
    }
}

// ---------------------------------------------------------------------------
// Form encoding
// ---------------------------------------------------------------------------

/// Upper-case hexadecimal digit.
pub open spec fn hex_upper_digit(d: nat) -> char {
    seq!['0', '1', '2', '3', '4', '5', '6', '7', '8', '9', 'A', 'B', 'C', 'D', 'E', 'F'][d as int]
}

/// Bytes that stay as they are in a form-encoded value: ASCII letters,
/// digits and `- _ . ~`.
pub open spec fn is_unreserved_byte(b: u8) -> bool {
    (97 <= b && b <= 122) || (65 <= b && b <= 90) || (48 <= b && b <= 57) || b == 45 || b == 95 || b == 46 || b == 126
}

fn unreserved(b: u8) -> (r: bool)
    ensures
        r == is_unreserved_byte(b),
{
    (97 <= b && b <= 122) || (65 <= b && b <= 90) || (48 <= b && b <= 57) || b == 45 || b == 95 || b == 46 || b == 126
}

/// The form encoding of one byte: unreserved bytes stay, a space becomes
/// `+`, any other byte becomes `%XX` in upper-case hexadecimal.
pub open spec fn form_encode_byte(b: u8) -> Seq<char> {
    if is_unreserved_byte(b) {
        seq![b as char]
    } else if b == 32 {
        seq!['+']
    } else {
        seq!['%', hex_upper_digit((b / 16) as nat), hex_upper_digit((b % 16) as nat)]
    }
}

/// The form encoding of a byte sequence.
pub open spec fn form_encode(bytes: Seq<u8>) -> Seq<char>
    decreases bytes.len(),
{
    if bytes.len() == 0 {
        seq![]
    } else {
        form_encode(bytes.drop_last()) + form_encode_byte(bytes.last())
    }
}

fn hex_upper(d: u8) -> (c: char)
    requires
        d < 16,
    ensures
        c == hex_upper_digit(d as nat),
{
    if d < 10 {
        if d == 0 { '0' } else if d == 1 { '1' } else if d == 2 { '2' } else if d == 3 { '3' }
        else if d == 4 { '4' } else if d == 5 { '5' } else if d == 6 { '6' } else if d == 7 { '7' }
        else if d == 8 { '8' } else { '9' }
    } else if d == 10 { 'A' } else if d == 11 { 'B' } else if d == 12 { 'C' } else if d == 13 { 'D' }
    else if d == 14 { 'E' } else { 'F' }
}

/// Encodes a search query for a URL (`application/x-www-form-urlencoded`
/// over the UTF-8 bytes of the query).
pub fn form_urlencoded(s: &str) -> (r: String)
    ensures
        r@ == form_encode(s.spec_bytes()),
{
    let bytes = s.as_bytes();
    let mut out = String::new();
    let mut i: usize = 0;
    proof {
        assert(bytes@.take(0) =~= Seq::<u8>::empty());
    }
    while i < bytes.len()
        invariant
            i <= bytes@.len(),
            bytes@ == s.spec_bytes(),
            out@ == form_encode(bytes@.take(i as int)),
        decreases bytes.len() - i,
    {
        let b = bytes[i];
        proof {
            assert(bytes@.take(i + 1).drop_last() =~= bytes@.take(i as int));
        }
        if unreserved(b) {
            push_char(&mut out, b as char);
        } else if b == 32 {
            push_char(&mut out, '+');
        } else {
            push_char(&mut out, '%');
            push_char(&mut out, hex_upper(b / 16));
            push_char(&mut out, hex_upper(b % 16));
        }
        i = i + 1;
    }
    proof {
        assert(bytes@.take(bytes@.len() as int) =~= bytes@);
    }
    out
}

/// The value of an upper-case hexadecimal digit character.
proof fn lemma_hex_digit(d: nat)
    requires
        d < 16,
    ensures
        d < 10 ==> hex_upper_digit(d) as u32 == 48 + d,
        d >= 10 ==> hex_upper_digit(d) as u32 == 55 + d,
{
    let h = seq!['0', '1', '2', '3', '4', '5', '6', '7', '8', '9', 'A', 'B', 'C', 'D', 'E', 'F'];
    if d == 0 { assert(h[0] == '0'); }
    else if d == 1 { assert(h[1] == '1'); }
    else if d == 2 { assert(h[2] == '2'); }
    else if d == 3 { assert(h[3] == '3'); }
    else if d == 4 { assert(h[4] == '4'); }
    else if d == 5 { assert(h[5] == '5'); }
    else if d == 6 { assert(h[6] == '6'); }
    else if d == 7 { assert(h[7] == '7'); }
    else if d == 8 { assert(h[8] == '8'); }
    else if d == 9 { assert(h[9] == '9'); }
    else if d == 10 { assert(h[10] == 'A'); }
    else if d == 11 { assert(h[11] == 'B'); }
    else if d == 12 { assert(h[12] == 'C'); }
    else if d == 13 { assert(h[13] == 'D'); }
    else if d == 14 { assert(h[14] == 'E'); }
    else { assert(h[15] == 'F'); }
}

/// A printable ASCII character other than the space.
pub open spec fn url_safe_char(c: char) -> bool {
    32 < (c as u32) && (c as u32) < 127
}

/// The encoding of one byte is one character (`%` never among them) or
/// `%` and two hexadecimal digits; all of them printable ASCII.
proof fn lemma_piece(b: u8)
    ensures
        form_encode_byte(b).len() == 1 || form_encode_byte(b).len() == 3,
        forall|i: int| 0 <= i < form_encode_byte(b).len() ==> url_safe_char(#[trigger] form_encode_byte(b)[i]),
        form_encode_byte(b).len() == 1 ==> form_encode_byte(b)[0] != '%',
        form_encode_byte(b).len() == 3 ==> form_encode_byte(b)[0] == '%' && form_encode_byte(b)[1] != '%' && form_encode_byte(b)[2] != '%',
{
    if !is_unreserved_byte(b) && b != 32 {
        lemma_hex_digit((b / 16) as nat);
        lemma_hex_digit((b % 16) as nat);
    }
}

/// Different bytes have different encodings.
proof fn lemma_piece_injective(b1: u8, b2: u8)
    requires
        form_encode_byte(b1) == form_encode_byte(b2),
    ensures
        b1 == b2,
{
    lemma_piece(b1);
    lemma_piece(b2);
    let p = form_encode_byte(b1);
    if p.len() == 3 {
        assert(!is_unreserved_byte(b1) && b1 != 32 && !is_unreserved_byte(b2) && b2 != 32);
        lemma_hex_digit((b1 / 16) as nat);
        lemma_hex_digit((b1 % 16) as nat);
        lemma_hex_digit((b2 / 16) as nat);
        lemma_hex_digit((b2 % 16) as nat);
        assert(p[1] == form_encode_byte(b2)[1]);
        assert(p[2] == form_encode_byte(b2)[2]);
        assert(b1 / 16 == b2 / 16);
        assert(b1 % 16 == b2 % 16);
    } else {
        assert(p[0] == form_encode_byte(b2)[0]);
    }
}

/// Every character of an encoding is printable ASCII, never a space.
proof fn lemma_encode_safe(x: Seq<u8>)
    ensures
        forall|i: int| 0 <= i < form_encode(x).len() ==> url_safe_char(#[trigger] form_encode(x)[i]),
        x.len() > 0 ==> form_encode(x).len() > 0,
    decreases x.len(),
{
    if x.len() > 0 {
        lemma_encode_safe(x.drop_last());
        lemma_piece(x.last());
        let e = form_encode(x.drop_last());
        let p = form_encode_byte(x.last());
        assert forall|i: int| 0 <= i < form_encode(x).len() implies url_safe_char(#[trigger] form_encode(x)[i]) by {
            if i < e.len() {
                assert(form_encode(x)[i] == e[i]);
            } else {
                assert(form_encode(x)[i] == p[i - e.len()]);
            }
        }
    }
}

/// The last two characters of an encoding are never `%`.
proof fn lemma_encode_tail(x: Seq<u8>)
    requires
        x.len() > 0,
    ensures
        form_encode(x).last() != '%',
        form_encode(x).len() >= 2 ==> form_encode(x)[form_encode(x).len() - 2] != '%',
    decreases x.len(),
{
    let e = form_encode(x.drop_last());
    let p = form_encode_byte(x.last());
    let s = form_encode(x);
    lemma_piece(x.last());
    assert(s.last() == p[p.len() - 1]);
    if p.len() == 1 && s.len() >= 2 {
        lemma_encode_safe(x.drop_last());
        if x.drop_last().len() == 0 {
            assert(e.len() == 0);
        } else {
            lemma_encode_tail(x.drop_last());
        }
        assert(s[s.len() - 2] == e.last());
    } else if p.len() == 3 {
        assert(s[s.len() - 2] == p[1]);
    }
}

/// Where the encoding of the last byte starts can be read off the text: it
/// is three characters long exactly when the third character from the end
/// is `%`.
proof fn lemma_last_piece(x: Seq<u8>)
    requires
        x.len() > 0,
    ensures
        (form_encode_byte(x.last()).len() == 3) == (form_encode(x).len() >= 3 && form_encode(x)[form_encode(x).len() - 3] == '%'),
{
    let e = form_encode(x.drop_last());
    let p = form_encode_byte(x.last());
    let s = form_encode(x);
    lemma_piece(x.last());
    if p.len() == 3 {
        assert(s[s.len() - 3] == p[0]);
    } else if s.len() >= 3 {
        assert(x.drop_last().len() > 0);
        lemma_encode_tail(x.drop_last());
        assert(s[s.len() - 3] == e[e.len() - 2]);
    }
}

/// Different byte sequences have different encodings.
proof fn lemma_encode_injective(x: Seq<u8>, y: Seq<u8>)
    requires
        form_encode(x) == form_encode(y),
    ensures
        x == y,
    decreases x.len(),
{
    lemma_encode_safe(x);
    lemma_encode_safe(y);
    if x.len() == 0 || y.len() == 0 {
        assert(x.len() == 0 && y.len() == 0);
        assert(x =~= y);
    } else {
        let s = form_encode(x);
        lemma_last_piece(x);
        lemma_last_piece(y);
        lemma_piece(x.last());
        lemma_piece(y.last());
        let px = form_encode_byte(x.last());
        let py = form_encode_byte(y.last());
        let ex = form_encode(x.drop_last());
        let ey = form_encode(y.drop_last());
        assert(px.len() == py.len());
        assert(px =~= s.subrange(ex.len() as int, s.len() as int));
        assert(py =~= s.subrange(ey.len() as int, s.len() as int));
        assert(ex =~= s.subrange(0, ex.len() as int));
        assert(ey =~= s.subrange(0, ey.len() as int));
        lemma_piece_injective(x.last(), y.last());
        lemma_encode_injective(x.drop_last(), y.drop_last());
        assert(x =~= x.drop_last().push(x.last()));
        assert(y =~= y.drop_last().push(y.last()));
    }
}

/// What `form_urlencoded` gives is printable ASCII without spaces, and two
/// different texts never give the same encoding.
pub proof fn lemma_form_encoding_plain_and_injective(a: Seq<char>, b: Seq<char>)
    ensures
        forall|i: int| 0 <= i < form_encode(encode_utf8(a)).len() ==> url_safe_char(#[trigger] form_encode(encode_utf8(a))[i]),
        form_encode(encode_utf8(a)) == form_encode(encode_utf8(b)) ==> a == b,
{
    lemma_encode_safe(encode_utf8(a));
    if form_encode(encode_utf8(a)) == form_encode(encode_utf8(b)) {
        lemma_encode_injective(encode_utf8(a), encode_utf8(b));
        vstd::utf8::encode_utf8_decode_utf8(a);
        vstd::utf8::encode_utf8_decode_utf8(b);
    }
}

// ---------------------------------------------------------------------------
// HTML entities
// ---------------------------------------------------------------------------

/// The entities of a title decoded, in this order: `&amp;`, `&lt;`, `&gt;`,
/// `&quot;`, `&#39;`, `&apos;`.
pub open spec fn html_decode_spec(s: Seq<char>) -> Seq<char> {
    let a = replace_all(s, "&amp;"@, "&"@);
    let b = replace_all(a, "&lt;"@, "<"@);
    let c = replace_all(b, "&gt;"@, ">"@);
    let d = replace_all(c, "&quot;"@, "\""@);
    let e = replace_all(d, "&#39;"@, "'"@);
    replace_all(e, "&apos;"@, "'"@)
}

fn html_decode(s: &Vec<char>) -> (r: Vec<char>)
    ensures
        r@ == html_decode_spec(s@),
{
    let a = replace_chars(s, &chars_of("&amp;"), &chars_of("&"));
    let b = replace_chars(&a, &chars_of("&lt;"), &chars_of("<"));
    let c = replace_chars(&b, &chars_of("&gt;"), &chars_of(">"));
    let d = replace_chars(&c, &chars_of("&quot;"), &chars_of("\""));
    let e = replace_chars(&d, &chars_of("&#39;"), &chars_of("'"));
    replace_chars(&e, &chars_of("&apos;"), &chars_of("'"))
}

// ---------------------------------------------------------------------------
// Catalogue page extraction
// ---------------------------------------------------------------------------

/// The title of a card whose link starts at `a_idx` and whose image path
/// starts at `idx`: the `title="..."` attribute between them, without a
/// trailing ` live wallpaper` (in any ASCII case), trimmed and decoded.
pub open spec fn card_title(html: Seq<char>, a_idx: int, idx: int) -> Seq<char> {
    match find_in(html, "title=\""@, a_idx, idx) {
        None => "MotionBGS Wallpaper"@,
        Some(t) => match find_in(html, "\""@, t + 7, html.len() as int) {
            None => "MotionBGS Wallpaper"@,
            Some(te) => {
                let raw = html.subrange(t + 7, te);
                let stripped = if has_suffix(ascii_lower(raw), " live wallpaper"@) {
                    raw.subrange(0, raw.len() - 15)
                } else {
                    raw
                };
                html_decode_spec(trim(stripped))
            },
        },
    }
}

/// Every character is an ASCII digit (an empty id passes).
pub open spec fn all_digits(s: Seq<char>) -> bool {
    forall|i: int| 0 <= i < s.len() ==> is_ascii_digit(#[trigger] s[i])
}

/// The label of a category: `Live` for all categories, else the category
/// with its first character in upper case.
pub open spec fn category_label(category: Seq<char>) -> Seq<char> {
    if category.len() == 0 || category == "all"@ {
        "Live"@
    } else {
        uppercase_of_char(category[0]) + category.skip(1)
    }
}

/// Whether a preview image name marks a 4K wallpaper.
pub open spec fn is_4k_image(img: Seq<char>) -> bool {
    contains_seq(lowercase(img), "4k"@) || contains_seq(img, "3840x2160"@)
}

/// The item of a card with the given media id, preview image name and title.
pub open spec fn motion_item(id: Seq<char>, img: Seq<char>, title: Seq<char>, prefer_hd: bool, label: Seq<char>) -> OnlineItemView {
    let is_4k = is_4k_image(img);
    OnlineItemView {
        id: id,
        title: title,
        author_or_copyright: "MotionBGS ("@ + label + ")"@,
        thumb_url: "https://motionbgs.com/i/c/364x205/media/"@ + id + "/"@ + img + ".jpg"@,
        full_url: if prefer_hd || !is_4k {
            "https://motionbgs.com/dl/hd/"@ + id + "/"@
        } else {
            "https://motionbgs.com/dl/4k/"@ + id + "/"@
        },
        resolution: if is_4k { "4K UHD"@ } else { "1080p HD"@ },
        source: OnlineSource::MotionBGS,
        date: None,
    }
}

/// The items found in `html` from position `pos` on, given the media ids
/// already taken. Each `/media/` marks a card; its link is the last `<a `
/// before it, its media id runs to the next `/`, and its preview image name
/// to the next `.jpg` (within 160 bytes). A card is taken when its id is all
/// digits and not taken before; the scan then resumes after the `.jpg`.
pub open spec fn motion_scan(html: Seq<char>, pos: int, seen: Seq<Seq<char>>, prefer_hd: bool, label: Seq<char>) -> Seq<OnlineItemView>
    decreases html.len() + 1 - pos,
{
    proof {
        lemma_find_in(html, "/media/"@, pos, html.len() as int);
    }
    match find_in(html, "/media/"@, pos, html.len() as int) {
        None => seq![],
        Some(idx) => {
            proof {
                reveal_strlit("/media/");
                lemma_rfind_in(html, "<a "@, idx);
                lemma_find_in(html, "/"@, idx + 7, html.len() as int);
            }
            match rfind_in(html, "<a "@, idx) {
                None => motion_scan(html, idx + 7, seen, prefer_hd, label),
                Some(a_idx) => match find_in(html, "/"@, idx + 7, html.len() as int) {
                    None => motion_scan(html, idx + 7, seen, prefer_hd, label),
                    Some(slash) => {
                        proof {
                            lemma_find_in(html, ".jpg"@, slash + 1, html.len() as int);
                            reveal_strlit(".jpg");
                        }
                        let media_id = html.subrange(idx + 7, slash);
                        match find_in(html, ".jpg"@, slash + 1, html.len() as int) {
                            Some(j) => {
                                if utf8_len(html.subrange(slash + 1, j)) < 160 {
                                    let img = html.subrange(slash + 1, j);
                                    if all_digits(media_id) && !seen.contains(media_id) {
                                        seq![motion_item(media_id, img, card_title(html, a_idx, idx), prefer_hd, label)]
                                            + motion_scan(html, j + 4, seen.push(media_id), prefer_hd, label)
                                    } else {
                                        motion_scan(html, j + 4, seen, prefer_hd, label)
                                    }
                                } else {
                                    motion_scan(html, idx + 7, seen, prefer_hd, label)
                                }
                            },
                            None => motion_scan(html, idx + 7, seen, prefer_hd, label),
                        }
                    },
                },
            }
        },
    }
}

/// The wallpapers of a MotionBGS catalogue page.
pub open spec fn motion_items(html: Seq<char>, preferred_res: Seq<char>, category: Seq<char>) -> Seq<OnlineItemView> {
    motion_scan(html, 0, seq![], ascii_lower(preferred_res) == "hd"@, category_label(category))
}

/// What every wallpaper of a MotionBGS page is: its id is a number, it comes
/// from MotionBGS, its preview lives under `/i/c/364x205/media/<id>/`, it is
/// labelled 4K UHD or 1080p HD, and it downloads from `/dl/hd/<id>/` when HD
/// is preferred (else from `/dl/4k/<id>/` exactly when it is 4K).
pub open spec fn motion_item_ok(it: OnlineItemView, prefer_hd: bool) -> bool {
    let hd_url = "https://motionbgs.com/dl/hd/"@ + it.id + "/"@;
    let uhd_url = "https://motionbgs.com/dl/4k/"@ + it.id + "/"@;
    &&& all_digits(it.id)
    &&& it.source == OnlineSource::MotionBGS
    &&& has_prefix(it.thumb_url, "https://motionbgs.com/i/c/364x205/media/"@ + it.id + "/"@)
    &&& (it.resolution == "4K UHD"@ || it.resolution == "1080p HD"@)
    &&& prefer_hd ==> it.full_url == hd_url
    &&& !prefer_hd ==> it.full_url == (if it.resolution == "4K UHD"@ { uhd_url } else { hd_url })
}

/// The scan from `pos` on gives wallpapers as `motion_item_ok` says, none
/// with an id in `seen`, and no two with the same id.
proof fn lemma_scan_items(html: Seq<char>, pos: int, seen: Seq<Seq<char>>, prefer_hd: bool, label: Seq<char>)
    ensures
        forall|i: int| 0 <= i < motion_scan(html, pos, seen, prefer_hd, label).len()
            ==> motion_item_ok(#[trigger] motion_scan(html, pos, seen, prefer_hd, label)[i], prefer_hd),
        forall|i: int| 0 <= i < motion_scan(html, pos, seen, prefer_hd, label).len()
            ==> !seen.contains(#[trigger] motion_scan(html, pos, seen, prefer_hd, label)[i].id)
                && motion_scan(html, pos, seen, prefer_hd, label)[i].author_or_copyright == "MotionBGS ("@ + label + ")"@,
        forall|i: int, j: int| 0 <= i < j < motion_scan(html, pos, seen, prefer_hd, label).len()
            ==> motion_scan(html, pos, seen, prefer_hd, label)[i].id != motion_scan(html, pos, seen, prefer_hd, label)[j].id,
    decreases html.len() + 1 - pos,
{
    lemma_find_in(html, "/media/"@, pos, html.len() as int);
    reveal_strlit("/media/");
    reveal_strlit("4K UHD");
    reveal_strlit("1080p HD");
    assert("4K UHD"@ != "1080p HD"@) by {
        assert("4K UHD"@.len() != "1080p HD"@.len());
    }
    match find_in(html, "/media/"@, pos, html.len() as int) {
        None => {},
        Some(idx) => {
            lemma_rfind_in(html, "<a "@, idx);
            lemma_find_in(html, "/"@, idx + 7, html.len() as int);
            match rfind_in(html, "<a "@, idx) {
                None => lemma_scan_items(html, idx + 7, seen, prefer_hd, label),
                Some(a_idx) => match find_in(html, "/"@, idx + 7, html.len() as int) {
                    None => lemma_scan_items(html, idx + 7, seen, prefer_hd, label),
                    Some(slash) => {
                        lemma_find_in(html, ".jpg"@, slash + 1, html.len() as int);
                        reveal_strlit(".jpg");
                        reveal_strlit("/");
                        let media_id = html.subrange(idx + 7, slash);
                        match find_in(html, ".jpg"@, slash + 1, html.len() as int) {
                            Some(j) => {
                                if utf8_len(html.subrange(slash + 1, j)) < 160 {
                                    let img = html.subrange(slash + 1, j);
                                    if all_digits(media_id) && !seen.contains(media_id) {
                                        lemma_scan_items(html, j + 4, seen.push(media_id), prefer_hd, label);
                                        let it = motion_item(media_id, img, card_title(html, a_idx, idx), prefer_hd, label);
                                        let rest = motion_scan(html, j + 4, seen.push(media_id), prefer_hd, label);
                                        let all = seq![it] + rest;
                                        assert(motion_scan(html, pos, seen, prefer_hd, label) == all);
                                        let pre = "https://motionbgs.com/i/c/364x205/media/"@ + media_id + "/"@;
                                        assert(it.thumb_url.subrange(0, pre.len() as int) =~= pre);
                                        assert(motion_item_ok(it, prefer_hd));
                                        assert forall|k: int| 0 <= k < rest.len() implies #[trigger] rest[k].id != media_id
                                            && !seen.contains(rest[k].id) by {
                                            assert(!seen.push(media_id).contains(rest[k].id));
                                            if seen.contains(rest[k].id) {
                                                let m = choose|m: int| 0 <= m < seen.len() && seen[m] == rest[k].id;
                                                assert(seen.push(media_id)[m] == rest[k].id);
                                            }
                                            assert(seen.push(media_id)[seen.len() as int] == media_id);
                                        }
                                        assert forall|k: int| 0 <= k < all.len() implies motion_item_ok(#[trigger] all[k], prefer_hd)
                                            && !seen.contains(all[k].id) && all[k].author_or_copyright == "MotionBGS ("@ + label + ")"@ by {
                                            if k > 0 {
                                                assert(all[k] == rest[k - 1]);
                                            }
                                        }
                                        assert forall|a: int, b: int| 0 <= a < b < all.len() implies all[a].id != all[b].id by {
                                            assert(all[b] == rest[b - 1]);
                                            if a > 0 {
                                                assert(all[a] == rest[a - 1]);
                                            }
                                        }
                                    } else {
                                        lemma_scan_items(html, j + 4, seen, prefer_hd, label);
                                    }
                                } else {
                                    lemma_scan_items(html, idx + 7, seen, prefer_hd, label);
                                }
                            },
                            None => lemma_scan_items(html, idx + 7, seen, prefer_hd, label),
                        }
                    },
                },
            }
        },
    }
}

/// The wallpapers of a MotionBGS page: each as `motion_item_ok` says, with
/// HD preferred exactly when the preferred resolution is `hd` in any ASCII
/// case (so then every download is `/dl/hd/<id>/`), no id twice, and
/// credited to `MotionBGS (Live)` when all categories are listed.
pub proof fn lemma_motion_items(html: Seq<char>, preferred_res: Seq<char>, category: Seq<char>)
    ensures
        forall|i: int| 0 <= i < motion_items(html, preferred_res, category).len()
            ==> motion_item_ok(#[trigger] motion_items(html, preferred_res, category)[i], ascii_lower(preferred_res) == "hd"@),
        ascii_lower(preferred_res) == "hd"@ ==> forall|i: int| 0 <= i < motion_items(html, preferred_res, category).len()
            ==> (#[trigger] motion_items(html, preferred_res, category)[i]).full_url
                == "https://motionbgs.com/dl/hd/"@ + motion_items(html, preferred_res, category)[i].id + "/"@,
        forall|i: int, j: int| 0 <= i < j < motion_items(html, preferred_res, category).len()
            ==> motion_items(html, preferred_res, category)[i].id != motion_items(html, preferred_res, category)[j].id,
        (category.len() == 0 || category == "all"@) ==> forall|i: int| 0 <= i < motion_items(html, preferred_res, category).len()
            ==> (#[trigger] motion_items(html, preferred_res, category)[i]).author_or_copyright == "MotionBGS (Live)"@,
{
    lemma_scan_items(html, 0, seq![], ascii_lower(preferred_res) == "hd"@, category_label(category));
    reveal_strlit("MotionBGS (Live)");
    reveal_strlit("MotionBGS (");
    reveal_strlit("Live");
    reveal_strlit(")");
    assert("MotionBGS ("@ + "Live"@ + ")"@ =~= "MotionBGS (Live)"@);
}

fn card_title_exec(html: &Vec<char>, a_idx: usize, idx: usize) -> (r: Vec<char>)
    ensures
        r@ == card_title(html@, a_idx as int, idx as int),
{
    let title_attr = chars_of("title=\"");
    let quote = chars_of("\"");
    proof {
        reveal_strlit("title=\"");
    }
    match find_in_range(html, &title_attr, a_idx, idx) {
        None => chars_of("MotionBGS Wallpaper"),
        Some(t) => {
            proof {
                lemma_find_in(html@, title_attr@, a_idx as int, idx as int);
            }
            match find_in_range(html, &quote, t + 7, html.len()) {
                None => chars_of("MotionBGS Wallpaper"),
                Some(te) => {
                    proof {
                        lemma_find_in(html@, quote@, t + 7, html.len() as int);
                        reveal_strlit("\"");
                    }
                    let raw = slice_chars(html, t + 7, te);
                    let suffix = chars_of(" live wallpaper");
                    proof {
                        reveal_strlit(" live wallpaper");
                    }
                    let stripped = if ends_with_ascii_ci(&raw, &suffix) {
                        slice_chars(&raw, 0, raw.len() - 15)
                    } else {
                        raw
                    };
                    let trimmed = trim_chars(&stripped);
                    html_decode(&trimmed)
                },
            }
        },
    }
}

/// Whether `s` ends with `p` once `s` is put in ASCII lower case
/// (`p` is expected in lower case).
fn ends_with_ascii_ci(s: &Vec<char>, p: &Vec<char>) -> (r: bool)
    ensures
        r == has_suffix(ascii_lower(s@), p@),
{
    if p.len() > s.len() {
        return false;
    }
    let off = s.len() - p.len();
    let mut k: usize = 0;
    while k < p.len()
        invariant
            off + p.len() == s.len(),
            k <= p.len(),
            forall|j: int| 0 <= j < k ==> ascii_lower_char(s@[off + j]) == p@[j],
        decreases p.len() - k,
    {
        let c = s[off + k];
        let lc = crate::unicode::char_ascii_lower(c);
        if lc != p[k] {
            proof {
                let l = ascii_lower(s@);
                assert(l.subrange(l.len() - p@.len(), l.len() as int)[k as int] == ascii_lower_char(s@[off + k]));
            }
            return false;
        }
        k = k + 1;
    }
    proof {
        let l = ascii_lower(s@);
        assert(l.subrange(l.len() - p@.len(), l.len() as int) =~= p@);
    }
    true
}

fn is_all_digits(s: &Vec<char>) -> (r: bool)
    ensures
        r == all_digits(s@),
{
    for i in 0..s.len()
        invariant
            forall|j: int| 0 <= j < i ==> is_ascii_digit(s@[j]),
    {
        if !char_is_ascii_digit(s[i]) {
            return false;
        }
    }
    true
}

fn seen_contains(seen: &Vec<Vec<char>>, id: &Vec<char>) -> (r: bool)
    ensures
        r == seen@.map_values(|v: Vec<char>| v@).contains(id@),
{
    let ghost sv = seen@.map_values(|v: Vec<char>| v@);
    for i in 0..seen.len()
        invariant
            sv == seen@.map_values(|v: Vec<char>| v@),
            forall|j: int| 0 <= j < i ==> sv[j] != id@,
    {
        let e = &seen[i];
        if e.len() == id.len() && crate::text::matches_at(e, id, 0) {
            proof {
                assert(e@.subrange(0, id@.len() as int) =~= e@);
                assert(sv[i as int] == id@);
            }
            return true;
        }
        proof {
            if e@.len() == id@.len() {
                assert(e@.subrange(0, id@.len() as int) =~= e@);
            }
        }
    }
    proof {
        if sv.contains(id@) {
            let j = choose|j: int| 0 <= j < sv.len() && sv[j] == id@;
            assert(sv[j] != id@);
        }
    }
    false
}

fn category_label_exec(category: &str) -> (r: Vec<char>)
    ensures
        r@ == category_label(category@),
{
    let cv = chars_of(category);
    if cv.len() == 0 || str_eq(category, "all") {
        chars_of("Live")
    } else {
        let up = char_to_uppercase(cv[0]);
        let mut out = chars_of(up.as_str());
        let rest = slice_chars(&cv, 1, cv.len());
        let mut k: usize = 0;
        let ghost start = out@;
        while k < rest.len()
            invariant
                k <= rest.len(),
                out@ == start + rest@.take(k as int),
            decreases rest.len() - k,
        {
            out.push(rest[k]);
            k = k + 1;
            proof {
                assert(rest@.take(k as int) =~= rest@.take(k - 1).push(rest@[k - 1]));
            }
        }
        proof {
            assert(rest@.take(rest@.len() as int) =~= rest@);
            assert(cv@.subrange(1, cv@.len() as int) =~= cv@.skip(1));
        }
        out
    }
}

fn make_item(id: &Vec<char>, img: &Vec<char>, title: Vec<char>, prefer_hd: bool, label: &Vec<char>) -> (r: OnlineWallpaperItem)
    ensures
        r@ == motion_item(id@, img@, title@, prefer_hd, label@),
{
    let img_s = string_of(img);
    let lower = to_lowercase(img_s.as_str());
    let is_4k = contains(&chars_of(lower.as_str()), &chars_of("4k")) || contains(img, &chars_of("3840x2160"));
    let mut author = owned("MotionBGS (");
    push_chars(&mut author, label);
    push_str(&mut author, ")");
    let mut thumb = owned("https://motionbgs.com/i/c/364x205/media/");
    push_chars(&mut thumb, id);
    push_str(&mut thumb, "/");
    push_chars(&mut thumb, img);
    push_str(&mut thumb, ".jpg");
    let mut full = if prefer_hd || !is_4k {
        owned("https://motionbgs.com/dl/hd/")
    } else {
        owned("https://motionbgs.com/dl/4k/")
    };
    push_chars(&mut full, id);
    push_str(&mut full, "/");
    OnlineWallpaperItem {
        id: string_of(id),
        title: string_of(&title),
        author_or_copyright: author,
        thumb_url: thumb,
        full_url: full,
        resolution: if is_4k { owned("4K UHD") } else { owned("1080p HD") },
        source: OnlineSource::MotionBGS,
        date: None,
    }
}

/// Extracts the wallpapers of a MotionBGS catalogue page.
pub fn parse_motionbgs_html(html: &str, preferred_res: &str, category: &str) -> (r: Vec<OnlineWallpaperItem>)
    ensures
        items_view(r@) == motion_items(html@, preferred_res@, category@),
{
    let h = chars_of(html);
    let media = chars_of("/media/");
    let a_tag = chars_of("<a ");
    let slash = chars_of("/");
    let jpg = chars_of(".jpg");
    proof {
        reveal_strlit("/media/");
        reveal_strlit(".jpg");
        reveal_strlit("/");
        reveal_strlit("<a ");
    }
    let pref_lower = crate::text::string_of(&ascii_lower_vec(&chars_of(preferred_res)));
    let prefer_hd = str_eq(pref_lower.as_str(), "hd");
    let label = category_label_exec(category);
    let ghost total = motion_scan(h@, 0, seq![], prefer_hd, label@);
    let mut items: Vec<OnlineWallpaperItem> = Vec::new();
    let mut seen: Vec<Vec<char>> = Vec::new();
    let mut pos: usize = 0;
    proof {
        assert(seen@.map_values(|v: Vec<char>| v@) =~= Seq::<Seq<char>>::empty());
        assert(items_view(items@) =~= Seq::<OnlineItemView>::empty());
        assert(items_view(items@) + total =~= total);
    }
    loop
        invariant
            total == motion_items(html@, preferred_res@, category@),
            pos <= h@.len(),
            h@ == html@,
            media@ == "/media/"@,
            a_tag@ == "<a "@,
            slash@ == "/"@,
            jpg@ == ".jpg"@,
            media@.len() == 7,
            slash@.len() == 1,
            jpg@.len() == 4,
            items_view(items@) + motion_scan(h@, pos as int, seen@.map_values(|v: Vec<char>| v@), prefer_hd, label@) == total,
        decreases h@.len() + 1 - pos,
    {
        let ghost sv = seen@.map_values(|v: Vec<char>| v@);
        let ghost before = items_view(items@);
        proof {
            lemma_find_in(h@, media@, pos as int, h@.len() as int);
        }
        let idx = match find_in_range(&h, &media, pos, h.len()) {
            None => {
                proof {
                    assert(items_view(items@) + seq![] =~= items_view(items@));
                }
                return items;
            },
            Some(i) => i,
        };
        proof {
            lemma_rfind_in(h@, a_tag@, idx as int);
            lemma_find_in(h@, slash@, idx + 7, h@.len() as int);
        }
        let a_idx = match rfind_before(&h, &a_tag, idx) {
            None => {
                pos = idx + 7;
                continue;
            },
            Some(a) => a,
        };
        let s_idx = match find_in_range(&h, &slash, idx + 7, h.len()) {
            None => {
                pos = idx + 7;
                continue;
            },
            Some(s) => s,
        };
        proof {
            lemma_find_in(h@, jpg@, s_idx + 1, h@.len() as int);
        }
        let j = match find_in_range(&h, &jpg, s_idx + 1, h.len()) {
            None => {
                pos = idx + 7;
                continue;
            },
            Some(j) => j,
        };
        let img = slice_chars(&h, s_idx + 1, j);
        if utf8_length(&img) >= 160 {
            pos = idx + 7;
            continue;
        }
        let media_id = slice_chars(&h, idx + 7, s_idx);
        if is_all_digits(&media_id) && !seen_contains(&seen, &media_id) {
            let title = card_title_exec(&h, a_idx, idx);
            let item = make_item(&media_id, &img, title, prefer_hd, &label);
            items.push(item);
            seen.push(media_id);
            proof {
                assert(seen@.map_values(|v: Vec<char>| v@) =~= sv.push(h@.subrange(idx + 7, s_idx as int)));
                assert(items_view(items@) =~= before.push(item@));
            }
        }
        pos = j + 4;
    }
}

fn ascii_lower_vec(s: &Vec<char>) -> (r: Vec<char>)
    ensures
        r@ == ascii_lower(s@),
{
    let mut out: Vec<char> = Vec::new();
    for i in 0..s.len()
        invariant
            out@ == ascii_lower(s@.take(i as int)),
    {
        let c = s[i];
        let lc = crate::unicode::char_ascii_lower(c);
        out.push(lc);
        proof {
            assert(ascii_lower(s@.take(i + 1)) =~= ascii_lower(s@.take(i as int)).push(ascii_lower_char(s@[i as int])));
        }
    }
    proof {
        assert(s@.take(s@.len() as int) =~= s@);
    }
    out
}


/// The page URL of a MotionBGS listing: a search for a query that is not
/// blank (trimmed and encoded, with the page number after the first page),
/// else the catalogue page of the category.
pub open spec fn motionbgs_url(page: u32, query: Option<Seq<char>>, query_bytes: Seq<u8>, category: Seq<char>) -> Seq<char> {
    match query {
        Some(q) => if trim(q).len() != 0 {
            if page <= 1 {
                "https://motionbgs.com/search?q="@ + form_encode(query_bytes)
            } else {
                "https://motionbgs.com/search?q="@ + form_encode(query_bytes) + "&page="@ + decimal(page as nat)
            }
        } else {
            catalog_url(category, page)
        },
        None => catalog_url(category, page),
    }
}

/// The URL of a listing page; see `motionbgs_url`, where `query_bytes` are
/// the UTF-8 bytes of the trimmed query.
pub fn motionbgs_page_url(page: u32, query: Option<&str>, category: &str) -> (r: String)
    ensures
        match query {
            Some(q) => trim(q@).len() != 0 ==> exists|t: &str| t@ == trim(q@) && r@ == motionbgs_url(page, Some(q@), t.spec_bytes(), category@),
            None => true,
        },
        (query is None || trim(query.unwrap()@).len() == 0) ==> r@ == catalog_url(category@, page),
{
    match query {
        Some(q) => {
            let trimmed = string_of(&trim_chars(&chars_of(q)));
            let empty = trim_chars(&chars_of(q)).len() == 0;
            if !empty {
                let t = trimmed.as_str();
                let encoded = form_urlencoded(t);
                let mut s = owned("https://motionbgs.com/search?q=");
                push_str(&mut s, encoded.as_str());
                if page > 1 {
                    push_str(&mut s, "&page=");
                    push_decimal(&mut s, page as u64);
                }
                proof {
                    assert(s@ == motionbgs_url(page, Some(q@), t.spec_bytes(), category@));
                }
                s
            } else {
                build_catalog_url(category, page)
            }
        },
        None => build_catalog_url(category, page),
    }
}

/// The wallpapers of a listing page, or the message given when it has none.
pub fn motionbgs_items(html: &str, preferred_res: &str, category: &str) -> (r: Result<Vec<OnlineWallpaperItem>, String>)
    ensures
        match r {
            Ok(v) => items_view(v@) == motion_items(html@, preferred_res@, category@) && v@.len() > 0,
            Err(e) => motion_items(html@, preferred_res@, category@).len() == 0
                && e@ == "No live wallpapers found on MotionBGS for this query."@,
        },
{
    let items = parse_motionbgs_html(html, preferred_res, category);
    if items.len() == 0 {
        Err(owned("No live wallpapers found on MotionBGS for this query."))
    } else {
        Ok(items)
    }
}

} // verus!
