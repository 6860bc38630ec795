//! Release versions: parsing `major.minor.patch` tags, comparing them, and
//! choosing the release asset to download.
use vstd::prelude::*;
use crate::text::{all_ascii_digits, chars_of, contains_seq, decimal, digit_char, digits_value, has_suffix, parse_u32, parse_u32_spec, slice_chars, str_contains, str_ends_with, trim, trim_chars, trim_end, trim_start, unsigned_digits};
use crate::paths::{lemma_split_on_nonempty, split_chars, split_on};

verus! {

/// `s` without its leading `v` characters.
pub open spec fn strip_leading_v(s: Seq<char>) -> Seq<char>
    decreases s.len(),
{
    if s.len() > 0 && s[0] == 'v' {
        strip_leading_v(s.drop_first())
    } else {
        s
    }
}

/// The numbers among the dot-separated pieces, in order: each piece that
/// parses as a `u32` gives its value, the others are skipped.
pub open spec fn parsed_pieces(pieces: Seq<Seq<char>>) -> Seq<u32>
    decreases pieces.len(),
{
    if pieces.len() == 0 {
        seq![]
    } else {
        let init = parsed_pieces(pieces.drop_last());
        match parse_u32_spec(pieces.last()) {
            Some(n) => init.push(n),
            None => init,
        }
    }
}

/// The `k`-th number, or 0 when there are fewer.
pub open spec fn nth_or_zero(v: Seq<u32>, k: int) -> u32 {
    if 0 <= k < v.len() { v[k] } else { 0 }
}

/// The version triple of a tag: leading `v`s and surrounding whitespace
/// removed, split at dots, the first three pieces that are numbers, missing
/// ones counted as 0.
pub open spec fn semver(v: Seq<char>) -> (u32, u32, u32) {
    let nums = parsed_pieces(split_on(trim(strip_leading_v(v)), '.'));
    (nth_or_zero(nums, 0), nth_or_zero(nums, 1), nth_or_zero(nums, 2))
}

/// Lexicographic order of version triples.
pub open spec fn triple_gt(a: (u32, u32, u32), b: (u32, u32, u32)) -> bool {
    a.0 > b.0 || (a.0 == b.0 && (a.1 > b.1 || (a.1 == b.1 && a.2 > b.2)))
}

/// `latest` names a newer version than `current`.
pub open spec fn newer(latest: Seq<char>, current: Seq<char>) -> bool {
    triple_gt(semver(latest), semver(current))
}

pub fn parse_semver(v: &str) -> (r: (u32, u32, u32))
    ensures
        r == semver(v@),
{
    let cv = chars_of(v);
    let mut i: usize = 0;
    proof {
        assert(cv@.skip(0) =~= cv@);
    }
    while i < cv.len() && cv[i] == 'v'
        invariant
            i <= cv.len(),
            strip_leading_v(cv@) == strip_leading_v(cv@.skip(i as int)),
        decreases cv.len() - i,
    {
        proof {
            assert(cv@.skip(i as int).drop_first() =~= cv@.skip(i + 1));
        }
        i = i + 1;
    }
    let rest = slice_chars(&cv, i, cv.len());
    proof {
        assert(rest@ =~= cv@.skip(i as int));
    }
    let clean = trim_chars(&rest);
    let pieces = split_chars(&clean, '.');
    let ghost all = split_on(clean@, '.');
    let mut nums: Vec<u32> = Vec::new();
    let mut k: usize = 0;
    proof {
        assert(all.take(0) =~= Seq::<Seq<char>>::empty());
    }
    while k < pieces.len()
        invariant
            k <= pieces.len(),
            all == split_on(clean@, '.'),
            pieces@.len() == all.len(),
            forall|m: int| 0 <= m < pieces@.len() ==> #[trigger] pieces@[m]@ == all[m],
            nums@ == parsed_pieces(all.take(k as int)),
        decreases pieces.len() - k,
    {
        proof {
            assert(all.take(k + 1).drop_last() =~= all.take(k as int));
            assert(all.take(k + 1).last() == pieces@[k as int]@);
        }
        match parse_u32(&pieces[k]) {
            Some(n) => nums.push(n),
            None => {},
        }
        k = k + 1;
    }
    proof {
        assert(all.take(all.len() as int) =~= all);
    }
    let a = if nums.len() > 0 { nums[0] } else { 0 };
    let b = if nums.len() > 1 { nums[1] } else { 0 };
    let c = if nums.len() > 2 { nums[2] } else { 0 };
    (a, b, c)
}

/// A digit character has the value it shows.
proof fn lemma_digit_char(d: nat)
    requires
        d < 10,
    ensures
        '0' <= digit_char(d) <= '9',
        digit_char(d) as u32 - '0' as u32 == d,
{
    let ds = seq!['0', '1', '2', '3', '4', '5', '6', '7', '8', '9'];
    if d == 0 { assert(ds[0] == '0'); }
    else if d == 1 { assert(ds[1] == '1'); }
    else if d == 2 { assert(ds[2] == '2'); }
    else if d == 3 { assert(ds[3] == '3'); }
    else if d == 4 { assert(ds[4] == '4'); }
    else if d == 5 { assert(ds[5] == '5'); }
    else if d == 6 { assert(ds[6] == '6'); }
    else if d == 7 { assert(ds[7] == '7'); }
    else if d == 8 { assert(ds[8] == '8'); }
    else { assert(ds[9] == '9'); }
}

/// The decimal rendering of a number is made of ASCII digits and reads back
/// as the number.
pub proof fn lemma_decimal_digits(n: nat)
    ensures
        decimal(n).len() > 0,
        all_ascii_digits(decimal(n)),
        digits_value(decimal(n)) == n,
    decreases n,
{
    if n < 10 {
        lemma_digit_char(n);
        assert(decimal(n).drop_last() =~= Seq::<char>::empty());
        assert(decimal(n).last() == digit_char(n));
        assert(digits_value(decimal(n)) == digits_value(Seq::<char>::empty()) * 10 + ((digit_char(n) as u32) - ('0' as u32)) as nat);
    } else {
        lemma_decimal_digits(n / 10);
        lemma_digit_char(n % 10);
        let d = decimal(n);
        assert(d.drop_last() =~= decimal(n / 10));
        assert forall|i: int| 0 <= i < d.len() implies crate::unicode::is_ascii_digit(#[trigger] d[i]) by {
            if i < d.len() - 1 {
                assert(d[i] == decimal(n / 10)[i]);
            }
        }
        assert(d.last() == digit_char(n % 10));
        assert(digits_value(d) == digits_value(decimal(n / 10)) * 10 + ((digit_char(n % 10) as u32) - ('0' as u32)) as nat);
        assert((n / 10) * 10 + n % 10 == n);
    }
}

/// The decimal rendering of a `u32` parses back to it.
pub proof fn lemma_parse_decimal(n: u32)
    ensures
        parse_u32_spec(decimal(n as nat)) == Some(n),
        !decimal(n as nat).contains('.'),
        decimal(n as nat)[0] != 'v',
        !crate::unicode::is_unicode_whitespace(decimal(n as nat)[0]),
        !crate::unicode::is_unicode_whitespace(decimal(n as nat).last()),
{
    let d = decimal(n as nat);
    lemma_decimal_digits(n as nat);
    assert(crate::unicode::is_ascii_digit(d[0]));
    assert(unsigned_digits(d) == d);
    assert(crate::unicode::is_ascii_digit(d[d.len() - 1]));
    if d.contains('.') {
        let i = choose|i: int| 0 <= i < d.len() && d[i] == '.';
        assert(crate::unicode::is_ascii_digit(d[i]));
    }
}

/// Text without the separator is one piece.
proof fn lemma_split_whole(s: Seq<char>, sep: char)
    requires
        !s.contains(sep),
    ensures
        split_on(s, sep) == seq![s],
    decreases s.len(),
{
    if s.len() > 0 {
        assert(!s.drop_last().contains(sep)) by {
            if s.drop_last().contains(sep) {
                let i = choose|i: int| 0 <= i < s.drop_last().len() && s.drop_last()[i] == sep;
                assert(s[i] == sep);
            }
        }
        lemma_split_whole(s.drop_last(), sep);
        assert(s.last() != sep) by {
            assert(s[s.len() - 1] == s.last());
        }
        assert(s.drop_last().push(s.last()) =~= s);
    } else {
        assert(s =~= Seq::<char>::empty());
    }
}

/// A separator and then text without it add that text as the last piece.
proof fn lemma_split_append(x: Seq<char>, y: Seq<char>, sep: char)
    requires
        !y.contains(sep),
    ensures
        split_on(x.push(sep) + y, sep) == split_on(x, sep).push(y),
    decreases y.len(),
{
    let s = x.push(sep) + y;
    if y.len() == 0 {
        assert(s =~= x.push(sep));
        assert(s.drop_last() =~= x);
        assert(y =~= Seq::<char>::empty());
    } else {
        let yl = y.drop_last();
        assert(!yl.contains(sep)) by {
            if yl.contains(sep) {
                let i = choose|i: int| 0 <= i < yl.len() && yl[i] == sep;
                assert(y[i] == sep);
            }
        }
        lemma_split_append(x, yl, sep);
        assert(s.drop_last() =~= x.push(sep) + yl);
        assert(s.last() == y.last());
        assert(y.last() != sep) by {
            assert(y[y.len() - 1] == y.last());
        }
        lemma_split_on_nonempty(x, sep);
        assert(yl.push(y.last()) =~= y);
        assert(split_on(x, sep).push(yl).update(split_on(x, sep).len() as int, yl.push(y.last())) =~= split_on(x, sep).push(y));
    }
}

/// A version written `a.b.c`.
pub open spec fn version_text(a: u32, b: u32, c: u32) -> Seq<char> {
    decimal(a as nat) + seq!['.'] + decimal(b as nat) + seq!['.'] + decimal(c as nat)
}

/// Reading a written version gives it back: `a.b.c` and `va.b.c` give
/// `(a, b, c)`, and a lone number `a` gives `(a, 0, 0)`.
pub proof fn lemma_semver_round_trip(a: u32, b: u32, c: u32)
    ensures
        semver(version_text(a, b, c)) == (a, b, c),
        semver(seq!['v'] + version_text(a, b, c)) == (a, b, c),
        semver(decimal(a as nat)) == (a, 0u32, 0u32),
{
    let da = decimal(a as nat);
    let db = decimal(b as nat);
    let dc = decimal(c as nat);
    lemma_parse_decimal(a);
    lemma_parse_decimal(b);
    lemma_parse_decimal(c);
    let t = version_text(a, b, c);
    let ab = da.push('.') + db;
    assert(t =~= ab.push('.') + dc);
    assert(t[0] == da[0]);
    assert(t.last() == dc.last());
    assert(strip_leading_v(t) == t);
    assert((seq!['v'] + t).drop_first() =~= t);
    assert(strip_leading_v(seq!['v'] + t) == t);
    assert(trim_start(t) == t);
    assert(trim_end(t) == t);
    lemma_split_whole(da, '.');
    lemma_split_append(da, db, '.');
    lemma_split_append(ab, dc, '.');
    let pieces = split_on(t, '.');
    assert(pieces == seq![da, db, dc]);
    assert(pieces.drop_last() =~= seq![da, db]);
    assert(pieces.drop_last().drop_last() =~= seq![da]);
    assert(pieces.drop_last().drop_last().drop_last() =~= Seq::<Seq<char>>::empty());
    assert(seq![da].drop_last() =~= Seq::<Seq<char>>::empty());
    assert(parsed_pieces(Seq::<Seq<char>>::empty()) =~= Seq::<u32>::empty());
    assert(seq![da].last() == da);
    assert(parsed_pieces(seq![da]) == parsed_pieces(Seq::<Seq<char>>::empty()).push(a));
    assert(parsed_pieces(seq![da]) =~= seq![a]);
    assert(seq![da, db].drop_last() =~= seq![da]);
    assert(seq![da, db].last() == db);
    assert(parsed_pieces(seq![da, db]) == parsed_pieces(seq![da]).push(b));
    assert(parsed_pieces(seq![da, db]) =~= seq![a, b]);
    assert(pieces.last() == dc);
    assert(parsed_pieces(pieces) == parsed_pieces(seq![da, db]).push(c));
    assert(parsed_pieces(pieces) =~= seq![a, b, c]);
    assert(strip_leading_v(da) == da);
    assert(trim_start(da) == da);
    assert(trim_end(da) == da);
    assert(parsed_pieces(split_on(da, '.')) =~= seq![a]);
}

pub fn is_newer_version(latest: &str, current: &str) -> (r: bool)
    ensures
        r == newer(latest@, current@),
{
    let a = parse_semver(latest);
    let b = parse_semver(current);
    a.0 > b.0 || (a.0 == b.0 && (a.1 > b.1 || (a.1 == b.1 && a.2 > b.2)))
}

/// No version is newer than itself.
pub proof fn lemma_newer_irreflexive(v: Seq<char>)
    ensures
        !newer(v, v),
{
}

/// Of two versions, at most one is newer than the other.
pub proof fn lemma_newer_asymmetric(a: Seq<char>, b: Seq<char>)
    ensures
        !(newer(a, b) && newer(b, a)),
{
}

/// Being newer is transitive.
pub proof fn lemma_newer_transitive(a: Seq<char>, b: Seq<char>, c: Seq<char>)
    requires
        newer(a, b),
        newer(b, c),
    ensures
        newer(a, c),
{
}

/// Two tags that name different version triples are ordered one way or the
/// other; tags naming the same triple are never newer than each other.
pub proof fn lemma_newer_total(a: Seq<char>, b: Seq<char>)
    ensures
        semver(a) != semver(b) ==> newer(a, b) || newer(b, a),
        semver(a) == semver(b) ==> !newer(a, b) && !newer(b, a),
{
}

/// A release asset is the Linux build: a `.tar.gz` whose name mentions
/// `linux`.
pub open spec fn is_linux_asset(name: Seq<char>) -> bool {
    has_suffix(name, ".tar.gz"@) && contains_seq(name, "linux"@)
}

pub fn is_linux_release_asset(name: &str) -> (r: bool)
    ensures
        r == is_linux_asset(name@),
{
    str_ends_with(name, ".tar.gz") && str_contains(name, "linux")
}

/// The first asset that is the Linux build.
pub open spec fn first_linux_asset(names: Seq<Seq<char>>) -> Option<int> {
    if exists|k: int| 0 <= k < names.len() && #[trigger] is_linux_asset(names[k]) {
        Some(choose|k: int| 0 <= k < names.len() && #[trigger] is_linux_asset(names[k])
            && forall|j: int| 0 <= j < k ==> !is_linux_asset(names[j]))
    } else {
        None
    }
}

/// The download URL of a release: that of the first asset that is the Linux
/// build (`None` when that asset has no URL, or when there is no such asset).
/// `assets[k]` is the name of asset `k` and its download URL when it has one.
pub fn select_download_url(assets: &Vec<(String, Option<String>)>) -> (r: Option<String>)
    ensures
        match first_linux_asset(assets@.map_values(|a: (String, Option<String>)| a.0@)) {
            Some(k) => match assets@[k].1 {
                Some(u) => r is Some && r->0@ == u@,
                None => r is None,
            },
            None => r is None,
        },
{
    let ghost names = assets@.map_values(|a: (String, Option<String>)| a.0@);
    for k in 0..assets.len()
        invariant
            names == assets@.map_values(|a: (String, Option<String>)| a.0@),
            forall|j: int| 0 <= j < k ==> !is_linux_asset(#[trigger] names[j]),
    {
        if is_linux_release_asset(assets[k].0.as_str()) {
            proof {
                assert(is_linux_asset(names[k as int]));
                let c = choose|x: int| 0 <= x < names.len() && #[trigger] is_linux_asset(names[x])
                    && forall|j: int| 0 <= j < x ==> !is_linux_asset(names[j]);
                if c < k {
                    assert(!is_linux_asset(names[c]));
                } else if c > k {
                    assert(!is_linux_asset(names[k as int]));
                }
            }
            return match &assets[k].1 {
                Some(u) => Some(u.clone()),
                None => None,
            };
        }
    }
    None
}


/// The fields of a release as the release page's JSON gives them: the tag,
/// the notes, and for each asset its name and download URL; a field is
/// `None` where it is missing or not a string, and `assets` is `None` where
/// it is missing or not an array.
pub struct ReleaseFields {
    pub tag_name: Option<String>,
    pub body: Option<String>,
    pub assets: Option<Vec<(Option<String>, Option<String>)>>,
}

/// The contents of the assets of a release.
pub open spec fn assets_view(a: Seq<(Option<String>, Option<String>)>) -> Seq<(Option<Seq<char>>, Option<Seq<char>>)> {
    a.map_values(|x: (Option<String>, Option<String>)| (opt_str(x.0), opt_str(x.1)))
}

/// The contents of the fields of a release.
pub open spec fn release_fields_view(f: ReleaseFields) -> (Option<Seq<char>>, Option<Seq<char>>, Option<Seq<(Option<Seq<char>>, Option<Seq<char>>)>>) {
    (opt_str(f.tag_name), opt_str(f.body), match f.assets {
        Some(a) => Some(assets_view(a@)),
        None => None,
    })
}

/// The characters of an optional string.
pub open spec fn opt_str(o: Option<String>) -> Option<Seq<char>> {
    match o {
        Some(s) => Some(s@),
        None => None,
    }
}

/// The fields of a release read from a JSON text (see `ReleaseFields`),
/// or the parser's message when the text is not JSON.
pub uninterp spec fn release_json(text: Seq<char>) -> Result<(Option<Seq<char>>, Option<Seq<char>>, Option<Seq<(Option<Seq<char>>, Option<Seq<char>>)>>), Seq<char>>;

/// Reads the fields of a release with `serde_json::from_str` into a
/// `serde_json::Value`, then `["tag_name"]`, `["body"]` and `["assets"]`
/// with `as_str` and `as_array`, and `["name"]` and
/// `["browser_download_url"]` of each asset. The result is named by
/// `release_json`; an error is the parser's message.
#[verifier::external_body]
fn read_release_json(text: &str) -> (r: Result<ReleaseFields, String>)
    ensures
        match (r, release_json(text@)) {
            (Ok(f), Ok(g)) => release_fields_view(f) == g,
            (Err(e), Err(m)) => e@ == m,
            _ => false,
        },
{
    let json: serde_json::Value = serde_json::from_str(text).map_err(|e| e.to_string())?;
    let field = |v: &serde_json::Value, k: &str| v[k].as_str().map(|s| s.to_string());
    let assets = json["assets"].as_array()
        .map(|a| a.iter().map(|x| (field(x, "name"), field(x, "browser_download_url"))).collect());
    Ok(ReleaseFields { tag_name: field(&json, "tag_name"), body: field(&json, "body"), assets })
}

/// The names of assets, an asset without a name counting as named empty.
pub open spec fn asset_names(a: Seq<(Option<Seq<char>>, Option<Seq<char>>)>) -> Seq<Seq<char>> {
    a.map_values(|x: (Option<Seq<char>>, Option<Seq<char>>)| match x.0 { Some(n) => n, None => seq![] })
}

/// The download URL among assets: that of the first Linux build.
pub open spec fn release_url(a: Seq<(Option<Seq<char>>, Option<Seq<char>>)>) -> Option<Seq<char>> {
    match first_linux_asset(asset_names(a)) {
        Some(k) => a[k].1,
        None => None,
    }
}

/// The release (tag, notes, download URL) that a release page's fields
/// describe: an error where the tag is missing; notes default to empty; the
/// URL is that of the first asset that is the Linux build.
pub open spec fn release_from_fields(f: (Option<Seq<char>>, Option<Seq<char>>, Option<Seq<(Option<Seq<char>>, Option<Seq<char>>)>>))
    -> Result<(Seq<char>, Seq<char>, Option<Seq<char>>), Seq<char>>
{
    match f.0 {
        None => Err("Missing tag_name in release"@),
        Some(tag) => Ok((tag, match f.1 { Some(b) => b, None => seq![] }, release_url(match f.2 { Some(a) => a, None => seq![] }))),
    }
}

/// Where some of the first `n` assets is a Linux build, one of them is the
/// first.
proof fn lemma_first_linux_exists(names: Seq<Seq<char>>, n: int)
    requires
        0 <= n <= names.len(),
        exists|k: int| 0 <= k < n && #[trigger] is_linux_asset(names[k]),
    ensures
        exists|k: int| 0 <= k < n && #[trigger] is_linux_asset(names[k])
            && forall|j: int| 0 <= j < k ==> !is_linux_asset(names[j]),
    decreases n,
{
    if exists|k: int| 0 <= k < n - 1 && #[trigger] is_linux_asset(names[k]) {
        lemma_first_linux_exists(names, n - 1);
        let k = choose|k: int| 0 <= k < n - 1 && #[trigger] is_linux_asset(names[k])
            && forall|j: int| 0 <= j < k ==> !is_linux_asset(names[j]);
        assert(0 <= k < n && is_linux_asset(names[k]));
    } else {
        assert(is_linux_asset(names[n - 1]));
        assert(forall|j: int| 0 <= j < n - 1 ==> !is_linux_asset(#[trigger] names[j]));
    }
}

/// The first Linux build is one of the assets.
proof fn lemma_first_linux_in_range(names: Seq<Seq<char>>)
    ensures
        first_linux_asset(names) matches Some(k) ==> 0 <= k < names.len(),
{
    if exists|k: int| 0 <= k < names.len() && #[trigger] is_linux_asset(names[k]) {
        lemma_first_linux_exists(names, names.len() as int);
    }
}

fn name_assets(raw: &Vec<(Option<String>, Option<String>)>) -> (assets: Vec<(String, Option<String>)>)
    ensures
        assets@.len() == raw@.len(),
        forall|k: int| 0 <= k < raw@.len() ==> (#[trigger] assets@[k]).0@ == asset_names(assets_view(raw@))[k]
            && opt_str(assets@[k].1) == assets_view(raw@)[k].1,
{
    let ghost all = assets_view(raw@);
    let mut assets: Vec<(String, Option<String>)> = Vec::new();
    for i in 0..raw.len()
        invariant
            all == assets_view(raw@),
            assets@.len() == i,
            forall|k: int| 0 <= k < i ==> (#[trigger] assets@[k]).0@ == asset_names(all)[k]
                && opt_str(assets@[k].1) == all[k].1,
    {
        let name = match &raw[i].0 {
            Some(n) => n.clone(),
            None => crate::text::owned(""),
        };
        let url = match &raw[i].1 {
            Some(u) => Some(u.clone()),
            None => None,
        };
        proof {
            reveal_strlit("");
            assert(all[i as int] == (opt_str(raw@[i as int].0), opt_str(raw@[i as int].1)));
        }
        assets.push((name, url));
    }
    assets
}

fn download_url_of(raw: &Vec<(Option<String>, Option<String>)>) -> (r: Option<String>)
    ensures
        opt_str(r) == release_url(assets_view(raw@)),
{
    let assets = name_assets(raw);
    let url = select_download_url(&assets);
    proof {
        let all = assets_view(raw@);
        let names = asset_names(all);
        assert(assets@.map_values(|a: (String, Option<String>)| a.0@) =~= names);
        lemma_first_linux_in_range(names);
    }
    url
}

/// The release described by the JSON text of the release page: tag, notes
/// and download URL; the message when the text is not JSON (the one of a
/// body that cannot be decoded) or has no tag.
pub fn release_info(text: &str) -> (r: Result<(String, String, Option<String>), String>)
    ensures
        match release_json(text@) {
            Err(_) => r matches Err(e) && e@ == "Failed to parse GitHub response: error decoding response body"@,
            Ok(f) => match (r, release_from_fields(f)) {
                (Ok((t, b, u)), Ok((t2, b2, u2))) => t@ == t2 && b@ == b2 && opt_str(u) == u2,
                (Err(e), Err(m)) => e@ == m,
                _ => false,
            },
        },
{
    let fields = match read_release_json(text) {
        Ok(f) => f,
        Err(_) => return Err(crate::text::owned("Failed to parse GitHub response: error decoding response body")),
    };
    let tag = match fields.tag_name {
        Some(t) => t,
        None => return Err(crate::text::owned("Missing tag_name in release")),
    };
    let body = match fields.body {
        Some(b) => b,
        None => crate::text::owned(""),
    };
    let url = match fields.assets {
        Some(a) => download_url_of(&a),
        None => {
            let empty: Vec<(Option<String>, Option<String>)> = Vec::new();
            proof {
                assert(assets_view(empty@) =~= seq![]);
            }
            download_url_of(&empty)
        },
    };
    proof {
        reveal_strlit("");
    }
    Ok((tag, body, url))
}

/// The error of an answer of the release page with status `code`
/// (`status` is its text): `None` for a success, a message for 404 and for
/// every other status.
pub fn release_status_error(code: u16, status: &str) -> (r: Option<String>)
    ensures
        200 <= code <= 299 ==> r is None,
        code == 404 ==> (r matches Some(m) && m@ == "No public releases found on GitHub."@),
        !(200 <= code <= 299) && code != 404 ==> (r matches Some(m) && m@ == "GitHub API returned status code "@ + status@),
{
    if 200 <= code && code <= 299 {
        None
    } else if code == 404 {
        Some(crate::text::owned("No public releases found on GitHub."))
    } else {
        Some(crate::text::concat2("GitHub API returned status code ", status))
    }
}


/// Why an update is refused inside the Flatpak sandbox.
pub const FLATPAK_UPDATE_REFUSAL: &'static str = "Updates under Flatpak must be installed through your software center (COSMIC Store or Flathub).";

/// Where an update installs the program, and where the new program is put
/// first: `.local/bin/aura` and `.local/bin/aura.new` under the home folder.
pub fn update_paths(home: &str) -> (r: (String, String))
    ensures
        r.0@ == crate::paths::join(home@, ".local/bin/aura"@),
        r.1@ == crate::paths::join(home@, ".local/bin/aura.new"@),
{
    (crate::paths::path_join(home, ".local/bin/aura"), crate::paths::path_join(home, ".local/bin/aura.new"))
}

/// Where the unpacked archive may hold the program: `aura` at its top,
/// then `aura` inside each of its entries, in order.
pub open spec fn binary_candidates_spec(extract_dir: Seq<char>, entries: Seq<Seq<char>>) -> Seq<Seq<char>> {
    seq![crate::paths::join(extract_dir, "aura"@)] + entries.map_values(|e: Seq<char>| crate::paths::join(e, "aura"@))
}

/// See `binary_candidates_spec`.
pub fn extracted_binary_candidates(extract_dir: &str, entries: &Vec<String>) -> (r: Vec<String>)
    ensures
        crate::strlist::views(r@) == binary_candidates_spec(extract_dir@, crate::strlist::views(entries@)),
{
    let mut r: Vec<String> = Vec::new();
    r.push(crate::paths::path_join(extract_dir, "aura"));
    for i in 0..entries.len()
        invariant
            crate::strlist::views(r@) == binary_candidates_spec(extract_dir@, crate::strlist::views(entries@).take(i as int)),
    {
        let c = crate::paths::path_join(entries[i].as_str(), "aura");
        let ghost before = r@;
        r.push(c);
        proof {
            crate::strlist::lemma_views_push(before, c);
            assert(crate::strlist::views(entries@)[i as int] == entries@[i as int]@);
            assert(binary_candidates_spec(extract_dir@, crate::strlist::views(entries@).take(i + 1))
                =~= binary_candidates_spec(extract_dir@, crate::strlist::views(entries@).take(i as int)).push(c@));
        }
    }
    proof {
        assert(crate::strlist::views(entries@).take(entries@.len() as int) =~= crate::strlist::views(entries@));
    }
    r
}

/// The first candidate that exists (`exists[k]` tells whether candidate
/// `k` does); `None` when none does.
pub fn first_existing(cands: &Vec<String>, exists: &Vec<bool>) -> (r: Option<String>)
    requires
        exists@.len() == cands@.len(),
    ensures
        match r {
            Some(p) => exists|k: int| 0 <= k < cands@.len() && exists@[k] && p@ == cands@[k]@
                && forall|j: int| 0 <= j < k ==> !exists@[j],
            None => forall|k: int| 0 <= k < cands@.len() ==> !exists@[k],
        },
{
    for k in 0..cands.len()
        invariant
            exists@.len() == cands@.len(),
            forall|j: int| 0 <= j < k ==> !exists@[j],
    {
        if exists[k] {
            return Some(cands[k].clone());
        }
    }
    None
}

} // verus!
