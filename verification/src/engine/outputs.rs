//! The display outputs, as listed by `cosmic-randr list` or `wlr-randr`.
use vstd::prelude::*;
use crate::lines::{lines, lines_of};
use crate::text::{chars_of, contains, contains_seq, has_prefix, owned, parse_u32, parse_u32_spec, slice_chars, split_whitespace, starts_with, string_of, trim, trim_chars, words, find_char, str_eq};
use crate::unicode::{char_is_ascii_digit, char_is_whitespace, is_ascii_digit, is_unicode_whitespace};

verus! {

/// A display output.
pub struct MonitorOutput {
    pub name: String,
    pub description: String,
    pub resolution: String,
    pub width: u32,
    pub height: u32,
    pub is_primary: bool,
}

/// An output as plain values: name, description, resolution text, width,
/// height, primary.
pub type OutputView = (Seq<char>, Seq<char>, Seq<char>, u32, u32, bool);

impl MonitorOutput {
    pub open spec fn view_tuple(&self) -> OutputView {
        (self.name@, self.description@, self.resolution@, self.width, self.height, self.is_primary)
    }
}

/// The outputs of a list, as plain values.
pub open spec fn outputs_view(v: Seq<MonitorOutput>) -> Seq<OutputView> {
    v.map_values(|o: MonitorOutput| o.view_tuple())
}

/// Pushing an output pushes its view.
proof fn lemma_outputs_push(v: Seq<MonitorOutput>, o: MonitorOutput)
    ensures
        outputs_view(v.push(o)) == outputs_view(v).push(o.view_tuple()),
{
    assert(outputs_view(v.push(o)) =~= outputs_view(v).push(o.view_tuple()));
}

/// The ASCII digits of `s`, in order.
pub open spec fn ascii_digits_of(s: Seq<char>) -> Seq<char>
    decreases s.len(),
{
    if s.len() == 0 {
        seq![]
    } else if is_ascii_digit(s.last()) {
        ascii_digits_of(s.drop_last()).push(s.last())
    } else {
        ascii_digits_of(s.drop_last())
    }
}

fn ascii_digits_exec(s: &Vec<char>) -> (r: Vec<char>)
    ensures
        r@ == ascii_digits_of(s@),
{
    let mut out: Vec<char> = Vec::new();
    proof {
        assert(s@.take(0) =~= Seq::<char>::empty());
    }
    for i in 0..s.len()
        invariant
            out@ == ascii_digits_of(s@.take(i as int)),
    {
        proof {
            assert(s@.take(i + 1).drop_last() =~= s@.take(i as int));
        }
        if char_is_ascii_digit(s[i]) {
            out.push(s[i]);
        }
    }
    proof {
        assert(s@.take(s@.len() as int) =~= s@);
    }
    out
}

/// The width and height in a resolution such as `2560x1440`: the ASCII
/// digits before and after the first `x`, each read as a `u32` (1920 and
/// 1080 when that fails); 1920x1080 when there is no `x`.
pub open spec fn parse_resolution_spec(res: Seq<char>) -> (u32, u32) {
    if res.contains('x') {
        let i = choose|i: int| 0 <= i < res.len() && res[i] == 'x' && forall|j: int| 0 <= j < i ==> res[j] != 'x';
        let w = parse_u32_spec(ascii_digits_of(res.subrange(0, i)));
        let h = parse_u32_spec(ascii_digits_of(res.subrange(i + 1, res.len() as int)));
        (match w { Some(v) => v, None => 1920 }, match h { Some(v) => v, None => 1080 })
    } else {
        (1920, 1080)
    }
}

/// See `parse_resolution_spec`.
pub fn parse_resolution(res: &str) -> (r: (u32, u32))
    ensures
        r == parse_resolution_spec(res@),
{
    let v = chars_of(res);
    match find_char(&v, 'x') {
        Some(i) => {
            let ghost j = choose|j: int| 0 <= j < res@.len() && res@[j] == 'x' && forall|k: int| 0 <= k < j ==> res@[k] != 'x';
            proof {
                assert(res@.contains('x'));
                if j < i {
                    assert(v@[j] == 'x');
                }
                if i < j {
                    assert(res@[i as int] == 'x');
                }
                assert(j == i);
            }
            let w = ascii_digits_exec(&slice_chars(&v, 0, i));
            let h = ascii_digits_exec(&slice_chars(&v, i + 1, v.len()));
            let width = match parse_u32(&w) {
                Some(x) => x,
                None => 1920,
            };
            let height = match parse_u32(&h) {
                Some(x) => x,
                None => 1080,
            };
            (width, height)
        },
        None => {
            proof {
                if res@.contains('x') {
                    let j = choose|j: int| 0 <= j < res@.len() && res@[j] == 'x';
                    assert(v@[j] == 'x');
                }
            }
            (1920, 1080)
        },
    }
}

/// The first whitespace-separated word of a line, or nothing.
pub open spec fn first_word(s: Seq<char>) -> Seq<char> {
    if words(s).len() > 0 { words(s)[0] } else { seq![] }
}

fn first_word_exec(s: &Vec<char>) -> (r: Vec<char>)
    ensures
        r@ == first_word(s@),
{
    let ws = split_whitespace(s);
    if ws.len() > 0 {
        slice_chars(&ws[0], 0, ws[0].len())
    } else {
        Vec::new()
    }
}

/// The output that `cosmic-randr` describes by a name and the resolution of
/// its current mode (`Native` when none was listed).
pub open spec fn cosmic_entry(name: Seq<char>, res: Seq<char>, primary: bool) -> OutputView {
    let (w, h) = parse_resolution_spec(res);
    (name, name, if res.len() == 0 { "Native"@ } else { res }, w, h, primary)
}

/// The state of reading `cosmic-randr list`: the outputs so far, and the
/// name, current resolution and enabled flag of the output being read.
pub type RandrState = (Seq<OutputView>, Seq<char>, Seq<char>, bool);

/// One line of `cosmic-randr list`: a line with ` (enabled)` starts a new
/// output named by its first word (closing the one being read); a line
/// holding `(current)` gives the resolution (its first word, after trimming).
pub open spec fn randr_step(st: RandrState, line: Seq<char>) -> RandrState {
    let (outs, name, res, enabled) = st;
    if contains_seq(line, " (enabled)"@) {
        let outs2 = if name.len() != 0 && enabled { outs.push(cosmic_entry(name, res, outs.len() == 0)) } else { outs };
        (outs2, first_word(line), seq![], true)
    } else if contains_seq(trim(line), "(current)"@) {
        if words(trim(line)).len() > 0 { (outs, name, words(trim(line))[0], enabled) } else { st }
    } else {
        st
    }
}

/// The state after the lines.
pub open spec fn randr_fold(ls: Seq<Seq<char>>) -> RandrState
    decreases ls.len(),
{
    if ls.len() == 0 {
        (seq![], seq![], seq![], false)
    } else {
        randr_step(randr_fold(ls.drop_last()), ls.last())
    }
}

/// The enabled outputs listed by `cosmic-randr list`, in order; the first is
/// the primary one.
pub open spec fn parse_cosmic_randr_spec(text: Seq<char>) -> Seq<OutputView> {
    let (outs, name, res, enabled) = randr_fold(lines(text));
    if name.len() != 0 && enabled { outs.push(cosmic_entry(name, res, outs.len() == 0)) } else { outs }
}

fn cosmic_output(name: &Vec<char>, res: &Vec<char>, primary: bool) -> (o: MonitorOutput)
    ensures
        o.view_tuple() == cosmic_entry(name@, res@, primary),
{
    let res_s = string_of(res);
    let (w, h) = parse_resolution(res_s.as_str());
    let resolution = if res.len() == 0 { owned("Native") } else { string_of(res) };
    MonitorOutput {
        name: string_of(name),
        description: string_of(name),
        resolution,
        width: w,
        height: h,
        is_primary: primary,
    }
}

/// See `parse_cosmic_randr_spec`; `text` is what the command printed.
pub fn parse_cosmic_randr(text: &str) -> (r: Vec<MonitorOutput>)
    ensures
        outputs_view(r@) == parse_cosmic_randr_spec(text@),
{
    let ls = lines_of(&chars_of(text));
    let ghost all = ls@.map_values(|l: Vec<char>| l@);
    proof {
        assert(all =~= lines(text@));
        assert(all.take(0) =~= Seq::<Seq<char>>::empty());
        assert(outputs_view(Seq::<MonitorOutput>::empty()) =~= Seq::<OutputView>::empty());
    }
    let mut outs: Vec<MonitorOutput> = Vec::new();
    let mut name: Vec<char> = Vec::new();
    let mut res: Vec<char> = Vec::new();
    let mut enabled = false;
    let enabled_marker = chars_of(" (enabled)");
    let current_marker = chars_of("(current)");
    for i in 0..ls.len()
        invariant
            all == ls@.map_values(|l: Vec<char>| l@),
            enabled_marker@ == " (enabled)"@,
            current_marker@ == "(current)"@,
            (outputs_view(outs@), name@, res@, enabled) == randr_fold(all.take(i as int)),
    {
        proof {
            assert(all.take(i + 1).drop_last() =~= all.take(i as int));
            assert(all.take(i + 1).last() == ls@[i as int]@);
        }
        let line = &ls[i];
        if contains(line, &enabled_marker) {
            if name.len() != 0 && enabled {
                let primary = outs.len() == 0;
                let o = cosmic_output(&name, &res, primary);
                let ghost before = outs@;
                outs.push(o);
                proof {
                    lemma_outputs_push(before, o);
                }
            }
            name = first_word_exec(line);
            res = Vec::new();
            enabled = true;
        } else {
            let t = trim_chars(line);
            if contains(&t, &current_marker) {
                let ws = split_whitespace(&t);
                if ws.len() > 0 {
                    res = slice_chars(&ws[0], 0, ws[0].len());
                }
            }
        }
    }
    proof {
        assert(all.take(ls@.len() as int) =~= all);
    }
    if name.len() != 0 && enabled {
        let primary = outs.len() == 0;
        let o = cosmic_output(&name, &res, primary);
        let ghost before = outs@;
        outs.push(o);
        proof {
            lemma_outputs_push(before, o);
        }
    }
    outs
}

/// Keeping the digits of a text made of digits keeps it whole.
proof fn lemma_all_digits_kept(s: Seq<char>)
    requires
        crate::text::all_ascii_digits(s),
    ensures
        ascii_digits_of(s) == s,
    decreases s.len(),
{
    if s.len() > 0 {
        assert(crate::text::all_ascii_digits(s.drop_last())) by {
            assert forall|i: int| 0 <= i < s.drop_last().len() implies is_ascii_digit(#[trigger] s.drop_last()[i]) by {
                assert(s.drop_last()[i] == s[i]);
            }
        }
        lemma_all_digits_kept(s.drop_last());
        assert(is_ascii_digit(s[s.len() - 1]));
        assert(s.drop_last().push(s.last()) =~= s);
    }
}

/// A resolution written `WxH` reads back as width `W` and height `H`.
pub proof fn lemma_resolution_round_trip(w: u32, h: u32)
    ensures
        parse_resolution_spec(crate::text::decimal(w as nat) + seq!['x'] + crate::text::decimal(h as nat)) == (w, h),
{
    let dw = crate::text::decimal(w as nat);
    let dh = crate::text::decimal(h as nat);
    let r = dw + seq!['x'] + dh;
    crate::online::updater::lemma_decimal_digits(w as nat);
    crate::online::updater::lemma_decimal_digits(h as nat);
    crate::online::updater::lemma_parse_decimal(w);
    crate::online::updater::lemma_parse_decimal(h);
    let i0 = dw.len() as int;
    assert(r[i0] == 'x');
    assert(r.contains('x'));
    let i = choose|i: int| 0 <= i < r.len() && r[i] == 'x' && forall|j: int| 0 <= j < i ==> r[j] != 'x';
    if i < i0 {
        assert(r[i] == dw[i]);
        assert(is_ascii_digit(dw[i]));
    }
    if i > i0 {
        assert(r[i0] != 'x');
    }
    assert(i == i0);
    assert(r.subrange(0, i) =~= dw);
    assert(r.subrange(i + 1, r.len() as int) =~= dh);
    lemma_all_digits_kept(dw);
    lemma_all_digits_kept(dh);
}

/// Reading more lines from a state.
pub open spec fn randr_from(st: RandrState, ls: Seq<Seq<char>>) -> RandrState
    decreases ls.len(),
{
    if ls.len() == 0 {
        st
    } else {
        randr_step(randr_from(st, ls.drop_last()), ls.last())
    }
}

/// Reading `a + b` is reading `a`, then `b`.
proof fn lemma_randr_split(a: Seq<Seq<char>>, b: Seq<Seq<char>>)
    ensures
        randr_fold(a + b) == randr_from(randr_fold(a), b),
    decreases b.len(),
{
    if b.len() == 0 {
        assert(a + b =~= a);
    } else {
        lemma_randr_split(a, b.drop_last());
        assert((a + b).drop_last() =~= a + b.drop_last());
        assert((a + b).last() == b.last());
    }
}

/// Reading lines only ever adds outputs after those already read.
proof fn lemma_randr_keeps(st: RandrState, ls: Seq<Seq<char>>)
    ensures
        randr_from(st, ls).0.len() >= st.0.len(),
        forall|k: int| 0 <= k < st.0.len() ==> randr_from(st, ls).0[k] == st.0[k],
    decreases ls.len(),
{
    if ls.len() > 0 {
        lemma_randr_keeps(st, ls.drop_last());
    }
}

/// Lines without ` (enabled)` change only the resolution: after them it is
/// the first word of the last line holding `(current)`, when there is one.
proof fn lemma_randr_block(st: RandrState, mid: Seq<Seq<char>>, k: int)
    requires
        forall|m: int| 0 <= m < mid.len() ==> !contains_seq(#[trigger] mid[m], " (enabled)"@),
        0 <= k < mid.len(),
        contains_seq(trim(mid[k]), "(current)"@),
        words(trim(mid[k])).len() > 0,
        forall|m: int| k < m < mid.len() ==> !contains_seq(trim(#[trigger] mid[m]), "(current)"@),
    ensures
        randr_from(st, mid) == (st.0, st.1, words(trim(mid[k]))[0], st.3),
    decreases mid.len(),
{
    let last = mid.len() - 1;
    assert(mid.last() == mid[last]);
    if k == last {
        lemma_randr_plain(st, mid.drop_last());
    } else {
        assert forall|m: int| 0 <= m < mid.drop_last().len() implies !contains_seq(#[trigger] mid.drop_last()[m], " (enabled)"@) by {
            assert(mid.drop_last()[m] == mid[m]);
        }
        assert forall|m: int| k < m < mid.drop_last().len() implies !contains_seq(trim(#[trigger] mid.drop_last()[m]), "(current)"@) by {
            assert(mid.drop_last()[m] == mid[m]);
        }
        assert(mid.drop_last()[k] == mid[k]);
        lemma_randr_block(st, mid.drop_last(), k);
    }
}

/// Lines without ` (enabled)` keep the outputs, the name and the flag.
proof fn lemma_randr_plain(st: RandrState, mid: Seq<Seq<char>>)
    requires
        forall|m: int| 0 <= m < mid.len() ==> !contains_seq(#[trigger] mid[m], " (enabled)"@),
    ensures
        randr_from(st, mid).0 == st.0,
        randr_from(st, mid).1 == st.1,
        randr_from(st, mid).3 == st.3,
    decreases mid.len(),
{
    if mid.len() > 0 {
        assert forall|m: int| 0 <= m < mid.drop_last().len() implies !contains_seq(#[trigger] mid.drop_last()[m], " (enabled)"@) by {
            assert(mid.drop_last()[m] == mid[m]);
        }
        lemma_randr_plain(st, mid.drop_last());
        assert(mid.last() == mid[mid.len() - 1]);
    }
}

/// Every word is non-empty.
proof fn lemma_words_nonempty(s: Seq<char>)
    ensures
        forall|i: int| 0 <= i < words(s).len() ==> #[trigger] words(s)[i].len() > 0,
    decreases s.len(),
{
    if s.len() > 0 {
        let w = words(s.drop_last());
        lemma_words_nonempty(s.drop_last());
        assert forall|i: int| 0 <= i < words(s).len() implies #[trigger] words(s)[i].len() > 0 by {
            if i < w.len() && i != w.len() - 1 {
                assert(words(s)[i] == w[i]);
            } else if i < w.len() {
                assert(words(s)[i] == w[i] || words(s)[i] == w.last().push(s.last()));
            }
        }
    }
}

/// What every listed output is: named (its description is its name), with
/// the width and height read from its resolution, primary exactly when it is
/// the first.
pub open spec fn randr_outputs_ok(outs: Seq<OutputView>) -> bool {
    forall|j: int| 0 <= j < outs.len() ==> {
        let o = #[trigger] outs[j];
        &&& o.0.len() > 0
        &&& o.1 == o.0
        &&& o.2.len() > 0
        &&& (o.3, o.4) == parse_resolution_spec(o.2)
        &&& o.5 == (j == 0)
    }
}

/// An output entry closed with a name is well formed at the end of the list.
proof fn lemma_entry_ok(outs: Seq<OutputView>, name: Seq<char>, res: Seq<char>)
    requires
        randr_outputs_ok(outs),
        name.len() > 0,
    ensures
        randr_outputs_ok(outs.push(cosmic_entry(name, res, outs.len() == 0))),
{
    reveal_strlit("Native");
    if res.len() == 0 {
        assert(!"Native"@.contains('x')) by {
            if "Native"@.contains('x') {
                let i = choose|i: int| 0 <= i < "Native"@.len() && "Native"@[i] == 'x';
                assert("Native"@[i] != 'x');
            }
        }
        assert(!res.contains('x'));
    }
    let outs2 = outs.push(cosmic_entry(name, res, outs.len() == 0));
    assert forall|j: int| 0 <= j < outs2.len() implies #[trigger] outs2[j].0.len() > 0 && outs2[j].1 == outs2[j].0
        && outs2[j].2.len() > 0 && (outs2[j].3, outs2[j].4) == parse_resolution_spec(outs2[j].2) && outs2[j].5 == (j == 0) by {
        if j < outs.len() {
            assert(outs2[j] == outs[j]);
        }
    }
}

/// Reading lines keeps the outputs well formed.
proof fn lemma_randr_fold_ok(ls: Seq<Seq<char>>)
    ensures
        randr_outputs_ok(randr_fold(ls).0),
    decreases ls.len(),
{
    if ls.len() > 0 {
        lemma_randr_fold_ok(ls.drop_last());
        let (outs, name, res, enabled) = randr_fold(ls.drop_last());
        if contains_seq(ls.last(), " (enabled)"@) && name.len() != 0 && enabled {
            lemma_entry_ok(outs, name, res);
        }
    }
}

/// Every output that `cosmic-randr list` gives is named, has the width and
/// height read from its resolution, and is primary exactly when it comes
/// first.
pub proof fn lemma_cosmic_outputs_ok(text: Seq<char>)
    ensures
        randr_outputs_ok(parse_cosmic_randr_spec(text)),
{
    lemma_randr_fold_ok(lines(text));
    let (outs, name, res, enabled) = randr_fold(lines(text));
    if name.len() != 0 && enabled {
        lemma_entry_ok(outs, name, res);
    }
}

/// Every enabled output of `cosmic-randr list` gets its current mode,
/// wherever it is listed: when the lines are `pre`, a header `h` marked
/// ` (enabled)` and naming the output, the lines `mid` of its block (none
/// marked ` (enabled)`), then either nothing or the header of the next
/// output, and the last line of the block holding `(current)` is `mid[k]`,
/// then some output has the header's first word as name, the first word of
/// `mid[k]` as resolution, the width and height read from it, and is the
/// primary one exactly when it is the first output.
pub proof fn lemma_cosmic_current_mode(text: Seq<char>, pre: Seq<Seq<char>>, h: Seq<char>, mid: Seq<Seq<char>>, post: Seq<Seq<char>>, k: int)
    requires
        lines(text) == pre + seq![h] + mid + post,
        contains_seq(h, " (enabled)"@),
        first_word(h).len() > 0,
        forall|m: int| 0 <= m < mid.len() ==> !contains_seq(#[trigger] mid[m], " (enabled)"@),
        0 <= k < mid.len(),
        contains_seq(trim(mid[k]), "(current)"@),
        words(trim(mid[k])).len() > 0,
        forall|m: int| k < m < mid.len() ==> !contains_seq(trim(#[trigger] mid[m]), "(current)"@),
        post.len() == 0 || contains_seq(post[0], " (enabled)"@),
    ensures
        exists|j: int| 0 <= j < parse_cosmic_randr_spec(text).len() && {
            let o = #[trigger] parse_cosmic_randr_spec(text)[j];
            &&& o.0 == first_word(h)
            &&& o.2 == words(trim(mid[k]))[0]
            &&& (o.3, o.4) == parse_resolution_spec(words(trim(mid[k]))[0])
            &&& o.5 == (j == 0)
        },
{
    let res = words(trim(mid[k]))[0];
    lemma_words_nonempty(trim(mid[k]));
    assert(res.len() > 0);
    let ph = pre + seq![h];
    lemma_randr_split(pre, seq![h]);
    assert(seq![h].drop_last() =~= Seq::<Seq<char>>::empty());
    assert(seq![h].last() == h);
    let s1 = randr_fold(ph);
    let o1 = s1.0;
    assert(s1.1 == first_word(h) && s1.2 == Seq::<char>::empty() && s1.3);
    let phm = ph + mid;
    lemma_randr_split(ph, mid);
    lemma_randr_block(s1, mid, k);
    let s2 = randr_fold(phm);
    assert(s2 == (o1, first_word(h), res, true));
    let entry = cosmic_entry(first_word(h), res, o1.len() == 0);
    let j = o1.len() as int;
    assert(lines(text) =~= phm + post);
    lemma_randr_split(phm, post);
    let fin = randr_fold(lines(text));
    if post.len() == 0 {
        assert(phm + post =~= phm);
        assert(parse_cosmic_randr_spec(text) == o1.push(entry));
        assert(parse_cosmic_randr_spec(text)[j] == entry);
    } else {
        let p0 = seq![post[0]];
        let rest = post.skip(1);
        assert(post =~= p0 + rest);
        lemma_randr_split(phm, p0);
        assert(p0.drop_last() =~= Seq::<Seq<char>>::empty());
        assert(p0.last() == post[0]);
        let s3 = randr_fold(phm + p0);
        assert(randr_from(s2, p0.drop_last()) == s2);
        assert(randr_from(s2, p0) == randr_step(s2, post[0]));
        assert(s3 == randr_from(s2, p0));
        assert(s3.0 == o1.push(entry));
        assert(phm + post =~= (phm + p0) + rest);
        lemma_randr_split(phm + p0, rest);
        lemma_randr_keeps(s3, rest);
        assert(fin == randr_from(s3, rest));
        assert(s3.0[j] == entry);
        assert(fin.0[j] == entry);
        assert(parse_cosmic_randr_spec(text)[j] == entry);
    }
}

/// Whether a line of `wlr-randr` starts an output: it holds ` connected`, or
/// it starts with a character that is not white space (and not a space).
pub open spec fn wlr_header(line: Seq<char>) -> bool {
    contains_seq(line, " connected"@) || (line.len() > 0 && !is_unicode_whitespace(line[0]) && !has_prefix(line, " "@))
}

/// An output read from `wlr-randr`, with the default mode 1920x1080.
pub open spec fn wlr_entry(name: Seq<char>, primary: bool) -> OutputView {
    (name, name, "1920x1080"@, 1920, 1080, primary)
}

/// The outputs of `wlr-randr` after the lines: each header line with a first
/// word adds an output of that name; the first is the primary one.
pub open spec fn wlr_fold(ls: Seq<Seq<char>>) -> Seq<OutputView>
    decreases ls.len(),
{
    if ls.len() == 0 {
        seq![]
    } else {
        let outs = wlr_fold(ls.drop_last());
        let line = ls.last();
        if wlr_header(line) && first_word(line).len() != 0 {
            outs.push(wlr_entry(first_word(line), outs.len() == 0))
        } else {
            outs
        }
    }
}

/// See `wlr_fold`; `text` is what `wlr-randr` printed.
pub fn parse_wlr_randr(text: &str) -> (r: Vec<MonitorOutput>)
    ensures
        outputs_view(r@) == wlr_fold(lines(text@)),
{
    let ls = lines_of(&chars_of(text));
    let ghost all = ls@.map_values(|l: Vec<char>| l@);
    proof {
        assert(all =~= lines(text@));
        assert(all.take(0) =~= Seq::<Seq<char>>::empty());
        assert(outputs_view(Seq::<MonitorOutput>::empty()) =~= Seq::<OutputView>::empty());
    }
    let connected = chars_of(" connected");
    let space = chars_of(" ");
    let mut outs: Vec<MonitorOutput> = Vec::new();
    for i in 0..ls.len()
        invariant
            all == ls@.map_values(|l: Vec<char>| l@),
            connected@ == " connected"@,
            space@ == " "@,
            outputs_view(outs@) == wlr_fold(all.take(i as int)),
    {
        proof {
            assert(all.take(i + 1).drop_last() =~= all.take(i as int));
            assert(all.take(i + 1).last() == ls@[i as int]@);
        }
        let line = &ls[i];
        let header = contains(line, &connected)
            || (line.len() > 0 && !char_is_whitespace(line[0]) && !starts_with(line, &space));
        if header {
            let name = first_word_exec(line);
            if name.len() != 0 {
                let primary = outs.len() == 0;
                let o = MonitorOutput {
                    name: string_of(&name),
                    description: string_of(&name),
                    resolution: owned("1920x1080"),
                    width: 1920,
                    height: 1080,
                    is_primary: primary,
                };
                let ghost before = outs@;
                outs.push(o);
                proof {
                    lemma_outputs_push(before, o);
                }
            }
        }
    }
    proof {
        assert(all.take(ls@.len() as int) =~= all);
    }
    outs
}

/// The wildcard output that stands for all monitors.
pub open spec fn all_monitors_entry() -> OutputView {
    ("*"@, "All Monitors"@, "1920x1080"@, 1920, 1080, true)
}

/// The outputs: those of `cosmic-randr` (when it ran successfully), else
/// those of `wlr-randr` (when it ran successfully), else the wildcard output
/// for all monitors.
pub open spec fn detect_outputs_spec(cosmic: Option<Seq<char>>, wlr: Option<Seq<char>>) -> Seq<OutputView> {
    let a = match cosmic { Some(t) => parse_cosmic_randr_spec(t), None => seq![] };
    if a.len() > 0 {
        a
    } else {
        let b = match wlr { Some(t) => wlr_fold(lines(t)), None => seq![] };
        if b.len() > 0 { b } else { seq![all_monitors_entry()] }
    }
}

/// See `detect_outputs_spec`; each argument is what the command printed,
/// when it ran successfully.
pub fn detect_outputs(cosmic: Option<&str>, wlr: Option<&str>) -> (r: Vec<MonitorOutput>)
    ensures
        outputs_view(r@) == detect_outputs_spec(
            match cosmic { Some(t) => Some(t@), None => None },
            match wlr { Some(t) => Some(t@), None => None },
        ),
        r@.len() > 0,
{
    let a = match cosmic {
        Some(t) => parse_cosmic_randr(t),
        None => Vec::new(),
    };
    if a.len() > 0 {
        return a;
    }
    let b = match wlr {
        Some(t) => parse_wlr_randr(t),
        None => Vec::new(),
    };
    if b.len() > 0 {
        return b;
    }
    let mut v: Vec<MonitorOutput> = Vec::new();
    let o = MonitorOutput {
        name: owned("*"),
        description: owned("All Monitors"),
        resolution: owned("1920x1080"),
        width: 1920,
        height: 1080,
        is_primary: true,
    };
    v.push(o);
    proof {
        assert(outputs_view(v@) =~= seq![all_monitors_entry()]);
    }
    v
}

/// Whether two lists of outputs are equal, field by field.
pub fn same_outputs(a: &Vec<MonitorOutput>, b: &Vec<MonitorOutput>) -> (r: bool)
    ensures
        r == (outputs_view(a@) == outputs_view(b@)),
{
    if a.len() != b.len() {
        proof {
            assert(outputs_view(a@).len() != outputs_view(b@).len());
        }
        return false;
    }
    let mut i: usize = 0;
    while i < a.len()
        invariant
            i <= a.len(),
            a.len() == b.len(),
            forall|j: int| 0 <= j < i ==> a@[j].view_tuple() == b@[j].view_tuple(),
        decreases a.len() - i,
    {
        let x = &a[i];
        let y = &b[i];
        if !(str_eq(x.name.as_str(), y.name.as_str()) && str_eq(x.description.as_str(), y.description.as_str())
            && str_eq(x.resolution.as_str(), y.resolution.as_str()) && x.width == y.width && x.height == y.height
            && x.is_primary == y.is_primary) {
            proof {
                assert(outputs_view(a@)[i as int] != outputs_view(b@)[i as int]);
            }
            return false;
        }
        i = i + 1;
    }
    proof {
        assert(outputs_view(a@) =~= outputs_view(b@));
    }
    true
}

} // verus!
