//! Tool artifacts: the raw output of a tool call kept beside the message that
//! refers to it, bounded in size, with a short preview.
use vstd::prelude::*;
use vstd::string::StringExecFns;
use crate::text::{
    char_is_ws, decimal, is_ws, join_with, lemma_join_with_push, trim, trim_end, trim_start,
    u64_to_decimal,
};
use vstd::utf8::{
    decode_utf8, encode_utf8, is_char_boundary, valid_utf8, decode_utf8_encode_utf8,
    encode_utf8_decode_utf8, encode_utf8_valid_utf8, is_char_boundary_start_end_of_seq,
    valid_utf8_split,
};

verus! {

broadcast use vstd::string::group_string_axioms;

/// The line break character.
pub open spec fn is_newline(c: char) -> bool {
    c == '\n'
}

/// The lines of `s`: the pieces between line breaks, the last one possibly
/// empty.
pub open spec fn split_lines(s: Seq<char>) -> Seq<Seq<char>>
    decreases s.len(),
{
    if s.len() == 0 {
        seq![Seq::<char>::empty()]
    } else {
        let r = split_lines(s.drop_last());
        if is_newline(s.last()) {
            r.push(Seq::<char>::empty())
        } else {
            r.update(r.len() - 1, r.last().push(s.last()))
        }
    }
}

/// The trimmed lines that are not blank, in order.
pub open spec fn kept_of(lines: Seq<Seq<char>>) -> Seq<Seq<char>>
    decreases lines.len(),
{
    if lines.len() == 0 {
        Seq::empty()
    } else {
        let r = kept_of(lines.drop_last());
        if trim(lines.last()).len() > 0 {
            r.push(trim(lines.last()))
        } else {
            r
        }
    }
}

/// The non-blank lines of `s`, trimmed.
pub open spec fn preview_lines(s: Seq<char>) -> Seq<Seq<char>> {
    kept_of(split_lines(s))
}

pub proof fn lemma_split_lines_nonempty(s: Seq<char>)
    ensures
        split_lines(s).len() >= 1,
    decreases s.len(),
{
    if s.len() > 0 {
        lemma_split_lines_nonempty(s.drop_last());
    }
}

/// One more character: a line break opens a new line, anything else extends
/// the last one.
pub proof fn lemma_split_lines_push(s: Seq<char>, c: char)
    ensures
        split_lines(s.push(c)) == if is_newline(c) {
            split_lines(s).push(Seq::<char>::empty())
        } else {
            split_lines(s).update(split_lines(s).len() - 1, split_lines(s).last().push(c))
        },
        split_lines(s.push(c)).len() >= 1,
{
    assert(s.push(c).drop_last() =~= s);
    lemma_split_lines_nonempty(s);
}

pub proof fn lemma_kept_of_push(lines: Seq<Seq<char>>, l: Seq<char>)
    ensures
        kept_of(lines.push(l)) == if trim(l).len() > 0 {
            kept_of(lines).push(trim(l))
        } else {
            kept_of(lines)
        },
{
    assert(lines.push(l).drop_last() =~= lines);
}

/// Trimming after one more character: white space at the end is dropped;
/// anything else joins what precedes it from the first non-white character on.
pub proof fn lemma_trim_push(x: Seq<char>, c: char)
    ensures
        is_ws(c) ==> trim(x.push(c)) == trim(x),
        !is_ws(c) ==> trim(x.push(c)) == trim_start(x).push(c),
    decreases x.len(),
{
    lemma_trim_start_push(x, c);
    if is_ws(c) {
        if trim_start(x).len() == 0 {
            assert(trim_start(x.push(c)) =~= Seq::<char>::empty()) by {
                lemma_trim_start_push(x, c);
            }
            assert(trim_end(Seq::<char>::empty()) == Seq::<char>::empty());
        } else {
            let t = trim_start(x);
            assert(t.push(c).drop_last() =~= t);
        }
    } else {
        let t = trim_start(x);
        assert(trim_end(t.push(c)) == t.push(c));
    }
}

proof fn lemma_trim_start_push(x: Seq<char>, c: char)
    ensures
        trim_start(x).len() == 0 && is_ws(c) ==> trim_start(x.push(c)).len() == 0,
        trim_start(x).len() > 0 || !is_ws(c) ==> trim_start(x.push(c)) == trim_start(x).push(c),
    decreases x.len(),
{
    if x.len() == 0 {
        assert(trim_start(x) =~= x);
        if is_ws(c) {
            assert(x.push(c).drop_first() =~= Seq::<char>::empty());
            assert(trim_start(Seq::<char>::empty()) =~= Seq::<char>::empty());
            assert(trim_start(x.push(c)) == trim_start(x.push(c).drop_first()));
        }
    } else if is_ws(x[0]) {
        assert(x.push(c).drop_first() =~= x.drop_first().push(c));
        lemma_trim_start_push(x.drop_first(), c);
    } else {
        assert(trim_start(x) == x);
        assert(x.push(c)[0] == x[0]);
    }
}

/// Whether `s` holds nothing but white space from `a` to `b`.
pub open spec fn blank_between(s: Seq<char>, a: int, b: int) -> bool {
    forall|k: int| a <= k < b ==> is_ws(#[trigger] s[k])
}

/// The state of a scan over the first `i` characters of `s`: `first` is the
/// first non-white character of the current line, `end` is just past its last
/// one, and `start` is where the current line begins.
pub open spec fn current_line_trim(
    s: Seq<char>,
    i: int,
    start: int,
    first: Option<usize>,
    end: int,
) -> bool {
    &&& 0 <= start <= i <= s.len()
    &&& split_lines(s.take(i)).last() == s.subrange(start, i)
    &&& match first {
        Some(a) => {
            &&& start <= a < end <= i
            &&& blank_between(s, start, a as int)
            &&& !is_ws(s[a as int])
            &&& !is_ws(s[end - 1])
            &&& blank_between(s, end, i)
            &&& trim(s.subrange(start, i)) == s.subrange(a as int, end)
            &&& trim_start(s.subrange(start, i)) == s.subrange(a as int, i)
        },
        None => {
            &&& blank_between(s, start, i)
            &&& trim(s.subrange(start, i)).len() == 0
            &&& trim_start(s.subrange(start, i)).len() == 0
        },
    }
}

pub open spec fn range_texts(s: Seq<char>, r: Seq<(usize, usize)>) -> Seq<Seq<char>> {
    r.map_values(|p: (usize, usize)| s.subrange(p.0 as int, p.1 as int))
}

pub open spec fn ranges_valid(s: Seq<char>, r: Seq<(usize, usize)>) -> bool {
    forall|k: int| 0 <= k < r.len() ==> (#[trigger] r[k]).0 <= r[k].1 <= s.len()
}

/// What the preview scan found: the trimmed ranges of the first (at most
/// three) non-blank lines, and whether there is a further one.
pub open spec fn scan_result(s: Seq<char>, ranges: Seq<(usize, usize)>, more: bool) -> bool {
    &&& ranges_valid(s, ranges)
    &&& range_texts(s, ranges) == preview_lines(s).take(ranges.len() as int)
    &&& ranges.len() == if preview_lines(s).len() < 3 {
        preview_lines(s).len()
    } else {
        3
    }
    &&& more == (preview_lines(s).len() > 3)
}

/// Number of line breaks in `s`.
pub open spec fn count_newlines(s: Seq<char>) -> nat
    decreases s.len(),
{
    if s.len() == 0 {
        0
    } else {
        count_newlines(s.drop_last()) + if is_newline(s.last()) {
            1nat
        } else {
            0nat
        }
    }
}

/// Number of lines of `s` as `str::lines` counts them, at least one.
pub open spec fn line_count_of(s: Seq<char>) -> nat {
    if s.len() == 0 {
        1
    } else if is_newline(s.last()) {
        count_newlines(s)
    } else {
        count_newlines(s) + 1
    }
}

proof fn lemma_trim_empty()
    ensures
        trim(Seq::<char>::empty()) == Seq::<char>::empty(),
        trim_start(Seq::<char>::empty()) == Seq::<char>::empty(),
{
    assert(trim_start(Seq::<char>::empty()) == Seq::<char>::empty());
    assert(trim_end(Seq::<char>::empty()) == Seq::<char>::empty());
}

/// Kept lines after one more character: the lines completed so far keep
/// theirs, and the current line contributes its trim when it is not blank.
proof fn lemma_kept_step(p: Seq<char>, c: char)
    ensures
        ({
            let l = split_lines(p);
            let l2 = split_lines(p.push(c));
            &&& l.len() >= 1
            &&& kept_of(l) == if trim(l.last()).len() > 0 {
                kept_of(l.drop_last()).push(trim(l.last()))
            } else {
                kept_of(l.drop_last())
            }
            &&& is_newline(c) ==> l2.drop_last() == l && l2.last() == Seq::<char>::empty()
            &&& !is_newline(c) ==> l2.drop_last() == l.drop_last() && l2.last() == l.last().push(c)
        }),
{
    let l = split_lines(p);
    lemma_split_lines_nonempty(p);
    lemma_split_lines_push(p, c);
    assert(l =~= l.drop_last().push(l.last()));
    lemma_kept_of_push(l.drop_last(), l.last());
    let l2 = split_lines(p.push(c));
    if !is_newline(c) {
        assert(l2.drop_last() =~= l.drop_last());
    } else {
        assert(l2.drop_last() =~= l);
    }
}

/// Once more than three lines are kept, further characters keep the first
/// three and the count above three.
proof fn lemma_kept_stable(p: Seq<char>, c: char)
    requires
        kept_of(split_lines(p)).len() > 3,
    ensures
        kept_of(split_lines(p.push(c))).len() > 3,
        kept_of(split_lines(p.push(c))).take(3) == kept_of(split_lines(p)).take(3),
{
    let l = split_lines(p);
    let l2 = split_lines(p.push(c));
    lemma_kept_step(p, c);
    lemma_split_lines_nonempty(p.push(c));
    assert(l2 =~= l2.drop_last().push(l2.last()));
    lemma_kept_of_push(l2.drop_last(), l2.last());
    let k0 = kept_of(l.drop_last());
    if is_newline(c) {
        lemma_trim_empty();
        assert(kept_of(l2) == kept_of(l));
    } else {
        lemma_trim_push(l.last(), c);
        if trim(l.last()).len() > 0 {
            assert(trim(l.last().push(c)).len() > 0) by {
                if !is_ws(c) {
                    assert(trim_start(l.last()).len() > 0);
                }
            }
        }
        assert(k0.len() >= 3);
        assert(kept_of(l2).take(3) =~= k0.take(3));
        assert(kept_of(l).take(3) =~= k0.take(3));
    }
}

proof fn lemma_count_newlines_push(s: Seq<char>, c: char)
    ensures
        count_newlines(s.push(c)) == count_newlines(s) + if is_newline(c) {
            1nat
        } else {
            0nat
        },
{
    assert(s.push(c).drop_last() =~= s);
}

proof fn lemma_line_newline(s: Seq<char>, i: int, start: int, first: Option<usize>, end: int)
    requires
        current_line_trim(s, i, start, first, end),
        i < s.len(),
        is_newline(s[i]),
    ensures
        current_line_trim(s, i + 1, i + 1, None, i + 1),
{
    lemma_split_lines_push(s.take(i), s[i]);
    assert(s.take(i + 1) =~= s.take(i).push(s[i]));
    assert(s.subrange(i + 1, i + 1) =~= Seq::<char>::empty());
    lemma_trim_empty();
}

proof fn lemma_line_extend(s: Seq<char>, i: int, start: int)
    requires
        0 <= start <= i < s.len(),
        split_lines(s.take(i)).last() == s.subrange(start, i),
        !is_newline(s[i]),
    ensures
        split_lines(s.take(i + 1)).last() == s.subrange(start, i + 1),
{
    let c = s[i];
    lemma_split_lines_push(s.take(i), c);
    lemma_split_lines_nonempty(s.take(i));
    assert(s.take(i + 1) =~= s.take(i).push(c));
    let l = split_lines(s.take(i));
    assert(s.subrange(start, i + 1) =~= s.subrange(start, i).push(c));
    assert(l.update(l.len() - 1, l.last().push(c)).last() == l.last().push(c));
}

proof fn lemma_line_ws(s: Seq<char>, i: int, start: int, first: Option<usize>, end: int)
    requires
        current_line_trim(s, i, start, first, end),
        i < s.len(),
        is_ws(s[i]),
        !is_newline(s[i]),
    ensures
        current_line_trim(s, i + 1, start, first, end),
{
    let c = s[i];
    let cur = s.subrange(start, i);
    lemma_line_extend(s, i, start);
    assert(s.subrange(start, i + 1) =~= cur.push(c));
    lemma_trim_push(cur, c);
    lemma_trim_start_push(cur, c);
    match first {
        Some(a) => {
            assert(s.subrange(a as int, i + 1) =~= s.subrange(a as int, i).push(c));
            assert(trim_start(cur).len() > 0);
            assert(trim(s.subrange(start, i + 1)) == s.subrange(a as int, end));
            assert(trim_start(s.subrange(start, i + 1)) == s.subrange(a as int, i + 1));
            assert(blank_between(s, end, i + 1)) by {
                assert forall|k: int| end <= k < i + 1 implies is_ws(#[trigger] s[k]) by {
                    if k < i {
                        assert(blank_between(s, end, i));
                    }
                }
            }
        },
        None => {
            assert(blank_between(s, start, i + 1)) by {
                assert forall|k: int| start <= k < i + 1 implies is_ws(#[trigger] s[k]) by {
                    if k < i {
                        assert(blank_between(s, start, i));
                    }
                }
            }
        },
    }
}

proof fn lemma_line_solid(s: Seq<char>, i: int, start: int, first: Option<usize>, end: int)
    requires
        current_line_trim(s, i, start, first, end),
        i < s.len(),
        i < usize::MAX,
        !is_ws(s[i]),
    ensures
        current_line_trim(
            s,
            i + 1,
            start,
            Some(
                match first {
                    Some(a) => a,
                    None => i as usize,
                },
            ),
            i + 1,
        ),
{
    let c = s[i];
    let cur = s.subrange(start, i);
    assert(!is_newline(c));
    lemma_line_extend(s, i, start);
    assert(s.subrange(start, i + 1) =~= cur.push(c));
    lemma_trim_push(cur, c);
    lemma_trim_start_push(cur, c);
    match first {
        Some(a) => {
            assert(s.subrange(a as int, i + 1) =~= s.subrange(a as int, i).push(c));
            assert(trim(s.subrange(start, i + 1)) == s.subrange(a as int, i + 1));
            assert(trim_start(s.subrange(start, i + 1)) == s.subrange(a as int, i + 1));
            assert(blank_between(s, i + 1, i + 1));
            assert(!is_ws(s[(i + 1) - 1]));
        },
        None => {
            assert(s.subrange(i, i + 1) =~= seq![c]);
            assert(trim_start(cur).push(c) =~= seq![c]);
        },
    }
}

/// Scans `raw` once, copying nothing: the trimmed character ranges of its
/// first (at most three) non-blank lines, whether there is a further
/// non-blank line, and how many line breaks it has.
pub fn scan_preview_lines(raw: &str) -> (r: (Vec<(usize, usize)>, bool, usize, bool))
    ensures
        scan_result(raw@, r.0@, r.1),
        r.2 == count_newlines(raw@),
        r.3 == (raw@.len() > 0 && is_newline(raw@.last())),
{
    let n = raw.unicode_len();
    let ghost s = raw@;
    let mut ranges: Vec<(usize, usize)> = Vec::new();
    let mut more = false;
    let mut newlines: usize = 0;
    let mut start: usize = 0;
    let mut first: Option<usize> = None;
    let mut end: usize = 0;
    let mut i: usize = 0;
    let mut last_newline = false;
    proof {
        assert(s.take(0) =~= Seq::<char>::empty());
        lemma_trim_empty();
        assert(s.subrange(0, 0) =~= Seq::<char>::empty());
        assert(split_lines(s.take(0)) =~= seq![Seq::<char>::empty()]);
        assert(kept_of(split_lines(s.take(0)).drop_last()) =~= Seq::<Seq<char>>::empty());
        assert(range_texts(s, ranges@) =~= Seq::<Seq<char>>::empty());
    }
    for c in it: raw.chars()
        invariant
            it.seq() == s,
            s == raw@,
            s.len() == n,
            i == it.index(),
            current_line_trim(s, i as int, start as int, first, end as int),
            ranges_valid(s, ranges@),
            newlines == count_newlines(s.take(i as int)),
            newlines <= i,
            last_newline == (i > 0 && is_newline(s[i - 1])),
            !more ==> range_texts(s, ranges@) == kept_of(split_lines(s.take(i as int)).drop_last())
                && ranges@.len() <= 3 && (ranges@.len() == 3 ==> first is None),
            more ==> kept_of(split_lines(s.take(i as int))).len() > 3 && range_texts(s, ranges@)
                == kept_of(split_lines(s.take(i as int))).take(3) && ranges@.len() == 3,
    {
        let ghost p = s.take(i as int);
        let ghost l = split_lines(p);
        assert(s.take(i + 1) =~= p.push(c));
        proof {
            lemma_kept_step(p, c);
            lemma_count_newlines_push(p, c);
            if more {
                lemma_kept_stable(p, c);
            }
            lemma_trim_push(s.subrange(start as int, i as int), c);
            assert(s.subrange(start as int, i + 1) =~= s.subrange(start as int, i as int).push(c));
        }
        proof {
            if is_newline(c) {
                lemma_line_newline(s, i as int, start as int, first, end as int);
            } else if is_ws(c) {
                lemma_line_ws(s, i as int, start as int, first, end as int);
            } else {
                lemma_line_solid(s, i as int, start as int, first, end as int);
            }
        }
        if c == '\n' {
            if !more {
                match first {
                    Some(a) => {
                        let ghost before = ranges@;
                        ranges.push((a, end));
                        proof {
                            assert(range_texts(s, ranges@) =~= range_texts(s, before).push(
                                s.subrange(a as int, end as int),
                            ));
                        }
                    },
                    None => {},
                }
            }
            proof {
                lemma_trim_empty();
                assert(s.subrange(i + 1, i + 1) =~= Seq::<char>::empty());
            }
            newlines = newlines + 1;
            start = i + 1;
            first = None;
            end = i + 1;
        } else if !char_is_ws(c) {
            if !more && first.is_none() && ranges.len() == 3 {
                more = true;
                proof {
                    assert(trim(l.last().push(c)).len() > 0);
                    assert(kept_of(split_lines(p.push(c))) == kept_of(l.drop_last()).push(
                        trim(l.last().push(c)),
                    )) by {
                        let l2 = split_lines(p.push(c));
                        lemma_split_lines_nonempty(p.push(c));
                        assert(l2 =~= l2.drop_last().push(l2.last()));
                        lemma_kept_of_push(l2.drop_last(), l2.last());
                    }
                    assert(kept_of(l.drop_last()).push(trim(l.last().push(c))).take(3)
                        =~= kept_of(l.drop_last()));
                }
            }
            if first.is_none() {
                first = Some(i);
                proof {
                    assert(s.subrange(i as int, i + 1) =~= seq![c]);
                    assert(trim_start(s.subrange(start as int, i as int)).push(c) =~= seq![c]);
                }
            }
            end = i + 1;
        }
        last_newline = c == '\n';
        i = i + 1;
    }
    let ghost l = split_lines(s);
    proof {
        assert(s.take(n as int) =~= s);
        lemma_split_lines_nonempty(s);
        assert(l =~= l.drop_last().push(l.last()));
        lemma_kept_of_push(l.drop_last(), l.last());
    }
    if !more {
        match first {
            Some(a) => {
                let ghost before = ranges@;
                ranges.push((a, end));
                proof {
                    assert(range_texts(s, ranges@) =~= range_texts(s, before).push(
                        s.subrange(a as int, end as int),
                    ));
                }
            },
            None => {},
        }
        proof {
            assert(preview_lines(s).take(ranges@.len() as int) =~= preview_lines(s));
        }
    }
    (ranges, more, newlines, last_newline)
}

/// Most characters a preview keeps.
pub const MAX_PREVIEW_CHARS: usize = 160;

/// Most lines a preview shows.
pub const MAX_PREVIEW_LINES: usize = 3;

/// The first `n` elements, or all of them when there are fewer.
pub open spec fn first_n<A>(s: Seq<A>, n: int) -> Seq<A> {
    if s.len() <= n {
        s
    } else {
        s.take(n)
    }
}

/// The first `n` characters, or all when there are fewer.
pub open spec fn clip(s: Seq<char>, n: int) -> Seq<char> {
    first_n(s, n)
}

/// The shown lines joined by " / ".
pub open spec fn preview_stream(s: Seq<char>) -> Seq<char> {
    join_with(first_n(preview_lines(s), 3), " / "@)
}

/// The preview of a raw output: its first three non-blank lines, trimmed and
/// joined by " / ", cut to 160 characters; "..." follows when anything was
/// left out, characters or lines.
pub open spec fn preview_of(s: Seq<char>) -> Seq<char> {
    let st = preview_stream(s);
    let cut = st.len() > 160 || preview_lines(s).len() > 3;
    clip(st, 160) + if cut {
        "..."@
    } else {
        Seq::<char>::empty()
    }
}

/// Appends the first characters of `src[a..b]` to `out` while `out`, which
/// holds `full` cut to `limit` characters, stays within `limit`. Returns
/// whether the extended text is longer than `limit`.
fn push_clipped(
    out: &mut String,
    src: &str,
    a: usize,
    b: usize,
    limit: usize,
    over: bool,
    Ghost(full): Ghost<Seq<char>>,
) -> (new_over: bool)
    requires
        a <= b <= src@.len(),
        old(out)@ == clip(full, limit as int),
        over == (full.len() > limit),
    ensures
        final(out)@ == clip(full + src@.subrange(a as int, b as int), limit as int),
        new_over == (full.len() + (b - a) > limit),
{
    let ghost piece = src@.subrange(a as int, b as int);
    let used = out.as_str().unicode_len();
    if used >= limit {
        proof {
            assert(full.len() >= limit);
            assert((full + piece).take(limit as int) =~= full.take(limit as int));
        }
        return over || b > a;
    }
    let room = limit - used;
    let len = b - a;
    let take = if len < room {
        len
    } else {
        room
    };
    let part = src.substring_char(a, a + take);
    out.append(part);
    proof {
        assert(full.len() == used);
        if len < room {
            assert(full + piece =~= out@);
        } else {
            assert((full + piece).take(limit as int) =~= out@);
        }
    }
    len > room
}

/// The preview text of `raw` from the ranges the scan found.
pub fn compose_preview(raw: &str, ranges: &Vec<(usize, usize)>, more: bool) -> (r: String)
    requires
        scan_result(raw@, ranges@, more),
    ensures
        r@ == preview_of(raw@),
{
    let ghost s = raw@;
    let ghost texts = range_texts(s, ranges@);
    let ghost sep = " / "@;
    let n = raw.unicode_len();
    let separator = " / ";
    proof {
        reveal_strlit(" / ");
    }
    let sep_len = separator.unicode_len();
    let mut out = String::new();
    let mut over = false;
    let k_max = ranges.len();
    proof {
        assert(texts == first_n(preview_lines(s), 3)) by {
            if preview_lines(s).len() > 3 {
                assert(ranges@.len() == 3);
            } else {
                assert(preview_lines(s).take(preview_lines(s).len() as int) =~= preview_lines(s));
            }
        }
        assert(texts.take(0) =~= Seq::<Seq<char>>::empty());
        assert(clip(Seq::<char>::empty(), 160) =~= Seq::<char>::empty());
    }
    for k in 0..k_max
        invariant
            k_max == ranges@.len(),
            s == raw@,
            n == s.len(),
            sep_len == 3,
            separator@.len() == 3,
            sep == separator@,
            scan_result(s, ranges@, more),
            texts == range_texts(s, ranges@),
            out@ == clip(join_with(texts.take(k as int), sep), 160),
            over == (join_with(texts.take(k as int), sep).len() > 160),
    {
        let ghost before = join_with(texts.take(k as int), sep);
        let (a, b) = ranges[k];
        proof {
            assert(ranges@[k as int].0 <= ranges@[k as int].1 <= s.len());
            assert(texts[k as int] == s.subrange(a as int, b as int));
            lemma_join_with_push(texts.take(k as int), sep, texts[k as int]);
            assert(texts.take(k + 1) =~= texts.take(k as int).push(texts[k as int]));
        }
        if k > 0 {
            proof {
                assert(separator@.subrange(0, 3) =~= separator@);
            }
            over = push_clipped(&mut out, separator, 0, sep_len, MAX_PREVIEW_CHARS, over, Ghost(before));
            over = push_clipped(
                &mut out,
                raw,
                a,
                b,
                MAX_PREVIEW_CHARS,
                over,
                Ghost(before + sep),
            );
            proof {
                assert(before + sep + s.subrange(a as int, b as int) == join_with(
                    texts.take(k + 1),
                    sep,
                ));
            }
        } else {
            over = push_clipped(&mut out, raw, a, b, MAX_PREVIEW_CHARS, over, Ghost(before));
            proof {
                assert(before =~= Seq::<char>::empty());
                assert(before + s.subrange(a as int, b as int) =~= s.subrange(a as int, b as int));
            }
        }
    }
    proof {
        assert(texts.take(k_max as int) =~= texts);
    }
    if over || more {
        out.append("...");
    }
    out
}

/// Most bytes a raw artifact keeps.
pub const MAX_RAW_TOOL_ARTIFACT_BYTES: usize = 16 * 1024 * 1024;

/// The note that ends a cut raw output.
pub open spec fn content_marker(original_bytes: nat) -> Seq<char> {
    "\n\n...（原始工具结果已截断；truncated=true, originalBytes="@ + decimal(original_bytes)
        + ", limitBytes="@ + decimal(MAX_RAW_TOOL_ARTIFACT_BYTES as nat) + "）"@
}

/// The largest character boundary of `bytes` at or below `i`.
pub open spec fn floor_boundary(bytes: Seq<u8>, i: int) -> int
    decreases i,
{
    if i <= 0 {
        0
    } else if is_char_boundary(bytes, i) {
        i
    } else {
        floor_boundary(bytes, i - 1)
    }
}

/// Whether a raw output is too large to keep whole.
pub open spec fn content_truncated(s: Seq<char>) -> bool {
    encode_utf8(s).len() > MAX_RAW_TOOL_ARTIFACT_BYTES
}

/// Where a too-large output is cut: the last character boundary that leaves
/// room for the marker within the byte limit.
pub open spec fn content_cut(s: Seq<char>) -> int {
    let bytes = encode_utf8(s);
    let mlen = encode_utf8(content_marker(bytes.len())).len();
    let budget = if mlen >= MAX_RAW_TOOL_ARTIFACT_BYTES {
        0
    } else {
        MAX_RAW_TOOL_ARTIFACT_BYTES - mlen
    };
    floor_boundary(
        bytes,
        if budget < bytes.len() {
            budget
        } else {
            bytes.len() as int
        },
    )
}

/// The raw output as kept: whole when it fits the byte limit; otherwise its
/// longest prefix, cut at a character boundary, that leaves room for the
/// marker, followed by the marker.
pub open spec fn bounded_content(s: Seq<char>) -> Seq<char> {
    let bytes = encode_utf8(s);
    if !content_truncated(s) {
        s
    } else {
        decode_utf8(bytes.subrange(0, content_cut(s))) + content_marker(bytes.len())
    }
}

proof fn lemma_floor_boundary(bytes: Seq<u8>, i: int)
    requires
        valid_utf8(bytes),
        0 <= i <= bytes.len(),
    ensures
        0 <= floor_boundary(bytes, i) <= i,
        is_char_boundary(bytes, floor_boundary(bytes, i)),
    decreases i,
{
    is_char_boundary_start_end_of_seq(bytes);
    if i > 0 && !is_char_boundary(bytes, i) {
        lemma_floor_boundary(bytes, i - 1);
    }
}

/// The preview of a raw output, built in one pass over its characters without
/// copying any line whole.
pub fn bounded_raw_artifact_preview(raw_output: &str) -> (r: String)
    ensures
        r@ == preview_of(raw_output@),
{
    let (ranges, more, _, _) = scan_preview_lines(raw_output);
    compose_preview(raw_output, &ranges, more)
}

/// The kept content of a raw output, and whether it was cut.
pub fn bounded_raw_artifact_content(raw: &str) -> (r: (String, bool))
    ensures
        r.0@ == bounded_content(raw@),
        r.1 == content_truncated(raw@),
{
    let ghost bytes = encode_utf8(raw@);
    proof {
        encode_utf8_valid_utf8(raw@);
    }
    let len = raw.as_bytes().len();
    if len <= MAX_RAW_TOOL_ARTIFACT_BYTES {
        return (String::from_str(raw), false);
    }
    let mut marker = String::from_str(
        "\n\n...（原始工具结果已截断；truncated=true, originalBytes=",
    );
    let original = u64_to_decimal(len as u64);
    marker.append(original.as_str());
    marker.append(", limitBytes=");
    let limit = u64_to_decimal(MAX_RAW_TOOL_ARTIFACT_BYTES as u64);
    marker.append(limit.as_str());
    marker.append("）");
    assert(marker@ =~= content_marker(bytes.len()));
    let mlen = marker.as_str().as_bytes().len();
    let budget = if mlen >= MAX_RAW_TOOL_ARTIFACT_BYTES {
        0
    } else {
        MAX_RAW_TOOL_ARTIFACT_BYTES - mlen
    };
    let mut boundary = if budget < len {
        budget
    } else {
        len
    };
    let ghost start = boundary as int;
    proof {
        is_char_boundary_start_end_of_seq(bytes);
    }
    while !raw.is_char_boundary(boundary)
        invariant
            bytes == encode_utf8(raw@),
            valid_utf8(bytes),
            is_char_boundary(bytes, 0),
            0 <= boundary <= start <= bytes.len(),
            floor_boundary(bytes, start) == floor_boundary(bytes, boundary as int),
        decreases boundary,
    {
        boundary = boundary - 1;
    }
    let (head, _) = raw.split_at(boundary);
    proof {
        encode_utf8_decode_utf8(head@);
        assert(floor_boundary(bytes, boundary as int) == boundary);
        assert(content_cut(raw@) == boundary);
        assert(head@ == decode_utf8(bytes.subrange(0, boundary as int)));
    }
    let mut content = String::from_str(head);
    content.append(marker.as_str());
    (content, true)
}

/// Bytes the UTF-8 encoding of two texts takes: the sum of each.
pub proof fn lemma_encode_utf8_concat(x: Seq<char>, y: Seq<char>)
    ensures
        encode_utf8(x + y) == encode_utf8(x) + encode_utf8(y),
    decreases x.len(),
{
    if x.len() == 0 {
        assert(x + y =~= y);
    } else {
        assert((x + y).drop_first() =~= x.drop_first() + y);
        lemma_encode_utf8_concat(x.drop_first(), y);
        assert((x + y)[0] == x[0]);
    }
}

/// A reference to a stored artifact, as a message carries it.
#[derive(Debug, Clone)]
pub struct DispatcherToolArtifactRef {
    pub id: String,
    pub title: String,
    pub kind: String,
    pub preview: String,
    pub char_count: usize,
    pub line_count: usize,
    pub created_at: String,
}

/// An artifact about to be stored.
#[derive(Debug, Clone, PartialEq, Eq)]
pub struct ToolArtifactDraft {
    pub kind: String,
    pub title: String,
    pub preview: String,
    pub content: String,
    pub char_count: usize,
    pub line_count: usize,
}

/// A stored artifact.
#[derive(Debug, Clone)]
pub struct DispatcherToolArtifactRecord {
    pub id: String,
    pub workspace_id: String,
    pub message_id: Option<String>,
    pub tool_call_id: Option<String>,
    pub tool_run_id: Option<String>,
    pub tool_name: Option<String>,
    pub title: String,
    pub kind: String,
    pub preview: String,
    pub content: String,
    pub char_count: usize,
    pub line_count: usize,
    pub created_at: String,
}

/// The preview shown when the output has no non-blank line.
pub open spec fn empty_preview_note() -> Seq<char> {
    "原始结果为空白或仅包含空行"@
}

/// The preview of a raw artifact: the output's preview (or the empty-output
/// note), followed, when the content was cut, by a note with the original and
/// the stored byte counts.
pub open spec fn raw_preview(s: Seq<char>) -> Seq<char> {
    let p = if preview_of(s).len() == 0 {
        empty_preview_note()
    } else {
        preview_of(s)
    };
    if content_truncated(s) {
        p + " [已截断 truncated=true, originalBytes="@ + decimal(encode_utf8(s).len())
            + ", storedBytes="@ + decimal(encode_utf8(bounded_content(s)).len()) + "]"@
    } else {
        p
    }
}

impl ToolArtifactDraft {
    /// The artifact keeping a tool's raw output: the content bounded to the
    /// byte limit, a short preview, and the character and line counts of the
    /// whole original output.
    pub fn raw_tool_output(tool_name: &str, raw_output: &str) -> (r: Self)
        ensures
            r.kind@ == "tool_raw_output"@,
            r.title@ == tool_name@ + " 原始结果"@,
            r.content@ == bounded_content(raw_output@),
            r.preview@ == raw_preview(raw_output@),
            r.char_count == raw_output@.len(),
            r.line_count == line_count_of(raw_output@),
    {
        let original_bytes = raw_output.as_bytes().len();
        let original_chars = raw_output.unicode_len();
        let (ranges, more, newlines, last_newline) = scan_preview_lines(raw_output);
        let line_count = if original_chars == 0 {
            1
        } else if last_newline {
            newlines
        } else {
            proof {
                lemma_count_newlines_bound(raw_output@.drop_last());
                assert(count_newlines(raw_output@) == count_newlines(raw_output@.drop_last()));
            }
            newlines + 1
        };
        let (content, truncated) = bounded_raw_artifact_content(raw_output);
        let mut preview = compose_preview(raw_output, &ranges, more);
        if preview.as_str().unicode_len() == 0 {
            preview = String::from_str("原始结果为空白或仅包含空行");
        }
        if truncated {
            preview.append(" [已截断 truncated=true, originalBytes=");
            let original = u64_to_decimal(original_bytes as u64);
            preview.append(original.as_str());
            preview.append(", storedBytes=");
            let stored = u64_to_decimal(content.as_str().as_bytes().len() as u64);
            preview.append(stored.as_str());
            preview.append("]");
        }
        let mut title = String::from_str(tool_name);
        title.append(" 原始结果");
        ToolArtifactDraft {
            kind: String::from_str("tool_raw_output"),
            title,
            preview,
            content,
            char_count: original_chars,
            line_count,
        }
    }
}

proof fn lemma_count_newlines_bound(s: Seq<char>)
    ensures
        count_newlines(s) <= s.len(),
    decreases s.len(),
{
    if s.len() > 0 {
        lemma_count_newlines_bound(s.drop_last());
    }
}

/// A preview never exceeds 160 characters plus the three-dot ellipsis.
pub proof fn law_preview_is_bounded(s: Seq<char>)
    ensures
        preview_of(s).len() <= 163,
{
    reveal_strlit("...");
}

pub open spec fn pow10(k: nat) -> nat
    decreases k,
{
    if k == 0 {
        1
    } else {
        10 * pow10((k - 1) as nat)
    }
}

proof fn lemma_decimal_len(n: nat, k: nat)
    requires
        n < pow10(k),
        k >= 1,
    ensures
        decimal(n).len() <= k,
    decreases k,
{
    if n >= 10 {
        assert(k >= 2) by {
            if k == 1 {
                assert(pow10(1) == 10 * pow10(0));
            }
        }
        assert(pow10(k) == 10 * pow10((k - 1) as nat));
        assert(n / 10 < pow10((k - 1) as nat));
        lemma_decimal_len(n / 10, (k - 1) as nat);
    }
}

proof fn lemma_encode_len(s: Seq<char>)
    ensures
        encode_utf8(s).len() <= 4 * s.len(),
    decreases s.len(),
{
    if s.len() > 0 {
        lemma_encode_len(s.drop_first());
        vstd::utf8::char_is_scalar(s[0]);
    }
}

proof fn lemma_pow10_20()
    ensures
        pow10(20) == 100_000_000_000_000_000_000,
{
    reveal_with_fuel(pow10, 21);
}

/// The kept content of an output never exceeds the byte limit.
pub proof fn law_content_fits_limit(s: Seq<char>)
    requires
        encode_utf8(s).len() <= u64::MAX,
    ensures
        encode_utf8(bounded_content(s)).len() <= MAX_RAW_TOOL_ARTIFACT_BYTES,
{
    if content_truncated(s) {
        let bytes = encode_utf8(s);
        let marker = content_marker(bytes.len());
        lemma_pow10_20();
        lemma_decimal_len(bytes.len(), 20);
        lemma_decimal_len(MAX_RAW_TOOL_ARTIFACT_BYTES as nat, 20);
        reveal_strlit("\n\n...（原始工具结果已截断；truncated=true, originalBytes=");
        reveal_strlit(", limitBytes=");
        reveal_strlit("）");
        lemma_encode_len(marker);
        let mlen = encode_utf8(marker).len();
        assert(mlen < MAX_RAW_TOOL_ARTIFACT_BYTES);
        encode_utf8_valid_utf8(s);
        let cut = content_cut(s);
        let budget = MAX_RAW_TOOL_ARTIFACT_BYTES - mlen;
        lemma_floor_boundary(bytes, if budget < bytes.len() {
            budget
        } else {
            bytes.len() as int
        });
        valid_utf8_split(bytes, cut);
        let prefix = bytes.subrange(0, cut);
        decode_utf8_encode_utf8(prefix);
        lemma_encode_utf8_concat(decode_utf8(prefix), marker);
    }
}


/// A stored count as a size: `None` when the stored integer is negative or
/// does not fit, which is reported as a conversion failure of its column.
pub fn usize_from_sql(value: i64) -> (r: Option<usize>)
    ensures
        (0 <= value && value <= usize::MAX) ==> r == Some(value as usize),
        !(0 <= value && value <= usize::MAX) ==> r is None,
{
    if value < 0 {
        None
    } else if (value as u64) > (usize::MAX as u64) {
        None
    } else {
        Some(value as usize)
    }
}

} // verus!
