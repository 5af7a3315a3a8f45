//! Reflow of raw article body text into display rows.
//!
//! The body of a syndicated article may carry leading and trailing
//! whitespace and ragged runs of blank lines.  Reflowing trims the ends,
//! collapses every run of two or more newlines into a single line break,
//! and splits the remainder into rows, one per line.  An empty or
//! whitespace-only body yields no rows at all.

use vstd::prelude::*;

verus! {

/// The code points the reflow treats as whitespace when trimming the ends
/// of the body text: the Unicode `White_Space` set.
pub open spec fn is_body_ws(c: char) -> bool {
    let u = c as u32;
    u == 0x09 || u == 0x0a || u == 0x0b || u == 0x0c || u == 0x0d || u == 0x20 || u == 0x85
        || u == 0xa0 || u == 0x1680 || (0x2000 <= u && u <= 0x200a) || u == 0x2028 || u == 0x2029
        || u == 0x202f || u == 0x205f || u == 0x3000
}

/// `s` with its leading whitespace removed.
pub open spec fn trim_start(s: Seq<char>) -> Seq<char>
    decreases s.len(),
{
    if s.len() == 0 {
        s
    } else if is_body_ws(s[0]) {
        trim_start(s.drop_first())
    } else {
        s
    }
}

/// `s` with its trailing whitespace removed.
pub open spec fn trim_end(s: Seq<char>) -> Seq<char>
    decreases s.len(),
{
    if s.len() == 0 {
        s
    } else if is_body_ws(s.last()) {
        trim_end(s.drop_last())
    } else {
        s
    }
}

/// `s` with whitespace removed from both ends.
pub open spec fn trim_ws(s: Seq<char>) -> Seq<char> {
    trim_end(trim_start(s))
}

/// `s` with every run of two or more consecutive newlines replaced by a
/// single newline.
pub open spec fn collapse_newlines(s: Seq<char>) -> Seq<char>
    decreases s.len(),
{
    if s.len() == 0 {
        s
    } else if s.len() >= 2 && s[0] == '\n' && s[1] == '\n' {
        collapse_newlines(s.drop_first())
    } else {
        seq![s[0]] + collapse_newlines(s.drop_first())
    }
}

/// `s` split on single newline boundaries; a text without a newline is one
/// row, and each newline opens a further row.
pub open spec fn split_rows(s: Seq<char>) -> Seq<Seq<char>>
    decreases s.len(),
{
    if s.len() == 0 {
        seq![Seq::<char>::empty()]
    } else if s[0] == '\n' {
        seq![Seq::<char>::empty()] + split_rows(s.drop_first())
    } else {
        let rest = split_rows(s.drop_first());
        seq![seq![s[0]] + rest[0]] + rest.drop_first()
    }
}

/// The display rows produced from a raw article body: trim both ends,
/// collapse newline runs, then split on the remaining newlines.  An empty
/// or whitespace-only body yields no rows.
pub open spec fn reflow_rows(body: Seq<char>) -> Seq<Seq<char>> {
    let t = trim_ws(body);
    if t.len() == 0 {
        Seq::<Seq<char>>::empty()
    } else {
        split_rows(collapse_newlines(t))
    }
}

/// The maximal runs of non-newline characters of `s`, in order.  On a text
/// with no whitespace at either end this coincides with `reflow_rows`, and
/// it is the shape a single left-to-right scan of the text produces.
pub open spec fn segments(s: Seq<char>) -> Seq<Seq<char>>
    decreases s.len(),
{
    if s.len() == 0 {
        Seq::<Seq<char>>::empty()
    } else if s[0] == '\n' {
        segments(s.drop_first())
    } else if s.len() >= 2 && s[1] != '\n' {
        let rest = segments(s.drop_first());
        seq![seq![s[0]] + rest[0]] + rest.drop_first()
    } else {
        seq![seq![s[0]]] + segments(s.drop_first())
    }
}

/// The views of a sequence of rows, one character sequence per row.
pub open spec fn rows_view(rows: Seq<String>) -> Seq<Seq<char>> {
    Seq::new(rows.len(), |i: int| rows[i]@)
}

/// Whether `c` is whitespace in the sense of the reflow.
pub fn is_ws_char(c: char) -> (b: bool)
    ensures
        b == is_body_ws(c),
{
    let u: u32 = c as u32;
    u == 0x09 || u == 0x0a || u == 0x0b || u == 0x0c || u == 0x0d || u == 0x20 || u == 0x85
        || u == 0xa0 || u == 0x1680 || (0x2000 <= u && u <= 0x200a) || u == 0x2028 || u == 0x2029
        || u == 0x202f || u == 0x205f || u == 0x3000
}

proof fn lemma_trim_start_skip(s: Seq<char>, k: int)
    requires
        0 <= k <= s.len(),
        forall|i: int| 0 <= i < k ==> is_body_ws(s[i]),
        k == s.len() || !is_body_ws(s[k]),
    ensures
        trim_start(s) == s.skip(k),
    decreases k,
{
    if k == 0 {
        assert(s.skip(0) =~= s);
    } else {
        lemma_trim_start_skip(s.drop_first(), k - 1);
        assert(s.drop_first().skip(k - 1) =~= s.skip(k));
    }
}

proof fn lemma_trim_end_take(s: Seq<char>, m: int)
    requires
        0 <= m <= s.len(),
        forall|i: int| m <= i < s.len() ==> is_body_ws(s[i]),
        m == 0 || !is_body_ws(s[m - 1]),
    ensures
        trim_end(s) == s.take(m),
    decreases s.len() - m,
{
    if m == s.len() {
        assert(s.take(m) =~= s);
    } else {
        lemma_trim_end_take(s.drop_last(), m);
        assert(s.drop_last().take(m) =~= s.take(m));
    }
}

proof fn lemma_cons_segment(t: Seq<char>, k: int)
    requires
        0 < k <= t.len(),
        forall|i: int| 0 <= i < k ==> t[i] != '\n',
        k == t.len() || t[k] == '\n',
    ensures
        segments(t) == seq![t.take(k)] + segments(t.skip(k)),
    decreases k,
{
    assert(t[0] != '\n');
    if k == 1 {
        assert(t.take(1) =~= seq![t[0]]);
        assert(t.skip(1) =~= t.drop_first());
        if t.len() == 1 {
            assert(segments(t) =~= seq![t.take(k)] + segments(t.skip(k)));
        } else {
            assert(t[1] == '\n');
            assert(segments(t) =~= seq![t.take(k)] + segments(t.skip(k)));
        }
    } else {
        assert(t[1] != '\n');
        let rest = segments(t.drop_first());
        lemma_cons_segment(t.drop_first(), k - 1);
        assert(rest == seq![t.drop_first().take(k - 1)] + segments(t.drop_first().skip(k - 1)));
        assert(rest[0] == t.drop_first().take(k - 1));
        assert(rest.drop_first() =~= segments(t.drop_first().skip(k - 1)));
        assert(t.drop_first().skip(k - 1) =~= t.skip(k));
        assert(seq![t[0]] + t.drop_first().take(k - 1) =~= t.take(k));
        assert(segments(t) =~= seq![t.take(k)] + segments(t.skip(k)));
    }
}

/// One `String` row for each maximal newline-free run of `s` between
/// character positions `from` and `to`, in order.
fn rows_from(s: &str, from: usize, to: usize) -> (rows: Vec<String>)
    requires
        from <= to <= s@.len(),
    ensures
        rows_view(rows@) == segments(s@.subrange(from as int, to as int)),
    decreases to - from,
{
    let ghost t = s@.subrange(from as int, to as int);
    if from == to {
        let rows: Vec<String> = Vec::new();
        proof {
            assert(t =~= Seq::<char>::empty());
            assert(rows_view(rows@) =~= segments(t));
        }
        rows
    } else if s.get_char(from) == '\n' {
        let rows = rows_from(s, from + 1, to);
        proof {
            assert(t.drop_first() =~= s@.subrange(from + 1, to as int));
        }
        rows
    } else {
        let mut k: usize = from + 1;
        while k < to && s.get_char(k) != '\n'
            invariant
                from < k <= to <= s@.len(),
                forall|i: int| from < i < k ==> s@[i] != '\n',
            decreases to - k,
        {
            k = k + 1;
        }
        let row = s.substring_char(from, k).to_owned();
        let mut rows = rows_from(s, k, to);
        rows.insert(0, row);
        proof {
            lemma_cons_segment(t, k - from);
            assert(t.take(k - from) =~= s@.subrange(from as int, k as int));
            assert(t.skip(k - from) =~= s@.subrange(k as int, to as int));
            assert(rows_view(rows@) =~= seq![t.take(k - from)] + segments(t.skip(k - from)));
        }
        rows
    }
}

proof fn lemma_split_collapse_is_segments(t: Seq<char>)
    requires
        t.len() > 0,
        t.last() != '\n',
    ensures
        split_rows(collapse_newlines(t)) == (if t[0] == '\n' {
            seq![Seq::<char>::empty()]
        } else {
            Seq::<Seq<char>>::empty()
        }) + segments(t),
    decreases t.len(),
{
    let d = t.drop_first();
    if t.len() == 1 {
        assert(t[0] != '\n');
        assert(collapse_newlines(t) == seq![t[0]] + collapse_newlines(d));
        assert(d =~= Seq::<char>::empty());
        assert(collapse_newlines(t) =~= seq![t[0]]);
        let rest = split_rows(seq![t[0]].drop_first());
        assert(seq![t[0]].drop_first() =~= Seq::<char>::empty());
        assert(rest == seq![Seq::<char>::empty()]);
        assert(split_rows(collapse_newlines(t)) =~= Seq::<Seq<char>>::empty() + segments(t));
    } else {
        assert(d.len() > 0);
        assert(d.last() == t.last());
        lemma_split_collapse_is_segments(d);
        if t[0] == '\n' && t[1] == '\n' {
            assert(collapse_newlines(t) == collapse_newlines(d));
            assert(segments(t) == segments(d));
        } else if t[0] == '\n' {
            // a single newline survives the collapse and opens an empty row
            assert(collapse_newlines(t) == seq![t[0]] + collapse_newlines(d));
            let c = collapse_newlines(t);
            assert(c[0] == '\n');
            assert(c.drop_first() =~= collapse_newlines(d));
            assert(split_rows(c) == seq![Seq::<char>::empty()] + split_rows(collapse_newlines(d)));
            assert(segments(t) == segments(d));
            assert(split_rows(c) =~= seq![Seq::<char>::empty()] + segments(t));
        } else {
            assert(collapse_newlines(t) == seq![t[0]] + collapse_newlines(d));
            let c = collapse_newlines(t);
            assert(c[0] == t[0] && c[0] != '\n');
            assert(c.drop_first() =~= collapse_newlines(d));
            let rest = split_rows(collapse_newlines(d));
            assert(split_rows(c) == seq![seq![c[0]] + rest[0]] + rest.drop_first());
            if t[1] == '\n' {
                assert(rest == seq![Seq::<char>::empty()] + segments(d));
                assert(rest[0] =~= Seq::<char>::empty());
                assert(rest.drop_first() =~= segments(d));
                assert(seq![c[0]] + rest[0] =~= seq![t[0]]);
                assert(segments(t) == seq![seq![t[0]]] + segments(d));
                assert(split_rows(c) =~= Seq::<Seq<char>>::empty() + segments(t));
            } else {
                assert(rest == Seq::<Seq<char>>::empty() + segments(d));
                assert(rest =~= segments(d));
                // the first segment of the tail is extended by t[0]
                assert(d[0] != '\n');
                assert(segments(d).len() >= 1);
                assert(rest[0] == segments(d)[0]);
                assert(rest.drop_first() =~= segments(d).drop_first());
                assert(segments(t) == seq![seq![t[0]] + segments(d)[0]] + segments(d).drop_first());
                assert(split_rows(c) =~= Seq::<Seq<char>>::empty() + segments(t));
            }
        }
    }
}

proof fn lemma_trim_start_head(s: Seq<char>)
    ensures
        trim_start(s).len() > 0 ==> !is_body_ws(trim_start(s)[0]),
    decreases s.len(),
{
    if s.len() > 0 && is_body_ws(s[0]) {
        lemma_trim_start_head(s.drop_first());
    }
}

proof fn lemma_trim_end_last(s: Seq<char>)
    ensures
        trim_end(s).len() > 0 ==> !is_body_ws(trim_end(s).last()),
    decreases s.len(),
{
    if s.len() > 0 && is_body_ws(s.last()) {
        lemma_trim_end_last(s.drop_last());
    }
}

proof fn lemma_trim_end_head(s: Seq<char>)
    ensures
        trim_end(s).len() > 0 ==> s.len() > 0 && trim_end(s)[0] == s[0],
    decreases s.len(),
{
    if s.len() > 0 && is_body_ws(s.last()) {
        lemma_trim_end_head(s.drop_last());
    }
}

/// The reflow of any body text is exactly the sequence of maximal
/// newline-free runs of its trimmed form.
pub proof fn lemma_reflow_is_segments(body: Seq<char>)
    ensures
        reflow_rows(body) == segments(trim_ws(body)),
{
    let t = trim_ws(body);
    if t.len() == 0 {
    } else {
        lemma_trim_start_head(body);
        lemma_trim_end_head(trim_start(body));
        lemma_trim_end_last(trim_start(body));
        assert(is_body_ws('\n'));
        assert(t[0] != '\n' && t.last() != '\n');
        lemma_split_collapse_is_segments(t);
        assert(split_rows(collapse_newlines(t)) =~= segments(t));
    }
}

/// Reflow a raw article body into display rows: trim whitespace from both
/// ends, collapse every run of two or more newlines into one, and split on
/// the remaining newlines.  An empty or whitespace-only body gives no rows.
pub fn make_summary_rows(summary: &str) -> (rows: Vec<String>)
    ensures
        rows_view(rows@) == reflow_rows(summary@),
{
    let n = summary.unicode_len();
    let mut start: usize = 0;
    while start < n && is_ws_char(summary.get_char(start))
        invariant
            0 <= start <= n == summary@.len(),
            forall|i: int| 0 <= i < start ==> is_body_ws(summary@[i]),
        decreases n - start,
    {
        start = start + 1;
    }
    let mut end: usize = n;
    while end > start && is_ws_char(summary.get_char(end - 1))
        invariant
            start <= end <= n == summary@.len(),
            forall|i: int| end <= i < n ==> is_body_ws(summary@[i]),
        decreases end,
    {
        end = end - 1;
    }
    proof {
        lemma_trim_start_skip(summary@, start as int);
        lemma_trim_end_take(summary@.skip(start as int), end - start);
        assert(summary@.skip(start as int).take(end - start) =~= summary@.subrange(
            start as int,
            end as int,
        ));
        assert(trim_ws(summary@) == summary@.subrange(start as int, end as int));
        lemma_reflow_is_segments(summary@);
    }
    rows_from(summary, start, end)
}

/// No reflowed row is ever empty: trimming the ends and collapsing newline
/// runs leaves no blank rows, so in particular no two consecutive empty
/// rows can arise from a run of newlines in the body.
pub proof fn lemma_reflow_no_empty_rows(body: Seq<char>)
    ensures
        forall|i: int| 0 <= i < reflow_rows(body).len() ==> reflow_rows(body)[i].len() > 0,
{
    lemma_reflow_is_segments(body);
    lemma_segments_no_empty(trim_ws(body));
}

proof fn lemma_segments_no_empty(s: Seq<char>)
    ensures
        forall|i: int| 0 <= i < segments(s).len() ==> segments(s)[i].len() > 0,
    decreases s.len(),
{
    if s.len() == 0 {
    } else {
        lemma_segments_no_empty(s.drop_first());
        let rest = segments(s.drop_first());
        if s[0] == '\n' {
        } else if s.len() >= 2 && s[1] != '\n' {
            assert forall|i: int| 0 <= i < segments(s).len() implies segments(s)[i].len()
                > 0 by {
                if i > 0 {
                    assert(segments(s)[i] == rest[i]);
                }
            }
        } else {
            assert forall|i: int| 0 <= i < segments(s).len() implies segments(s)[i].len()
                > 0 by {
                if i > 0 {
                    assert(segments(s)[i] == rest[i - 1]);
                }
            }
        }
    }
}

/// An empty or whitespace-only body reflows to zero rows.
pub proof fn lemma_reflow_ws_only(body: Seq<char>)
    requires
        forall|i: int| 0 <= i < body.len() ==> is_body_ws(body[i]),
    ensures
        reflow_rows(body).len() == 0,
{
    lemma_trim_start_skip(body, body.len() as int);
    assert(body.skip(body.len() as int) =~= Seq::<char>::empty());
}

} // verus!
