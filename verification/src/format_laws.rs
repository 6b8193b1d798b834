//! Formatting a formatted document changes nothing.
use vstd::prelude::*;
use crate::format::{fmt_scan, fmt_step, formatted_text, indent, indent_unit, FmtState};
use crate::splits::{lines, split_on, strip_cr};
use crate::strops::{lead_ws, starts_with, trail_ws, trim, trim_end, trim_start};
use crate::text::is_ws;

verus! {

/// Every character of `s` is whitespace other than a line break.
pub open spec fn blank_run(s: Seq<char>) -> bool {
    forall|i: int| 0 <= i < s.len() ==> is_ws(#[trigger] s[i]) && s[i] != '\n'
}

/// `s` holds no line break.
pub open spec fn no_nl(s: Seq<char>) -> bool {
    forall|i: int| 0 <= i < s.len() ==> #[trigger] s[i] != '\n'
}

/// `s` is trimmed: empty, or neither starts nor ends with whitespace.
pub open spec fn trimmed(s: Seq<char>) -> bool {
    s.len() > 0 ==> !is_ws(s[0]) && !is_ws(s.last())
}

proof fn lemma_lead_ws_stop(s: Seq<char>)
    ensures
        lead_ws(s) <= s.len(),
        lead_ws(s) < s.len() ==> !is_ws(s[lead_ws(s) as int]),
    decreases s.len(),
{
    if s.len() > 0 && is_ws(s[0]) {
        lemma_lead_ws_stop(s.drop_first());
    }
}

proof fn lemma_trail_ws_stop(s: Seq<char>)
    ensures
        trail_ws(s) <= s.len(),
        trail_ws(s) < s.len() ==> !is_ws(s[s.len() - trail_ws(s) - 1]),
    decreases s.len(),
{
    if s.len() > 0 && is_ws(s.last()) {
        lemma_trail_ws_stop(s.drop_last());
    }
}

/// `trim` leaves a trimmed sequence without line breaks when it had none.
proof fn lemma_trim_trimmed(s: Seq<char>)
    ensures
        trimmed(trim(s)),
        no_nl(s) ==> no_nl(trim(s)),
{
    lemma_lead_ws_stop(s);
    let u = trim_start(s);
    lemma_trail_ws_stop(u);
    let t = trim(s);
    if t.len() > 0 {
        assert(t[0] == u[0]);
        assert(u[0] == s[lead_ws(s) as int]);
        assert(t.last() == u[u.len() - trail_ws(u) - 1]);
    }
    if no_nl(s) {
        assert forall|i: int| 0 <= i < t.len() implies #[trigger] t[i] != '\n' by {
            assert(t[i] == s[lead_ws(s) + i]);
        }
    }
}

proof fn lemma_lead_ws_prefix(w: Seq<char>, t: Seq<char>)
    requires
        blank_run(w),
        t.len() > 0,
        !is_ws(t[0]),
    ensures
        lead_ws(w + t) == w.len(),
    decreases w.len(),
{
    if w.len() == 0 {
        assert(w + t =~= t);
    } else {
        assert((w + t)[0] == w[0]);
        assert((w + t).drop_first() =~= w.drop_first() + t);
        lemma_lead_ws_prefix(w.drop_first(), t);
    }
}

/// Whitespace before a trimmed line goes away with `trim`.
proof fn lemma_trim_after_blank(w: Seq<char>, t: Seq<char>)
    requires
        blank_run(w),
        trimmed(t),
        t.len() > 0,
    ensures
        trim(w + t) == t,
{
    lemma_lead_ws_prefix(w, t);
    assert(trim_start(w + t) =~= t);
    assert(trail_ws(t) == 0);
    assert(trim_end(t) =~= t);
}

proof fn lemma_indent_blank(unit: Seq<char>, n: nat)
    requires
        blank_run(unit),
    ensures
        blank_run(indent(unit, n)),
    decreases n,
{
    if n > 0 {
        lemma_indent_blank(unit, (n - 1) as nat);
        let a = indent(unit, (n - 1) as nat);
        assert forall|i: int| 0 <= i < indent(unit, n).len() implies is_ws(#[trigger] indent(unit, n)[i])
            && indent(unit, n)[i] != '\n' by {
            if i < a.len() {
                assert(indent(unit, n)[i] == a[i]);
            } else {
                assert(indent(unit, n)[i] == unit[i - a.len()]);
            }
        }
    }
}

proof fn lemma_unit_blank(tab_size: nat, insert_spaces: bool)
    ensures
        blank_run(indent_unit(tab_size, insert_spaces)),
{
}

proof fn lemma_split_pieces_no_nl(s: Seq<char>)
    ensures
        forall|k: int| 0 <= k < split_on(s, '\n').len() ==> no_nl(#[trigger] split_on(s, '\n')[k]),
    decreases s.len(),
{
    if s.len() > 0 {
        lemma_split_pieces_no_nl(s.drop_last());
        let p = split_on(s.drop_last(), '\n');
        crate::splits::lemma_split_on_nonempty(s.drop_last(), '\n');
        if s.last() != '\n' {
            assert forall|k: int| 0 <= k < split_on(s, '\n').len() implies no_nl(#[trigger] split_on(s, '\n')[k]) by {
                if k == p.len() - 1 {
                    let q = p.last().push(s.last());
                    assert(split_on(s, '\n')[k] == q);
                    assert forall|i: int| 0 <= i < q.len() implies #[trigger] q[i] != '\n' by {
                        if i < p.last().len() {
                            assert(q[i] == p.last()[i]);
                        }
                    }
                }
            }
        }
    }
}

/// The lines of a text hold no line break.
proof fn lemma_lines_no_nl(s: Seq<char>)
    ensures
        forall|k: int| 0 <= k < lines(s).len() ==> no_nl(#[trigger] lines(s)[k]),
{
    lemma_split_pieces_no_nl(s);
    crate::splits::lemma_split_on_nonempty(s, '\n');
    let p = split_on(s, '\n');
    assert(lines(s).len() <= p.len());
    assert forall|k: int| 0 <= k < lines(s).len() implies no_nl(#[trigger] lines(s)[k]) by {
        assert(0 <= k < p.len());
        let x = p[k];
        assert(no_nl(x));
        if k < p.len() - 1 && x.len() > 0 && x.last() == '\r' {
            assert(lines(s)[k] == x.drop_last());
            assert forall|i: int| 0 <= i < x.drop_last().len() implies #[trigger] x.drop_last()[i] != '\n' by {
                assert(x.drop_last()[i] == x[i]);
            }
        }
    }
}

/// What the formatter writes for one line, without its line break: nothing
/// for a second blank line in a row.
pub open spec fn piece(st: FmtState, raw: Seq<char>, unit: Seq<char>) -> Option<Seq<char>> {
    let t = trim(raw);
    if t.len() == 0 {
        if st.blanks == 0 {
            Some(seq![])
        } else {
            None
        }
    } else if starts_with(t, "#"@) {
        Some(t)
    } else if starts_with(t, "//"@) || starts_with(t, "/*"@) {
        Some(indent(unit, st.level) + t)
    } else {
        let lc = crate::format::leading_close_from(t, 0);
        Some(indent(unit, crate::format::sat_sub(st.level, lc)) + t)
    }
}

proof fn lemma_step_text(st: FmtState, raw: Seq<char>, unit: Seq<char>)
    ensures
        fmt_step(st, raw, unit).text == match piece(st, raw, unit) {
            Some(b) => st.text + b + seq!['\n'],
            None => st.text,
        },
        (fmt_step(st, raw, unit).blanks == 0) == (trim(raw).len() > 0),
{
    reveal_strlit("\n");
    let t = trim(raw);
    if t.len() == 0 {
        if st.blanks == 0 {
            assert(st.text.push('\n') =~= st.text + seq![] + seq!['\n']);
        }
    } else {
        assert(st.text + t + "\n"@ =~= st.text + t + seq!['\n']);
        let s2 = fmt_step(st, raw, unit);
        if starts_with(t, "#"@) {
        } else if starts_with(t, "//"@) || starts_with(t, "/*"@) {
            assert(st.text + indent(unit, st.level) + t + "\n"@ =~= st.text + (indent(unit, st.level) + t) + seq!['\n']);
        } else {
            let l1 = crate::format::sat_sub(st.level, crate::format::leading_close_from(t, 0));
            assert(st.text + indent(unit, l1) + t + "\n"@ =~= st.text + (indent(unit, l1) + t) + seq!['\n']);
        }
    }
}

proof fn lemma_split_append(s: Seq<char>, b: Seq<char>)
    requires
        no_nl(b),
    ensures
        split_on(s + b, '\n') == split_on(s, '\n').update(
            split_on(s, '\n').len() - 1,
            split_on(s, '\n').last() + b,
        ),
    decreases b.len(),
{
    crate::splits::lemma_split_on_nonempty(s, '\n');
    let p = split_on(s, '\n');
    if b.len() == 0 {
        assert(s + b =~= s);
        assert(p.update(p.len() - 1, p.last() + b) =~= p);
    } else {
        let b1 = b.drop_last();
        assert(no_nl(b1)) by {
            assert forall|i: int| 0 <= i < b1.len() implies #[trigger] b1[i] != '\n' by {
                assert(b1[i] == b[i]);
            }
        }
        lemma_split_append(s, b1);
        assert((s + b).drop_last() =~= s + b1);
        assert((s + b).last() == b.last());
        assert(b.last() != '\n');
        let q = split_on(s + b1, '\n');
        assert(q =~= p.update(p.len() - 1, p.last() + b1));
        assert((p.last() + b1).push(b.last()) =~= p.last() + b);
        assert(q.update(q.len() - 1, q.last().push(b.last())) =~= p.update(p.len() - 1, p.last() + b));
    }
}

/// What the formatter writes for the first `n` lines, line by line.
pub open spec fn bodies(ls: Seq<Seq<char>>, n: int, unit: Seq<char>) -> Seq<Seq<char>>
    decreases n,
{
    if n <= 0 {
        seq![]
    } else {
        let b = bodies(ls, n - 1, unit);
        match piece(fmt_scan(ls, n - 1, unit), ls[n - 1], unit) {
            Some(x) => b.push(x),
            None => b,
        }
    }
}

/// A piece holds no line break and does not end with a carriage return.
pub open spec fn clean_piece(x: Seq<char>) -> bool {
    no_nl(x) && (x.len() > 0 ==> !is_ws(x.last()))
}

proof fn lemma_piece_clean(st: FmtState, raw: Seq<char>, unit: Seq<char>)
    requires
        no_nl(raw),
        blank_run(unit),
    ensures
        piece(st, raw, unit) matches Some(x) ==> clean_piece(x) && (trim(raw).len() == 0 ==> x.len() == 0) && (
        trim(raw).len() > 0 ==> x.len() > 0 && trim(x) == trim(raw)),
{
    lemma_trim_trimmed(raw);
    let t = trim(raw);
    if t.len() > 0 {
        let w = if starts_with(t, "#"@) {
            seq![]
        } else if starts_with(t, "//"@) || starts_with(t, "/*"@) {
            indent(unit, st.level)
        } else {
            indent(unit, crate::format::sat_sub(st.level, crate::format::leading_close_from(t, 0)))
        };
        lemma_indent_blank(unit, st.level);
        lemma_indent_blank(unit, crate::format::sat_sub(st.level, crate::format::leading_close_from(t, 0)));
        if starts_with(t, "#"@) {
            assert(seq![] + t =~= t);
        }
        let x = w + t;
        assert(piece(st, raw, unit) == Some(x));
        lemma_trim_after_blank(w, t);
        assert(x.last() == t.last());
        assert forall|i: int| 0 <= i < x.len() implies #[trigger] x[i] != '\n' by {
            if i < w.len() {
                assert(x[i] == w[i]);
            } else {
                assert(x[i] == t[i - w.len()]);
            }
        }
    }
}

proof fn lemma_scan_split(ls: Seq<Seq<char>>, n: int, unit: Seq<char>)
    requires
        0 <= n <= ls.len(),
        forall|k: int| 0 <= k < ls.len() ==> no_nl(#[trigger] ls[k]),
        blank_run(unit),
    ensures
        split_on(fmt_scan(ls, n, unit).text, '\n') == bodies(ls, n, unit).push(seq![]),
        forall|k: int| 0 <= k < bodies(ls, n, unit).len() ==> clean_piece(#[trigger] bodies(ls, n, unit)[k]),
    decreases n,
{
    if n == 0 {
        assert(split_on(Seq::<char>::empty(), '\n') =~= seq![Seq::<char>::empty()]);
        assert(bodies(ls, 0, unit).push(seq![]) =~= seq![Seq::<char>::empty()]);
    } else {
        lemma_scan_split(ls, n - 1, unit);
        let st = fmt_scan(ls, n - 1, unit);
        let raw = ls[n - 1];
        lemma_step_text(st, raw, unit);
        lemma_piece_clean(st, raw, unit);
        let b = bodies(ls, n - 1, unit);
        match piece(st, raw, unit) {
            Some(x) => {
                lemma_split_append(st.text, x);
                let q = split_on(st.text + x, '\n');
                assert(q =~= b.push(x));
                let s2 = st.text + x + seq!['\n'];
                assert(s2.drop_last() =~= st.text + x);
                assert(s2.last() == '\n');
                assert(split_on(st.text + x + seq!['\n'], '\n') == q.push(seq![]));
                assert forall|k: int| 0 <= k < b.push(x).len() implies clean_piece(#[trigger] b.push(x)[k]) by {
                    if k < b.len() {
                        assert(b.push(x)[k] == b[k]);
                    }
                }
            },
            None => {},
        }
    }
}

proof fn lemma_lines_of_pieces(text: Seq<char>, bs: Seq<Seq<char>>)
    requires
        split_on(text, '\n') == bs.push(seq![]),
        forall|k: int| 0 <= k < bs.len() ==> clean_piece(#[trigger] bs[k]),
    ensures
        lines(text) == bs,
        text.len() == 0 || text.last() == '\n',
{
    let p = split_on(text, '\n');
    assert forall|k: int| 0 <= k < bs.len() implies #[trigger] lines(text)[k] == bs[k] by {
        assert(p[k] == bs[k]);
        assert(clean_piece(bs[k]));
        assert(is_ws('\r'));
        assert(strip_cr(bs[k]) == bs[k]);
    }
    assert(lines(text) =~= bs);
    if text.len() > 0 && text.last() != '\n' {
        crate::splits::lemma_split_on_nonempty(text.drop_last(), '\n');
        assert(p.last().len() > 0);
    }
}

proof fn lemma_bodies_grow(ls: Seq<Seq<char>>, i: int, n: int, unit: Seq<char>)
    requires
        0 <= i <= n,
    ensures
        bodies(ls, i, unit).len() <= bodies(ls, n, unit).len(),
        forall|k: int| 0 <= k < bodies(ls, i, unit).len() ==> #[trigger] bodies(ls, n, unit)[k] == bodies(ls, i, unit)[k],
    decreases n - i,
{
    if i < n {
        lemma_bodies_grow(ls, i, n - 1, unit);
        let b = bodies(ls, n - 1, unit);
        assert forall|k: int| 0 <= k < bodies(ls, i, unit).len() implies #[trigger] bodies(ls, n, unit)[k] == bodies(ls, i, unit)[k] by {
            assert(bodies(ls, n - 1, unit)[k] == bodies(ls, i, unit)[k]);
            match piece(fmt_scan(ls, n - 1, unit), ls[n - 1], unit) {
                Some(x) => {
                    assert(b.push(x)[k] == b[k]);
                },
                None => {},
            }
        }
    }
}

/// Two formatter states that write alike from here on.
pub open spec fn same_state(a: FmtState, b: FmtState) -> bool {
    a.text == b.text && a.level == b.level && (a.blanks == 0) == (b.blanks == 0)
}

proof fn lemma_rescan(ls: Seq<Seq<char>>, i: int, bs: Seq<Seq<char>>, unit: Seq<char>)
    requires
        0 <= i <= ls.len(),
        forall|k: int| 0 <= k < ls.len() ==> no_nl(#[trigger] ls[k]),
        blank_run(unit),
        bodies(ls, i, unit).len() <= bs.len(),
        forall|k: int| 0 <= k < bodies(ls, i, unit).len() ==> #[trigger] bs[k] == bodies(ls, i, unit)[k],
    ensures
        same_state(fmt_scan(bs, bodies(ls, i, unit).len() as int, unit), fmt_scan(ls, i, unit)),
    decreases i,
{
    if i > 0 {
        let b = bodies(ls, i - 1, unit);
        assert(b.len() <= bodies(ls, i, unit).len());
        assert forall|k: int| 0 <= k < b.len() implies #[trigger] bs[k] == b[k] by {
            match piece(fmt_scan(ls, i - 1, unit), ls[i - 1], unit) {
                Some(x) => {
                    assert(bodies(ls, i, unit)[k] == b.push(x)[k]);
                },
                None => {},
            }
        }
        lemma_rescan(ls, i - 1, bs, unit);
        let st = fmt_scan(ls, i - 1, unit);
        let st2 = fmt_scan(bs, b.len() as int, unit);
        let raw = ls[i - 1];
        lemma_piece_clean(st, raw, unit);
        lemma_step_text(st, raw, unit);
        match piece(st, raw, unit) {
            Some(x) => {
                assert(bodies(ls, i, unit) == b.push(x));
                assert(bs[b.len() as int] == x);
                assert(fmt_scan(bs, b.len() + 1int, unit) == fmt_step(st2, x, unit));
                assert(trim(x) == trim(raw)) by {
                    if trim(raw).len() == 0 {
                        assert(x.len() == 0);
                        assert(trim(x) =~= x);
                    }
                }
            },
            None => {},
        }
    }
}

/// Formatting a formatted document changes nothing.
pub proof fn law_format_idempotent(text: Seq<char>, tab_size: nat, insert_spaces: bool)
    ensures
        formatted_text(formatted_text(text, tab_size, insert_spaces), tab_size, insert_spaces) == formatted_text(
            text,
            tab_size,
            insert_spaces,
        ),
{
    let unit = indent_unit(tab_size, insert_spaces);
    let ls = lines(text);
    let n = ls.len() as int;
    lemma_unit_blank(tab_size, insert_spaces);
    lemma_lines_no_nl(text);
    lemma_scan_split(ls, n, unit);
    let f = fmt_scan(ls, n, unit);
    let bs = bodies(ls, n, unit);
    lemma_lines_of_pieces(f.text, bs);
    assert(formatted_text(text, tab_size, insert_spaces) == f.text);
    lemma_rescan(ls, n, bs, unit);
    assert(lines(f.text) == bs);
}

} // verus!
