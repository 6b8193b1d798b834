//! Re-indentation of a document by its braces.
use vstd::prelude::*;
use crate::diagnostics::{range_blen, Position, Range};
use crate::splits::{lines, lines_of, ranges_gapped, ranges_hold, ranges_within};
use crate::strops::{count_char, count_char_in, find, find_str, starts_with, starts_with_char, starts_with_str, trim, trim_range};
use crate::text::{blen, is_ws, push_char, push_range, push_str};

verus! {

/// A replacement of the text between two positions.
#[derive(Debug, Clone)]
pub struct TextEdit {
    pub range: Range,
    pub new_text: String,
}

/// `n` copies of `unit`.
pub open spec fn indent(unit: Seq<char>, n: nat) -> Seq<char>
    decreases n,
{
    if n == 0 {
        seq![]
    } else {
        indent(unit, (n - 1) as nat) + unit
    }
}

/// The closing braces at the start of `t[i..]`, skipping whitespace, up to the
/// first other character.
pub open spec fn leading_close_from(t: Seq<char>, i: int) -> nat
    decreases t.len() - i,
{
    if i < 0 || i >= t.len() {
        0
    } else if t[i] == '}' {
        1 + leading_close_from(t, i + 1)
    } else if is_ws(t[i]) {
        leading_close_from(t, i + 1)
    } else {
        0
    }
}

/// The part of a line before a `//` comment, trimmed.
pub open spec fn code_part(t: Seq<char>) -> Seq<char> {
    match find(t, "//"@) {
        Some(k) => trim(t.take(k)),
        None => trim(t),
    }
}

/// `usize::saturating_sub` on naturals.
pub open spec fn sat_sub(a: nat, b: nat) -> nat {
    if a >= b {
        (a - b) as nat
    } else {
        0
    }
}

/// The state of the formatter after some lines: the text written, the indent
/// level and the number of blank lines in a row.
pub struct FmtState {
    pub text: Seq<char>,
    pub level: nat,
    pub blanks: nat,
}

pub open spec fn fmt_step(st: FmtState, raw: Seq<char>, unit: Seq<char>) -> FmtState {
    let t = trim(raw);
    if t.len() == 0 {
        FmtState {
            text: if st.blanks + 1 <= 1 {
                st.text.push('\n')
            } else {
                st.text
            },
            blanks: st.blanks + 1,
            ..st
        }
    } else if starts_with(t, "#"@) {
        FmtState { text: st.text + t + "\n"@, blanks: 0, ..st }
    } else if starts_with(t, "//"@) || starts_with(t, "/*"@) {
        FmtState { text: st.text + indent(unit, st.level) + t + "\n"@, blanks: 0, ..st }
    } else {
        let lc = leading_close_from(t, 0);
        let level1 = sat_sub(st.level, lc);
        let code = code_part(t);
        let net = sat_sub(count_char(code, '}'), lc);
        FmtState {
            text: st.text + indent(unit, level1) + t + "\n"@,
            level: sat_sub(level1, net) + count_char(code, '{'),
            blanks: 0,
        }
    }
}

pub open spec fn fmt_scan(ls: Seq<Seq<char>>, n: int, unit: Seq<char>) -> FmtState
    decreases n,
{
    if n <= 0 {
        FmtState { text: seq![], level: 0, blanks: 0 }
    } else {
        fmt_step(fmt_scan(ls, n - 1, unit), ls[n - 1], unit)
    }
}

/// The indent unit: `tab_size` spaces, or a tab.
pub open spec fn indent_unit(tab_size: nat, insert_spaces: bool) -> Seq<char> {
    if insert_spaces {
        Seq::new(tab_size, |i: int| ' ')
    } else {
        seq!['\t']
    }
}

/// The formatted text: every line trimmed; runs of blank lines cut to one;
/// preprocessor lines unindented; other lines indented by the level, which
/// closing braces at their start lower first and the braces of their code
/// (before a `//` comment) change afterwards; comment lines leave it alone.
pub open spec fn formatted_text(text: Seq<char>, tab_size: nat, insert_spaces: bool) -> Seq<char> {
    let t = fmt_scan(lines(text), lines(text).len() as int, indent_unit(tab_size, insert_spaces)).text;
    if t.len() > 0 && t.last() != '\n' {
        t.push('\n')
    } else {
        t
    }
}

/// The one edit that replaces the whole document (from its start to the end
/// of its last line) by the formatted text.
pub open spec fn format_edit_range(text: Seq<char>) -> Range {
    let ls = lines(text);
    Range {
        start: Position { line: 0, character: 0 },
        end: Position {
            line: sat_sub(ls.len(), 1) as usize,
            character: if ls.len() > 0 {
                blen(ls.last()) as usize
            } else {
                0
            },
        },
    }
}

/// `leading_close_from(v[a..b], 0)`.
fn leading_close_exec(v: &[char], a: usize, b: usize) -> (r: usize)
    requires
        a <= b <= v@.len(),
    ensures
        r == leading_close_from(v@.subrange(a as int, b as int), 0),
        r <= b - a,
{
    let ghost t = v@.subrange(a as int, b as int);
    let mut n: usize = 0;
    // The count is built from the back: `n` is the count of `t[k - a..]`.
    let mut k: usize = b;
    while k > a
        invariant
            a <= k <= b <= v@.len(),
            t == v@.subrange(a as int, b as int),
            n == leading_close_from(t, k - a),
            n <= b - k,
        decreases k - a,
    {
        k = k - 1;
        if v[k] == '}' {
            n = n + 1;
        } else if crate::text::char_is_whitespace(v[k]) {
        } else {
            n = 0;
        }
        proof {
            assert(t[k - a] == v@[k as int]);
        }
    }
    n
}

/// Appends `n` copies of `unit`.
fn push_indent(out: &mut String, unit: &str, n: usize)
    ensures
        final(out)@ == old(out)@ + indent(unit@, n as nat),
{
    let mut k: usize = 0;
    while k < n
        invariant
            k <= n,
            out@ == old(out)@ + indent(unit@, k as nat),
        decreases n - k,
    {
        push_str(out, unit);
        proof {
            assert(indent(unit@, (k + 1) as nat) == indent(unit@, k as nat) + unit@);
        }
        k = k + 1;
    }
}

/// Bounds of `code_part(v[ta..tb])`.
fn code_part_range(v: &[char], ta: usize, tb: usize) -> (r: (usize, usize))
    requires
        ta <= tb <= v@.len(),
    ensures
        ta <= r.0 <= r.1 <= tb,
        v@.subrange(r.0 as int, r.1 as int) == code_part(v@.subrange(ta as int, tb as int)),
{
    let ghost t = v@.subrange(ta as int, tb as int);
    match find_str(v, ta, tb, "//") {
        Some(k) => {
            proof {
                assert(t.take(k as int) =~= v@.subrange(ta as int, ta + k));
            }
            trim_range(v, ta, ta + k)
        },
        None => trim_range(v, ta, tb),
    }
}

/// Appends the formatted line `v[la..lb]` and returns the new indent level and
/// blank-line count.
fn fmt_line(out: &mut String, vs: &[char], la: usize, lb: usize, unit: &str, level: usize, blanks: usize) -> (r: (
    usize,
    usize,
))
    requires
        la <= lb <= vs@.len(),
        level <= la,
        blanks < usize::MAX,
    ensures
        fmt_step(FmtState { text: old(out)@, level: level as nat, blanks: blanks as nat }, vs@.subrange(la as int, lb as int), unit@)
            == (FmtState { text: final(out)@, level: r.0 as nat, blanks: r.1 as nat }),
        r.0 <= lb,
        r.1 <= blanks + 1,
{
    let ghost raw = vs@.subrange(la as int, lb as int);
    let mut level = level;
    let mut blanks = blanks;
    let (ta, tb) = trim_range(vs, la, lb);
    let ghost t = vs@.subrange(ta as int, tb as int);
    proof {
        reveal_strlit("#");
        assert("#"@ =~= seq!['#']);
        if ta < tb {
            assert(t[0] == vs@[ta as int]);
            assert(starts_with(t, "#"@) <==> t.subrange(0, 1) == seq!['#']);
            assert(t.subrange(0, 1) == seq!['#'] <==> t[0] == '#') by {
                if t[0] == '#' {
                    assert(t.subrange(0, 1) =~= seq!['#']);
                }
                if t.subrange(0, 1) == seq!['#'] {
                    assert(t.subrange(0, 1)[0] == t[0]);
                }
            }
        }
    }
    if ta == tb {
        if blanks + 1 <= 1 {
            push_char(out, '\n');
        }
        blanks = blanks + 1;
    } else if starts_with_char(vs, ta, tb, '#') {
        push_range(out, vs, ta, tb);
        push_str(out, "\n");
        blanks = 0;
    } else if starts_with_str(vs, ta, tb, "//") || starts_with_str(vs, ta, tb, "/*") {
        push_indent(out, unit, level);
        push_range(out, vs, ta, tb);
        push_str(out, "\n");
        blanks = 0;
    } else {
        let lc = leading_close_exec(vs, ta, tb);
        let level1 = if level >= lc {
            level - lc
        } else {
            0
        };
        push_indent(out, unit, level1);
        push_range(out, vs, ta, tb);
        push_str(out, "\n");
        let (ca, cb) = code_part_range(vs, ta, tb);
        let opens = count_char_in(vs, ca, cb, '{');
        let closes = count_char_in(vs, ca, cb, '}');
        let net = if closes >= lc {
            closes - lc
        } else {
            0
        };
        let l2 = if level1 >= net {
            level1 - net
        } else {
            0
        };
        level = l2 + opens;
        blanks = 0;
    }
    (level, blanks)
}

/// Re-indents a document: each line trimmed, blank lines collapsed, one
/// indent unit (`tab_size` spaces, or a tab) per open brace; the result is one
/// edit that replaces the whole document.
pub fn format_document(text: &str, tab_size: usize, insert_spaces: bool) -> (r: Vec<TextEdit>)
    ensures
        r@.len() == 1,
        r@[0].range == format_edit_range(text@),
        r@[0].new_text@ == formatted_text(text@, tab_size as nat, insert_spaces),
{
    let mut unit = String::new();
    if insert_spaces {
        let mut k: usize = 0;
        while k < tab_size
            invariant
                k <= tab_size,
                unit@ == Seq::new(k as nat, |i: int| ' '),
            decreases tab_size - k,
        {
            push_char(&mut unit, ' ');
            proof {
                assert(unit@ =~= Seq::new((k + 1) as nat, |i: int| ' '));
            }
            k = k + 1;
        }
    } else {
        push_char(&mut unit, '\t');
        proof {
            assert(unit@ =~= seq!['\t']);
        }
    }
    let ghost u = indent_unit(tab_size as nat, insert_spaces);
    let (v, ranges) = lines_of(text);
    let ghost ls = lines(v@);
    let mut out = String::new();
    let mut level: usize = 0;
    let mut blanks: usize = 0;
    let mut idx: usize = 0;
    proof {
        assert(out@ =~= Seq::<char>::empty());
    }
    while idx < ranges.len()
        invariant
            v@ == text@,
            ls == lines(v@),
            unit@ == u,
            blen(v@) <= usize::MAX,
            ranges_within(ranges@, 0, v@.len() as int),
            ranges_hold(v@, ranges@, ls),
            ranges_gapped(ranges@),
            idx <= ranges@.len(),
            blanks <= idx,
            idx == 0 ==> level == 0,
            idx > 0 ==> level <= ranges@[idx - 1].1,
            fmt_scan(ls, idx as int, u) == (FmtState { text: out@, level: level as nat, blanks: blanks as nat }),
        decreases ranges.len() - idx,
    {
        let (la, lb) = ranges[idx];
        proof {
            if idx > 0 {
                assert(ranges@[idx - 1].1 < ranges@[idx as int].0);
            }
            assert(ls[idx as int] == v@.subrange(la as int, lb as int));
        }
        let (l2, b2) = fmt_line(&mut out, v.as_slice(), la, lb, unit.as_str(), level, blanks);
        level = l2;
        blanks = b2;
        idx = idx + 1;
    }
    if lacks_final_newline(&out) {
        push_char(&mut out, '\n');
    }
    let n = ranges.len();
    let end_line = if n >= 1 {
        n - 1
    } else {
        0
    };
    let last_len = if n > 0 {
        let (la, lb) = ranges[n - 1];
        proof {
            assert(ls[n - 1] == v@.subrange(la as int, lb as int));
            crate::text::lemma_blen_subrange(v@, la as int, lb as int);
        }
        range_blen(v.as_slice(), la, lb)
    } else {
        0
    };
    let edit = TextEdit {
        range: Range {
            start: Position { line: 0, character: 0 },
            end: Position { line: end_line, character: last_len },
        },
        new_text: out,
    };
    vec![edit]
}

/// Whether a string is not empty and does not end with a newline.
fn lacks_final_newline(s: &String) -> (r: bool)
    ensures
        r == (s@.len() > 0 && s@.last() != '\n'),
{
    let c = crate::text::to_chars(s.as_str());
    c.len() > 0 && c[c.len() - 1] != '\n'
}

} // verus!
