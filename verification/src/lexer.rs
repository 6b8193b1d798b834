//! Lexical position queries: comments, strings, and the call around a cursor.
use vstd::prelude::*;
use crate::cursor::{word_left, word_left_exec};
use crate::strops::{trim_end, trim_end_range};
use crate::splits::{trim_end_set, trim_end_set_range};
use crate::text::{blen, floor_char, floor_char_index, range_string, to_chars, to_chars_sized};

verus! {

/// The lexer behind `is_in_comment_or_string`, from character index `i` with
/// line `line`, column `col` (in characters) and the flags for being inside a
/// line comment, a block comment, a string, and after a backslash in a string.
/// It answers at the first character that reaches the target column of the
/// target line, at the end of the target line, or at the end of the text.
pub open spec fn cs_scan(
    s: Seq<char>,
    i: int,
    tl: int,
    tc: int,
    line: int,
    col: int,
    lc: bool,
    bc: bool,
    st: bool,
    esc: bool,
) -> bool
    decreases s.len() - i,
{
    if i < 0 || i >= s.len() {
        line == tl && (lc || bc || st)
    } else if line == tl && col >= tc {
        lc || bc || st
    } else if s[i] == '\n' {
        if line == tl {
            lc || bc || st
        } else if line + 1 > tl {
            false
        } else {
            cs_scan(s, i + 1, tl, tc, line + 1, 0, false, bc, st, esc)
        }
    } else if lc {
        cs_scan(s, i + 1, tl, tc, line, col + 1, lc, bc, st, esc)
    } else if bc {
        if s[i] == '*' && i + 1 < s.len() && s[i + 1] == '/' {
            cs_scan(s, i + 2, tl, tc, line, col + 2, lc, false, st, esc)
        } else {
            cs_scan(s, i + 1, tl, tc, line, col + 1, lc, bc, st, esc)
        }
    } else if st {
        if esc {
            cs_scan(s, i + 1, tl, tc, line, col + 1, lc, bc, st, false)
        } else if s[i] == '\\' {
            cs_scan(s, i + 1, tl, tc, line, col + 1, lc, bc, st, true)
        } else if s[i] == '"' {
            cs_scan(s, i + 1, tl, tc, line, col + 1, lc, bc, false, esc)
        } else {
            cs_scan(s, i + 1, tl, tc, line, col + 1, lc, bc, st, esc)
        }
    } else if s[i] == '"' {
        cs_scan(s, i + 1, tl, tc, line, col + 1, lc, bc, true, esc)
    } else if s[i] == '/' && i + 1 < s.len() && s[i + 1] == '/' {
        cs_scan(s, i + 2, tl, tc, line, col + 2, true, bc, st, esc)
    } else if s[i] == '/' && i + 1 < s.len() && s[i + 1] == '*' {
        cs_scan(s, i + 2, tl, tc, line, col + 2, lc, true, st, esc)
    } else {
        cs_scan(s, i + 1, tl, tc, line, col + 1, lc, bc, st, esc)
    }
}

/// Is the cursor at line `target_line`, character column `target_col`, inside
/// a `//` comment, a `/* */` comment or a string literal?
pub fn is_in_comment_or_string(text: &str, target_line: usize, target_col: usize) -> (r: bool)
    ensures
        r == cs_scan(
            text@,
            0,
            target_line as int,
            target_col as int,
            0,
            0,
            false,
            false,
            false,
            false,
        ),
{
    let s = to_chars(text);
    let n = s.len();
    let mut i: usize = 0;
    let mut line_idx: usize = 0;
    let mut col_idx: usize = 0;
    let mut lc = false;
    let mut bc = false;
    let mut st = false;
    let mut esc = false;
    while i < n
        invariant
            s@ == text@,
            n == s@.len(),
            i <= n,
            line_idx <= i,
            col_idx <= i,
            line_idx <= target_line,
            cs_scan(
                text@,
                0,
                target_line as int,
                target_col as int,
                0,
                0,
                false,
                false,
                false,
                false,
            ) == cs_scan(
                text@,
                i as int,
                target_line as int,
                target_col as int,
                line_idx as int,
                col_idx as int,
                lc,
                bc,
                st,
                esc,
            ),
        decreases n - i,
    {
        let c = s[i];
        if line_idx == target_line && col_idx >= target_col {
            return lc || bc || st;
        }
        if c == '\n' {
            if line_idx == target_line {
                return lc || bc || st;
            }
            lc = false;
            line_idx = line_idx + 1;
            col_idx = 0;
            i = i + 1;
            continue;
        }
        if lc {
            col_idx = col_idx + 1;
            i = i + 1;
            continue;
        }
        if bc {
            if c == '*' && i + 1 < n && s[i + 1] == '/' {
                bc = false;
                col_idx = col_idx + 2;
                i = i + 2;
            } else {
                col_idx = col_idx + 1;
                i = i + 1;
            }
            continue;
        }
        if st {
            if esc {
                esc = false;
            } else if c == '\\' {
                esc = true;
            } else if c == '"' {
                st = false;
            }
            col_idx = col_idx + 1;
            i = i + 1;
            continue;
        }
        if c == '"' {
            st = true;
            col_idx = col_idx + 1;
            i = i + 1;
        } else if c == '/' && i + 1 < n && s[i + 1] == '/' {
            lc = true;
            col_idx = col_idx + 2;
            i = i + 2;
        } else if c == '/' && i + 1 < n && s[i + 1] == '*' {
            bc = true;
            col_idx = col_idx + 2;
            i = i + 2;
        } else {
            col_idx = col_idx + 1;
            i = i + 1;
        }
    }
    line_idx == target_line && (lc || bc || st)
}

/// Character index where line `target` starts, found by walking the text from
/// index `i` with `cur` newlines seen: `(found, start)`.  As in the byte walk
/// it models, a target line reached only past the last character reports
/// `found` with start 0.
pub open spec fn line_start_scan(s: Seq<char>, i: int, cur: int, target: int) -> (bool, int)
    decreases s.len() - i,
{
    if i < 0 || i >= s.len() {
        (cur == target, 0)
    } else if cur == target {
        (true, i)
    } else {
        line_start_scan(s, i + 1, cur + if s[i] == '\n' { 1int } else { 0int }, target)
    }
}

/// End of the line that starts at `k`: the index of the next `'\n'`, or the
/// end of the text.
pub open spec fn line_end_from(s: Seq<char>, k: int) -> int
    decreases s.len() - k,
{
    if k < 0 || k >= s.len() || s[k] == '\n' {
        if k < 0 {
            0
        } else if k >= s.len() {
            s.len() as int
        } else {
            k
        }
    } else {
        line_end_from(s, k + 1)
    }
}

/// The character index that the byte cursor of `find_enclosing_call` stands
/// at: on the target line, the column clamped to the line's length without
/// trailing `'\r'`s; past the last line, the end of the text.
pub open spec fn call_cursor(s: Seq<char>, line_idx: int, col_idx: int) -> int {
    let (found, ls) = line_start_scan(s, 0, 0, line_idx);
    if found {
        let le = line_end_from(s, ls);
        let body = trim_end_set(s.subrange(ls, le), seq!['\r']);
        let off = blen(s.take(ls)) + if col_idx < blen(body) { col_idx } else { blen(body) as int };
        floor_char(s, off)
    } else {
        s.len() as int
    }
}

/// Index just after a string literal skipped backwards from its closing quote
/// at `idx`: the walk stops at an unescaped `"` or at index 0.
pub open spec fn skip_string_back(s: Seq<char>, idx: int) -> int
    decreases idx,
{
    if idx <= 0 {
        0
    } else {
        let j = idx - 1;
        if s[j] == '"' && (j == 0 || s[j - 1] != '\\') {
            j
        } else {
            skip_string_back(s, j)
        }
    }
}

pub proof fn lemma_skip_string_back(s: Seq<char>, idx: int)
    requires
        0 <= idx <= s.len(),
    ensures
        0 <= skip_string_back(s, idx) <= idx,
        idx > 0 ==> skip_string_back(s, idx) < idx,
    decreases idx,
{
    if idx > 0 {
        let j = idx - 1;
        if !(s[j] == '"' && (j == 0 || s[j - 1] != '\\')) {
            lemma_skip_string_back(s, j);
        }
    }
}

/// Walks backwards from `idx` for the `(` that opens the call around the
/// cursor, skipping string literals and balanced `()`, `[]`, `{}` groups; an
/// unbalanced `{` or a top-level `;` ends the search.
pub open spec fn open_paren_back(s: Seq<char>, idx: int, d: nat, bd: nat, brd: nat) -> Option<int>
    decreases idx,
{
    if idx <= 0 || idx > s.len() {
        None
    } else {
        let j = idx - 1;
        let c = s[j];
        if c == '"' {
            let k = skip_string_back(s, j);
            if 0 <= k < idx {
                open_paren_back(s, k, d, bd, brd)
            } else {
                None
            }
        } else if c == ')' {
            open_paren_back(s, j, d + 1, bd, brd)
        } else if c == ']' {
            open_paren_back(s, j, d, bd + 1, brd)
        } else if c == '}' {
            open_paren_back(s, j, d, bd, brd + 1)
        } else if c == '(' {
            if d > 0 {
                open_paren_back(s, j, (d - 1) as nat, bd, brd)
            } else if bd == 0 && brd == 0 {
                Some(j)
            } else {
                open_paren_back(s, j, d, bd, brd)
            }
        } else if c == '[' {
            open_paren_back(s, j, d, if bd > 0 { (bd - 1) as nat } else { 0 }, brd)
        } else if c == '{' {
            if brd > 0 {
                open_paren_back(s, j, d, bd, (brd - 1) as nat)
            } else {
                None
            }
        } else if c == ';' && d == 0 && bd == 0 && brd == 0 {
            None
        } else {
            open_paren_back(s, j, d, bd, brd)
        }
    }
}

/// Number of top-level commas in `s[i..end)`, skipping string literals (with
/// backslash escapes) and nested `()`, `[]`, `{}` groups.
pub open spec fn count_args(
    s: Seq<char>,
    i: int,
    end: int,
    pd: nat,
    pbd: nat,
    pbrd: nat,
    in_str: bool,
) -> nat
    decreases end - i,
{
    if i < 0 || i >= end || end > s.len() {
        0
    } else {
        let c = s[i];
        if in_str {
            if c == '\\' {
                if i + 2 > end {
                    0
                } else {
                    count_args(s, i + 2, end, pd, pbd, pbrd, in_str)
                }
            } else if c == '"' {
                count_args(s, i + 1, end, pd, pbd, pbrd, false)
            } else {
                count_args(s, i + 1, end, pd, pbd, pbrd, in_str)
            }
        } else if c == '"' {
            count_args(s, i + 1, end, pd, pbd, pbrd, true)
        } else if c == '(' {
            count_args(s, i + 1, end, pd + 1, pbd, pbrd, in_str)
        } else if c == ')' {
            count_args(s, i + 1, end, if pd > 0 { (pd - 1) as nat } else { 0 }, pbd, pbrd, in_str)
        } else if c == '[' {
            count_args(s, i + 1, end, pd, pbd + 1, pbrd, in_str)
        } else if c == ']' {
            count_args(s, i + 1, end, pd, if pbd > 0 { (pbd - 1) as nat } else { 0 }, pbrd, in_str)
        } else if c == '{' {
            count_args(s, i + 1, end, pd, pbd, pbrd + 1, in_str)
        } else if c == '}' {
            count_args(s, i + 1, end, pd, pbd, if pbrd > 0 { (pbrd - 1) as nat } else { 0 }, in_str)
        } else if c == ',' && pd == 0 && pbd == 0 && pbrd == 0 {
            1 + count_args(s, i + 1, end, pd, pbd, pbrd, in_str)
        } else {
            count_args(s, i + 1, end, pd, pbd, pbrd, in_str)
        }
    }
}

/// Words that open control statements rather than calls.
pub open spec fn is_control_keyword(w: Seq<char>) -> bool {
    w == "if"@ || w == "for"@ || w == "while"@ || w == "switch"@ || w == "catch"@ || w == "return"@
}

/// Words after which a name followed by `(` is still a call.
pub open spec fn is_call_prefix_keyword(w: Seq<char>) -> bool {
    w == "return"@ || w == "else"@ || w == "do"@
}

/// The call around the cursor: the function name before the enclosing `(`
/// and the index of the argument the cursor is in.  None when no `(` encloses
/// the cursor, when the name is missing or a control keyword, or when a type
/// name stands before the name (a declaration, not a call).
pub open spec fn enclosing_call(s: Seq<char>, line_idx: int, col_idx: int) -> Option<(Seq<char>, nat)> {
    let k = call_cursor(s, line_idx, col_idx);
    match open_paren_back(s, k, 0, 0, 0) {
        None => None,
        Some(p) => {
            let trimmed = trim_end(s.subrange(0, p));
            let st = word_left(trimmed, trimmed.len() as int);
            let name = trimmed.subrange(st, trimmed.len() as int);
            let before = trim_end(trimmed.subrange(0, st));
            let prev = before.subrange(word_left(before, before.len() as int), before.len() as int);
            if name.len() == 0 || is_control_keyword(name) {
                None
            } else if before.len() > 0 && prev.len() > 0 && !is_call_prefix_keyword(prev) {
                None
            } else {
                Some((name, count_args(s, p + 1, k, 0, 0, 0, false)))
            }
        },
    }
}

proof fn lemma_line_start_scan(s: Seq<char>, i: int, cur: int, target: int)
    requires
        0 <= i <= s.len(),
    ensures
        ({
            let (f, st) = line_start_scan(s, i, cur, target);
            0 <= st <= s.len() && (st > 0 ==> st >= i)
        }),
    decreases s.len() - i,
{
    if i < s.len() && cur != target {
        lemma_line_start_scan(s, i + 1, cur + if s[i] == '\n' { 1int } else { 0int }, target);
    }
}

proof fn lemma_line_end_from(s: Seq<char>, k: int)
    requires
        0 <= k <= s.len(),
    ensures
        k <= line_end_from(s, k) <= s.len(),
    decreases s.len() - k,
{
    if k < s.len() && s[k] != '\n' {
        lemma_line_end_from(s, k + 1);
    }
}

/// `call_cursor` over a slice.
fn call_cursor_exec(s: &[char], line_idx: usize, col_idx: usize) -> (r: usize)
    requires
        blen(s@) <= usize::MAX,
    ensures
        r == call_cursor(s@, line_idx as int, col_idx as int),
        r <= s@.len(),
{
    let n = s.len();
    let mut i: usize = 0;
    let mut cur: usize = 0;
    while i < n && cur != line_idx
        invariant
            n == s@.len(),
            i <= n,
            cur <= i,
            line_start_scan(s@, 0, 0, line_idx as int) == line_start_scan(
                s@,
                i as int,
                cur as int,
                line_idx as int,
            ),
        decreases n - i,
    {
        if s[i] == '\n' {
            cur = cur + 1;
        }
        i = i + 1;
    }
    let found = cur == line_idx;
    let ls: usize = if i < n { i } else { 0 };
    proof {
        lemma_line_start_scan(s@, 0, 0, line_idx as int);
    }
    if !found {
        return n;
    }
    let mut le = ls;
    while le < n && s[le] != '\n'
        invariant
            n == s@.len(),
            ls <= le <= n,
            line_end_from(s@, ls as int) == line_end_from(s@, le as int),
        decreases n - le,
    {
        le = le + 1;
    }
    let be = trim_end_set_range(s, ls, le, &['\r']);
    assert(seq!['\r'] =~= ['\r']@);
    let start_off = crate::text::byte_offset(s, ls);
    let body_len = byte_body_len(s, ls, be);
    proof {
        crate::text::lemma_blen_concat(s@.take(ls as int), s@.subrange(ls as int, be as int));
        assert(s@.take(ls as int) + s@.subrange(ls as int, be as int) =~= s@.take(be as int));
        crate::text::lemma_blen_mono(s@, be as int, n as int);
        assert(s@.take(n as int) =~= s@);
    }
    let off = start_off + if col_idx < body_len {
        col_idx
    } else {
        body_len
    };
    let (k, _) = floor_char_index(s, off);
    k
}

/// Byte length of `s[a..b]`.
fn byte_body_len(s: &[char], a: usize, b: usize) -> (r: usize)
    requires
        a <= b <= s@.len(),
        blen(s@) <= usize::MAX,
    ensures
        r == blen(s@.subrange(a as int, b as int)),
{
    let mut i = a;
    let mut acc: usize = 0;
    proof {
        assert(s@.subrange(a as int, a as int) =~= Seq::<char>::empty());
    }
    while i < b
        invariant
            a <= i <= b <= s@.len(),
            blen(s@) <= usize::MAX,
            acc == blen(s@.subrange(a as int, i as int)),
        decreases b - i,
    {
        proof {
            crate::text::lemma_blen_push(s@.subrange(a as int, i as int), s@[i as int]);
            assert(s@.subrange(a as int, i as int).push(s@[i as int]) =~= s@.subrange(
                a as int,
                i + 1,
            ));
            crate::text::lemma_blen_concat(s@.take(a as int), s@.subrange(a as int, i + 1));
            assert(s@.take(a as int) + s@.subrange(a as int, i + 1) =~= s@.take(i + 1));
            crate::text::lemma_blen_mono(s@, i + 1, s@.len() as int);
            assert(s@.take(s@.len() as int) =~= s@);
        }
        acc = acc + crate::text::char_width(s[i]);
        i = i + 1;
    }
    acc
}

/// `skip_string_back` over a slice.
fn skip_string_back_exec(s: &[char], idx: usize) -> (r: usize)
    requires
        idx <= s@.len(),
    ensures
        r == skip_string_back(s@, idx as int),
        r <= idx,
{
    let mut k = idx;
    while k > 0
        invariant
            k <= idx <= s@.len(),
            skip_string_back(s@, idx as int) == skip_string_back(s@, k as int),
        decreases k,
    {
        let m = k - 1;
        if s[m] == '"' && (m == 0 || s[m - 1] != '\\') {
            return m;
        }
        k = m;
    }
    0
}

/// `open_paren_back` over a slice.
fn open_paren_back_exec(s: &[char], start: usize) -> (r: Option<usize>)
    requires
        start <= s@.len(),
    ensures
        oi_eq(r, open_paren_back(s@, start as int, 0, 0, 0)),
        r matches Some(p) ==> p < start,
{
    let mut idx = start;
    let mut d: usize = 0;
    let mut bd: usize = 0;
    let mut brd: usize = 0;
    while idx > 0
        invariant
            idx <= start <= s@.len(),
            d <= start - idx,
            bd <= start - idx,
            brd <= start - idx,
            open_paren_back(s@, start as int, 0, 0, 0) == open_paren_back(
                s@,
                idx as int,
                d as nat,
                bd as nat,
                brd as nat,
            ),
        decreases idx,
    {
        let j = idx - 1;
        let c = s[j];
        if c == '"' {
            proof {
                lemma_skip_string_back(s@, j as int);
            }
            let k = skip_string_back_exec(s, j);
            idx = k;
            continue;
        }
        if c == ')' {
            d = d + 1;
        } else if c == ']' {
            bd = bd + 1;
        } else if c == '}' {
            brd = brd + 1;
        } else if c == '(' {
            if d > 0 {
                d = d - 1;
            } else if bd == 0 && brd == 0 {
                return Some(j);
            }
        } else if c == '[' {
            if bd > 0 {
                bd = bd - 1;
            }
        } else if c == '{' {
            if brd > 0 {
                brd = brd - 1;
            } else {
                return None;
            }
        } else if c == ';' && d == 0 && bd == 0 && brd == 0 {
            return None;
        }
        idx = j;
    }
    None
}

/// An exec option of an index agrees with a spec option of an integer.
pub open spec fn oi_eq(r: Option<usize>, s: Option<int>) -> bool {
    match s {
        Some(k) => r is Some && r->0 as int == k,
        None => r is None,
    }
}

/// `count_args` over a slice.
fn count_args_exec(s: &[char], from: usize, end: usize) -> (r: usize)
    requires
        from <= end <= s@.len(),
    ensures
        r == count_args(s@, from as int, end as int, 0, 0, 0, false),
{
    let mut i = from;
    let mut pd: usize = 0;
    let mut pbd: usize = 0;
    let mut pbrd: usize = 0;
    let mut in_str = false;
    let mut n: usize = 0;
    while i < end
        invariant
            from <= end <= s@.len(),
            from <= i,
            pd <= i - from,
            pbd <= i - from,
            pbrd <= i - from,
            n <= i - from,
            count_args(s@, from as int, end as int, 0, 0, 0, false) == n + count_args(
                s@,
                i as int,
                end as int,
                pd as nat,
                pbd as nat,
                pbrd as nat,
                in_str,
            ),
        decreases end - i,
    {
        let c = s[i];
        if in_str {
            if c == '\\' {
                if end - i <= 2 {
                    i = end;
                } else {
                    i = i + 2;
                }
                continue;
            } else if c == '"' {
                in_str = false;
            }
            i = i + 1;
            continue;
        }
        if c == '"' {
            in_str = true;
        } else if c == '(' {
            pd = pd + 1;
        } else if c == ')' {
            if pd > 0 {
                pd = pd - 1;
            }
        } else if c == '[' {
            pbd = pbd + 1;
        } else if c == ']' {
            if pbd > 0 {
                pbd = pbd - 1;
            }
        } else if c == '{' {
            pbrd = pbrd + 1;
        } else if c == '}' {
            if pbrd > 0 {
                pbrd = pbrd - 1;
            }
        } else if c == ',' && pd == 0 && pbd == 0 && pbrd == 0 {
            n = n + 1;
        }
        i = i + 1;
    }
    n
}

fn is_control_keyword_exec(s: &[char], a: usize, b: usize) -> (r: bool)
    requires
        a <= b <= s@.len(),
    ensures
        r == is_control_keyword(s@.subrange(a as int, b as int)),
{
    crate::strops::eq_str(s, a, b, "if") || crate::strops::eq_str(s, a, b, "for")
        || crate::strops::eq_str(s, a, b, "while") || crate::strops::eq_str(s, a, b, "switch")
        || crate::strops::eq_str(s, a, b, "catch") || crate::strops::eq_str(s, a, b, "return")
}

fn is_call_prefix_keyword_exec(s: &[char], a: usize, b: usize) -> (r: bool)
    requires
        a <= b <= s@.len(),
    ensures
        r == is_call_prefix_keyword(s@.subrange(a as int, b as int)),
{
    crate::strops::eq_str(s, a, b, "return") || crate::strops::eq_str(s, a, b, "else")
        || crate::strops::eq_str(s, a, b, "do")
}

/// Identifies the function call around the cursor (line `line_idx`, byte
/// column `col_idx`) and the index of the argument the cursor stands in.
pub fn find_enclosing_call(text: &str, line_idx: usize, col_idx: usize) -> (r: Option<(String, usize)>)
    ensures
        match enclosing_call(text@, line_idx as int, col_idx as int) {
            Some((name, n)) => r matches Some((rn, rk)) && rn@ == name && rk == n,
            None => r is None,
        },
{
    let s = to_chars_sized(text);
    let k = call_cursor_exec(s.as_slice(), line_idx, col_idx);
    let p = match open_paren_back_exec(s.as_slice(), k) {
        None => {
            return None;
        },
        Some(p) => p,
    };
    let te = trim_end_range(s.as_slice(), 0, p);
    let st = word_left_exec(s.as_slice(), te);
    let ghost trimmed = trim_end(s@.subrange(0, p as int));
    proof {
        assert(trimmed =~= s@.subrange(0, te as int));
        lemma_word_left_prefix(s@, te as int);
        assert(trimmed.subrange(st as int, trimmed.len() as int) =~= s@.subrange(
            st as int,
            te as int,
        ));
        assert(trimmed.subrange(0, st as int) =~= s@.subrange(0, st as int));
    }
    if st == te || is_control_keyword_exec(s.as_slice(), st, te) {
        return None;
    }
    let be = trim_end_range(s.as_slice(), 0, st);
    if be > 0 {
        let ps = word_left_exec(s.as_slice(), be);
        proof {
            lemma_word_left_prefix(s@, be as int);
            assert(trim_end(s@.subrange(0, st as int)) =~= s@.subrange(0, be as int));
            assert(s@.subrange(0, be as int).subrange(ps as int, be as int) =~= s@.subrange(
                ps as int,
                be as int,
            ));
        }
        if ps < be && !is_call_prefix_keyword_exec(s.as_slice(), ps, be) {
            return None;
        }
    }
    let n = count_args_exec(s.as_slice(), p + 1, k);
    Some((range_string(s.as_slice(), st, te), n))
}

/// `word_left` of a prefix is `word_left` in the whole sequence.
pub proof fn lemma_word_left_prefix(s: Seq<char>, e: int)
    requires
        0 <= e <= s.len(),
    ensures
        word_left(s.subrange(0, e), e) == word_left(s, e),
{
    lemma_word_left_prefix_gen(s, e, e);
}

proof fn lemma_word_left_prefix_gen(s: Seq<char>, e: int, k: int)
    requires
        0 <= k <= e <= s.len(),
    ensures
        word_left(s.subrange(0, e), k) == word_left(s, k),
    decreases k,
{
    if k > 0 {
        assert(s.subrange(0, e)[k - 1] == s[k - 1]);
        lemma_word_left_prefix_gen(s, e, k - 1);
    }
}

} // verus!
