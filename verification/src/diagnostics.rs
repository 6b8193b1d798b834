//! Diagnostics: positions, ranges and messages reported on a document.
use vstd::prelude::*;
use crate::strops::{find, find_chars};
use crate::text::{blen, byte_offset, lemma_blen_mono, lemma_blen_subrange, str_string};
use crate::decls::slice_range;

verus! {

/// A position in a document: a line and a byte offset in it.
#[derive(Debug, Clone, Copy, PartialEq, Eq, Structural)]
pub struct Position {
    pub line: usize,
    pub character: usize,
}

/// A range between two positions.
#[derive(Debug, Clone, Copy, PartialEq, Eq, Structural)]
pub struct Range {
    pub start: Position,
    pub end: Position,
}

/// A message on a range of a document; severity 1 is an error, 2 a warning.
#[derive(Debug, Clone)]
pub struct Diagnostic {
    pub range: Range,
    pub severity: u8,
    pub message: String,
    pub source: String,
}

/// What a `Diagnostic` holds.
pub struct DiagModel {
    pub range: Range,
    pub severity: u8,
    pub message: Seq<char>,
    pub source: Seq<char>,
}

impl View for Diagnostic {
    type V = DiagModel;

    open spec fn view(&self) -> DiagModel {
        DiagModel { range: self.range, severity: self.severity, message: self.message@, source: self.source@ }
    }
}

/// The views of a vector of diagnostics.
pub open spec fn diags_view(v: Seq<Diagnostic>) -> Seq<DiagModel> {
    v.map_values(|d: Diagnostic| d@)
}

/// A diagnostic on line `line` from byte `start` to byte `end`.
pub open spec fn on_line(line: int, start: int, end: int, severity: u8, message: Seq<char>, source: Seq<char>) -> DiagModel {
    DiagModel {
        range: Range {
            start: Position { line: line as usize, character: start as usize },
            end: Position { line: line as usize, character: end as usize },
        },
        severity,
        message,
        source,
    }
}

/// Builds a one-line diagnostic.
pub fn line_diag(line: usize, start: usize, end: usize, severity: u8, message: String, source: &str) -> (r: Diagnostic)
    ensures
        r@ == on_line(line as int, start as int, end as int, severity, message@, source@),
{
    Diagnostic {
        range: Range { start: Position { line, character: start }, end: Position { line, character: end } },
        severity,
        message,
        source: str_string(source),
    }
}

/// Byte column of the first occurrence of `p` in `raw`, or `dflt`.
pub open spec fn find_col(raw: Seq<char>, p: Seq<char>, dflt: int) -> int {
    match find(raw, p) {
        Some(k) => blen(raw.take(k)) as int,
        None => dflt,
    }
}

/// `find_col` with the text `s[ra..rb]` and the pattern `p`.
pub fn find_col_exec(s: &[char], ra: usize, rb: usize, p: &[char], dflt: usize) -> (r: usize)
    requires
        ra <= rb <= s@.len(),
        blen(s@.subrange(ra as int, rb as int)) <= usize::MAX,
    ensures
        r == find_col(s@.subrange(ra as int, rb as int), p@, dflt as int),
        find(s@.subrange(ra as int, rb as int), p@) is Some ==> r + blen(p@) <= blen(s@.subrange(ra as int, rb as int)),
{
    match find_chars(s, ra, rb, p) {
        Some(k) => {
            let raw = slice_range(s, ra, rb);
            proof {
                crate::cursor::lemma_find_from_ge(raw@, p@, 0);
                lemma_blen_mono(raw@, k as int, raw@.len() as int);
                assert(raw@.take(raw@.len() as int) =~= raw@);
                crate::text::lemma_blen_concat(raw@.take(k as int), raw@.subrange(k as int, k + p@.len()));
                assert(raw@.take(k as int) + raw@.subrange(k as int, k + p@.len()) =~= raw@.take(k + p@.len()));
                assert(raw@.subrange(k as int, k + p@.len()) =~= p@);
                lemma_blen_mono(raw@, k + p@.len(), raw@.len() as int);
            }
            byte_offset(raw.as_slice(), k)
        },
        None => dflt,
    }
}

} // verus!

verus! {

proof fn lemma_find_from_some(s: Seq<char>, p: Seq<char>, j: int, i: int)
    requires
        0 <= j <= i,
        crate::strops::occurs_at(s, p, i),
    ensures
        crate::strops::find_from(s, p, j) is Some,
    decreases i - j,
{
    if j < i && !crate::strops::occurs_at(s, p, j) {
        lemma_find_from_some(s, p, j + 1, i);
    }
}

/// A piece that occurs in a text is found in it.
pub proof fn lemma_find_some(s: Seq<char>, p: Seq<char>, i: int)
    requires
        crate::strops::occurs_at(s, p, i),
    ensures
        find(s, p) is Some,
{
    lemma_find_from_some(s, p, 0, i);
}

/// Byte length of `s[a..b]`.
pub fn range_blen(s: &[char], a: usize, b: usize) -> (r: usize)
    requires
        a <= b <= s@.len(),
        blen(s@) <= usize::MAX,
    ensures
        r == blen(s@.subrange(a as int, b as int)),
{
    let piece = slice_range(s, a, b);
    proof {
        lemma_blen_subrange(s@, a as int, b as int);
        assert(piece@.take(piece@.len() as int) =~= piece@);
    }
    byte_offset(piece.as_slice(), piece.len())
}

/// Column and end of a piece `s[pa..pb]` of the line `s[ra..rb]`, found by
/// its first occurrence in the line.
pub fn piece_span(s: &[char], ra: usize, rb: usize, pa: usize, pb: usize, dflt: usize) -> (r: (usize, usize))
    requires
        ra <= pa <= pb <= rb <= s@.len(),
        blen(s@) <= usize::MAX,
    ensures
        r.0 == find_col(s@.subrange(ra as int, rb as int), s@.subrange(pa as int, pb as int), dflt as int),
        r.1 == r.0 + blen(s@.subrange(pa as int, pb as int)),
        r.1 <= blen(s@.subrange(ra as int, rb as int)),
{
    proof {
        lemma_blen_subrange(s@, ra as int, rb as int);
        assert(s@.subrange(ra as int, rb as int).subrange(pa - ra, pb - ra) =~= s@.subrange(pa as int, pb as int));
        lemma_find_some(s@.subrange(ra as int, rb as int), s@.subrange(pa as int, pb as int), pa - ra);
    }
    let c = find_col_exec(s, ra, rb, &s[pa..pb], dflt);
    let n = range_blen(s, pa, pb);
    (c, c + n)
}

} // verus!

verus! {

/// A copy of a diagnostic.
pub fn copy_diag(d: &Diagnostic) -> (r: Diagnostic)
    ensures
        r@ == d@,
{
    Diagnostic { range: d.range, severity: d.severity, message: d.message.clone(), source: d.source.clone() }
}

} // verus!
