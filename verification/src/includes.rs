//! `#include` directives: the files a text includes, and the quoted includes
//! that no open document provides.
use vstd::prelude::*;
use crate::diagnostics::{diags_view, line_diag, on_line, piece_span, DiagModel, Diagnostic};
use crate::lists::strings_view;
use crate::splits::{lines, lines_of, ranges_hold, ranges_within, trim_set, trim_set_range};
use crate::strops::{contains, contains_str, ends_with, eq_ranges, starts_with, starts_with_str, trim, trim_range};
use crate::text::{blen, push_str, range_string, to_chars};
use crate::uris::{normalize_uri, normalized_uri};

verus! {

/// The target of an `#include` line, without its quotes or angle brackets.
pub open spec fn include_target(raw: Seq<char>) -> Option<Seq<char>> {
    let t = trim(raw);
    if starts_with(t, "#include"@) {
        let x = trim_set(trim(t.subrange(8, t.len() as int)), seq!['"', '<', '>']);
        if x.len() > 0 {
            Some(x)
        } else {
            None
        }
    } else {
        None
    }
}

pub open spec fn include_targets_upto(ls: Seq<Seq<char>>, n: int) -> Seq<Seq<char>>
    decreases n,
{
    if n <= 0 {
        seq![]
    } else {
        match include_target(ls[n - 1]) {
            Some(x) => include_targets_upto(ls, n - 1).push(x),
            None => include_targets_upto(ls, n - 1),
        }
    }
}

/// The targets of the `#include` lines of a text, in order.
pub open spec fn include_targets(text: Seq<char>) -> Seq<Seq<char>> {
    include_targets_upto(lines(text), lines(text).len() as int)
}

/// The bounds of the include target of the line `v[la..lb]`, if it has one.
pub(crate) fn include_target_range(v: &[char], la: usize, lb: usize) -> (r: Option<(usize, usize)>)
    requires
        la <= lb <= v@.len(),
    ensures
        match include_target(v@.subrange(la as int, lb as int)) {
            Some(x) => r matches Some(p) && la <= p.0 <= p.1 <= lb && v@.subrange(p.0 as int, p.1 as int) == x,
            None => r is None,
        },
{
    let (ta, tb) = trim_range(v, la, lb);
    let ghost t = v@.subrange(ta as int, tb as int);
    if !starts_with_str(v, ta, tb, "#include") {
        return None;
    }
    proof {
        reveal_strlit("#include");
        assert(t.subrange(8, t.len() as int) =~= v@.subrange(ta + 8, tb as int));
    }
    let (ra, rb) = trim_range(v, ta + 8, tb);
    let set = ['"', '<', '>'];
    proof {
        assert(set@ =~= seq!['"', '<', '>']);
    }
    let (xa, xb) = trim_set_range(v, ra, rb, &set);
    if xa == xb {
        return None;
    }
    Some((xa, xb))
}

/// The targets of the `#include` lines of a text: each line that starts,
/// once trimmed, with `#include`, and the rest of it trimmed and stripped of
/// quotes and angle brackets, where that leaves something.
pub fn extract_include_targets(text: &str) -> (r: Vec<String>)
    ensures
        strings_view(r@) == include_targets(text@),
{
    let (v, ranges) = lines_of(text);
    let ghost ls = lines(v@);
    let mut out: Vec<String> = Vec::new();
    let mut idx: usize = 0;
    proof {
        assert(strings_view(out@) =~= Seq::<Seq<char>>::empty());
    }
    while idx < ranges.len()
        invariant
            v@ == text@,
            ls == lines(v@),
            ranges_within(ranges@, 0, v@.len() as int),
            ranges_hold(v@, ranges@, ls),
            idx <= ranges@.len(),
            strings_view(out@) == include_targets_upto(ls, idx as int),
        decreases ranges.len() - idx,
    {
        let (la, lb) = ranges[idx];
        proof {
            assert(ls[idx as int] == v@.subrange(la as int, lb as int));
        }
        match include_target_range(v.as_slice(), la, lb) {
            Some((xa, xb)) => {
                let s = range_string(v.as_slice(), xa, xb);
                out.push(s);
                proof {
                    assert(strings_view(out@) =~= include_targets_upto(ls, idx as int).push(s@));
                }
            },
            None => {},
        }
        idx = idx + 1;
    }
    out
}

/// An include that no open document provides: where it stands and the path.
#[derive(Debug, Clone)]
pub struct IncludeRef {
    pub line: usize,
    pub start: usize,
    pub end: usize,
    pub path: String,
}

/// What an `IncludeRef` holds.
pub struct IncludeModel {
    pub line: int,
    pub start: int,
    pub end: int,
    pub path: Seq<char>,
}

impl View for IncludeRef {
    type V = IncludeModel;

    open spec fn view(&self) -> IncludeModel {
        IncludeModel { line: self.line as int, start: self.start as int, end: self.end as int, path: self.path@ }
    }
}

pub open spec fn refs_view(v: Seq<IncludeRef>) -> Seq<IncludeModel> {
    v.map_values(|r: IncludeRef| r@)
}

/// The path of a quoted include (`#include "path"`).
pub open spec fn quoted_include(raw: Seq<char>) -> Option<Seq<char>> {
    let t = trim(raw);
    if starts_with(t, "#include"@) {
        let rest = trim(t.subrange(8, t.len() as int));
        if rest.len() >= 2 && rest[0] == '"' && rest.last() == '"' {
            Some(rest.subrange(1, rest.len() - 1))
        } else {
            None
        }
    } else {
        None
    }
}

/// Includes of engine and package headers, which are not looked for.
pub open spec fn engine_include(p: Seq<char>) -> bool {
    ||| starts_with(p, "Packages/"@)
    ||| starts_with(p, "/Engine/"@)
    ||| starts_with(p, "Engine/"@)
    ||| contains(p, "UnityCG.cginc"@)
    ||| contains(p, "Lighting.cginc"@)
    ||| contains(p, "AutoLight.cginc"@)
    ||| contains(p, "TerrainEngine.cginc"@)
    ||| contains(p, "Core.hlsl"@)
    ||| contains(p, "Common.ush"@)
}

/// The open document with key `k` provides the include path `p`: its
/// normalized URI ends with `p` after a path separator, or the key ends with `p`.
pub open spec fn cached_under(k: Seq<char>, p: Seq<char>) -> bool {
    let norm = normalized_uri(k);
    ||| (ends_with(norm, p) && norm.len() > p.len() && (norm[norm.len() - p.len() - 1] == '/' || norm[norm.len()
        - p.len() - 1] == '\\'))
    ||| ends_with(k, p)
}

/// The include of the line `raw` (line `idx`) that must be looked for on disk.
pub open spec fn include_candidate(raw: Seq<char>, idx: int, keys: Seq<Seq<char>>) -> Seq<IncludeModel> {
    match quoted_include(raw) {
        None => seq![],
        Some(p) => if engine_include(p) || exists|k: int| 0 <= k < keys.len() && cached_under(#[trigger] keys[k], p) {
            seq![]
        } else {
            let c = crate::diagnostics::find_col(raw, p, 0);
            seq![IncludeModel { line: idx, start: c, end: c + blen(p), path: p }]
        },
    }
}

pub open spec fn include_candidates_upto(ls: Seq<Seq<char>>, n: int, keys: Seq<Seq<char>>) -> Seq<IncludeModel>
    decreases n,
{
    if n <= 0 {
        seq![]
    } else {
        include_candidates_upto(ls, n - 1, keys) + include_candidate(ls[n - 1], n - 1, keys)
    }
}

/// The quoted includes of `content` that are neither engine headers nor open
/// documents, with their positions.
pub open spec fn include_candidates(content: Seq<char>, keys: Seq<Seq<char>>) -> Seq<IncludeModel> {
    include_candidates_upto(lines(content), lines(content).len() as int, keys)
}

/// `cached_under(k, v[pa..pb])`.
fn cached_under_exec(k: &str, v: &[char], pa: usize, pb: usize) -> (r: bool)
    requires
        pa <= pb <= v@.len(),
    ensures
        r == cached_under(k@, v@.subrange(pa as int, pb as int)),
{
    let ghost p = v@.subrange(pa as int, pb as int);
    let norm = normalize_uri(k);
    let n = to_chars(norm.as_str());
    let plen = pb - pa;
    if plen <= n.len() && eq_ranges(n.as_slice(), n.len() - plen, n.len(), v, pa, pb) {
        proof {
            assert(n@.subrange(n@.len() - plen, n@.len() as int) =~= n@.subrange(
                n@.len() - p.len(),
                n@.len() as int,
            ));
        }
        if n.len() > plen && (n[n.len() - plen - 1] == '/' || n[n.len() - plen - 1] == '\\') {
            return true;
        }
    } else {
        proof {
            if plen <= n@.len() {
                assert(n@.subrange(n@.len() - plen, n@.len() as int) =~= n@.subrange(
                    n@.len() - p.len(),
                    n@.len() as int,
                ));
            }
        }
    }
    let kc = to_chars(k);
    let kl = kc.len();
    let r = plen <= kl && eq_ranges(kc.as_slice(), kl - plen, kl, v, pa, pb);
    proof {
        if plen <= kl {
            assert(kc@.subrange(kl - plen, kl as int) =~= kc@.subrange(kc@.len() - p.len(), kc@.len() as int));
        }
    }
    r
}

/// Some open document provides `v[pa..pb]`.
fn in_cache(keys: &[String], v: &[char], pa: usize, pb: usize) -> (r: bool)
    requires
        pa <= pb <= v@.len(),
    ensures
        r == exists|k: int|
            0 <= k < keys@.len() && cached_under(#[trigger] strings_view(keys@)[k], v@.subrange(pa as int, pb as int)),
{
    let ghost p = v@.subrange(pa as int, pb as int);
    let ghost ks = strings_view(keys@);
    let mut i: usize = 0;
    while i < keys.len()
        invariant
            pa <= pb <= v@.len(),
            p == v@.subrange(pa as int, pb as int),
            ks == strings_view(keys@),
            i <= keys@.len(),
            forall|j: int| 0 <= j < i ==> !cached_under(#[trigger] ks[j], p),
        decreases keys.len() - i,
    {
        if cached_under_exec(keys[i].as_str(), v, pa, pb) {
            proof {
                assert(ks[i as int] == keys@[i as int]@);
            }
            return true;
        }
        proof {
            assert(ks[i as int] == keys@[i as int]@);
        }
        i = i + 1;
    }
    false
}

/// `engine_include(v[pa..pb])`.
fn engine_include_exec(v: &[char], pa: usize, pb: usize) -> (r: bool)
    requires
        pa <= pb <= v@.len(),
    ensures
        r == engine_include(v@.subrange(pa as int, pb as int)),
{
    starts_with_str(v, pa, pb, "Packages/") || starts_with_str(v, pa, pb, "/Engine/") || starts_with_str(
        v,
        pa,
        pb,
        "Engine/",
    ) || contains_str(v, pa, pb, "UnityCG.cginc") || contains_str(v, pa, pb, "Lighting.cginc") || contains_str(
        v,
        pa,
        pb,
        "AutoLight.cginc",
    ) || contains_str(v, pa, pb, "TerrainEngine.cginc") || contains_str(v, pa, pb, "Core.hlsl") || contains_str(
        v,
        pa,
        pb,
        "Common.ush",
    )
}

/// The bounds of the quoted include path of the line `v[la..lb]`.
fn quoted_include_range(v: &[char], la: usize, lb: usize) -> (r: Option<(usize, usize)>)
    requires
        la <= lb <= v@.len(),
    ensures
        match quoted_include(v@.subrange(la as int, lb as int)) {
            Some(p) => r matches Some(q) && la <= q.0 <= q.1 <= lb && v@.subrange(q.0 as int, q.1 as int) == p,
            None => r is None,
        },
{
    let (ta, tb) = trim_range(v, la, lb);
    let ghost t = v@.subrange(ta as int, tb as int);
    if !starts_with_str(v, ta, tb, "#include") {
        return None;
    }
    proof {
        reveal_strlit("#include");
        assert(t.subrange(8, t.len() as int) =~= v@.subrange(ta + 8, tb as int));
    }
    let (ra, rb) = trim_range(v, ta + 8, tb);
    let ghost rest = v@.subrange(ra as int, rb as int);
    if rb - ra >= 2 && v[ra] == '"' && v[rb - 1] == '"' {
        proof {
            assert(rest[0] == v@[ra as int]);
            assert(rest.last() == v@[rb - 1]);
            assert(rest.subrange(1, rest.len() - 1) =~= v@.subrange(ra + 1, rb - 1));
        }
        Some((ra + 1, rb - 1))
    } else {
        proof {
            if rb - ra >= 2 {
                assert(rest[0] == v@[ra as int]);
                assert(rest.last() == v@[rb - 1]);
            }
        }
        None
    }
}

/// The quoted includes of `content` that are neither engine or package
/// headers nor provided by an open document (`cache_keys` are the URIs of the
/// open documents): those that must be looked for on disk, with the line and
/// byte range of their path.
pub fn missing_include_candidates(content: &str, cache_keys: &[String]) -> (r: Vec<IncludeRef>)
    ensures
        refs_view(r@) == include_candidates(content@, strings_view(cache_keys@)),
{
    let (v, ranges) = lines_of(content);
    let ghost ls = lines(v@);
    let ghost keys = strings_view(cache_keys@);
    let mut out: Vec<IncludeRef> = Vec::new();
    let mut idx: usize = 0;
    proof {
        assert(refs_view(out@) =~= Seq::<IncludeModel>::empty());
    }
    while idx < ranges.len()
        invariant
            v@ == content@,
            ls == lines(v@),
            keys == strings_view(cache_keys@),
            crate::text::blen(v@) <= usize::MAX,
            ranges_within(ranges@, 0, v@.len() as int),
            ranges_hold(v@, ranges@, ls),
            idx <= ranges@.len(),
            refs_view(out@) == include_candidates_upto(ls, idx as int, keys),
        decreases ranges.len() - idx,
    {
        let (la, lb) = ranges[idx];
        let ghost raw = v@.subrange(la as int, lb as int);
        let ghost before = refs_view(out@);
        proof {
            assert(ls[idx as int] == raw);
        }
        match quoted_include_range(v.as_slice(), la, lb) {
            Some((pa, pb)) => {
                if !engine_include_exec(v.as_slice(), pa, pb) && !in_cache(cache_keys, v.as_slice(), pa, pb) {
                    let (c, e) = piece_span(v.as_slice(), la, lb, pa, pb, 0);
                    let path = range_string(v.as_slice(), pa, pb);
                    out.push(IncludeRef { line: idx, start: c, end: e, path });
                    proof {
                        assert(refs_view(out@) =~= before + include_candidate(raw, idx as int, keys));
                    }
                } else {
                    proof {
                        assert(refs_view(out@) =~= before + include_candidate(raw, idx as int, keys));
                    }
                }
            },
            None => {
                proof {
                    assert(refs_view(out@) =~= before + include_candidate(raw, idx as int, keys));
                }
            },
        }
        idx = idx + 1;
    }
    out
}

pub open spec fn missing_upto(cs: Seq<IncludeModel>, found: Seq<bool>, n: int) -> Seq<DiagModel>
    decreases n,
{
    if n <= 0 {
        seq![]
    } else if found[n - 1] {
        missing_upto(cs, found, n - 1)
    } else {
        let c = cs[n - 1];
        missing_upto(cs, found, n - 1).push(
            on_line(c.line, c.start, c.end, 1, "Cannot find include file '"@ + c.path + "'."@, "hlsl"@),
        )
    }
}

/// An error on each include candidate that was not found on disk
/// (`found[i]` tells whether `candidates[i]` was).
pub fn validate_missing_includes(candidates: &[IncludeRef], found: &[bool]) -> (r: Vec<Diagnostic>)
    requires
        found@.len() == candidates@.len(),
    ensures
        diags_view(r@) == missing_upto(refs_view(candidates@), found@, candidates@.len() as int),
{
    let ghost cs = refs_view(candidates@);
    let mut out: Vec<Diagnostic> = Vec::new();
    let mut i: usize = 0;
    proof {
        assert(diags_view(out@) =~= Seq::<DiagModel>::empty());
    }
    while i < candidates.len()
        invariant
            found@.len() == candidates@.len(),
            cs == refs_view(candidates@),
            i <= candidates@.len(),
            diags_view(out@) == missing_upto(cs, found@, i as int),
        decreases candidates.len() - i,
    {
        if !found[i] {
            let c = &candidates[i];
            let mut m = String::new();
            push_str(&mut m, "Cannot find include file '");
            push_str(&mut m, c.path.as_str());
            push_str(&mut m, "'.");
            let ghost before = diags_view(out@);
            out.push(line_diag(c.line, c.start, c.end, 1, m, "hlsl"));
            proof {
                assert(cs[i as int] == c@);
                assert(diags_view(out@) =~= before.push(out@.last()@));
            }
        }
        i = i + 1;
    }
    out
}

} // verus!

verus! {

/// How deep includes are followed: the includes of the document are at
/// depth 0.
pub const MAX_INCLUDE_DEPTH: usize = 8;

/// `target` with `\` written as `/`, after a `/`: the end of a path that
/// names the included file.
pub open spec fn include_suffix(target: Seq<char>) -> Seq<char> {
    seq!['/'] + target.map_values(|c: char|
        if c == '\\' {
            '/'
        } else {
            c
        })
}

/// An open document's URI `key` provides the include `target`: it ends
/// with `/target` (backslashes as slashes) or with `target` itself.
pub open spec fn provides_include(key: Seq<char>, target: Seq<char>) -> bool {
    ends_with(key, include_suffix(target)) || ends_with(key, target)
}

/// The index of the first open document (by URI, in `keys`) that provides
/// the include `target`.
pub fn cached_include_uri(keys: &[String], target: &str) -> (r: Option<usize>)
    ensures
        match crate::hover::first_of(strings_view(keys@), |k: Seq<char>| provides_include(k, target@), 0) {
            Some(i) => r matches Some(ri) && ri == i,
            None => r is None,
        },
{
    let ghost kv = strings_view(keys@);
    let ghost p = |k: Seq<char>| provides_include(k, target@);
    let tc = to_chars(target);
    let mut suffix = String::new();
    crate::text::push_char(&mut suffix, '/');
    let mut i: usize = 0;
    while i < tc.len()
        invariant
            tc@ == target@,
            i <= tc@.len(),
            suffix@ == seq!['/'] + tc@.take(i as int).map_values(|c: char|
                if c == '\\' {
                    '/'
                } else {
                    c
                }),
        decreases tc.len() - i,
    {
        let c = if tc[i] == '\\' {
            '/'
        } else {
            tc[i]
        };
        crate::text::push_char(&mut suffix, c);
        proof {
            assert(tc@.take(i + 1) =~= tc@.take(i as int).push(tc@[i as int]));
            assert(seq!['/'] + tc@.take(i + 1).map_values(|c: char|
                if c == '\\' {
                    '/'
                } else {
                    c
                }) =~= (seq!['/'] + tc@.take(i as int).map_values(|c: char|
                if c == '\\' {
                    '/'
                } else {
                    c
                })).push(c));
        }
        i = i + 1;
    }
    proof {
        assert(tc@.take(tc@.len() as int) =~= tc@);
        assert(suffix@ == include_suffix(target@));
    }
    let mut j: usize = 0;
    while j < keys.len()
        invariant
            kv == strings_view(keys@),
            p == (|k: Seq<char>| provides_include(k, target@)),
            suffix@ == include_suffix(target@),
            j <= keys@.len(),
            forall|m: int| 0 <= m < j ==> !p(#[trigger] kv[m]),
        decreases keys.len() - j,
    {
        let kc = to_chars(keys[j].as_str());
        proof {
            assert(kv[j as int] == keys@[j as int]@);
            assert(kc@.subrange(0, kc@.len() as int) =~= kc@);
        }
        if crate::strops::ends_with_str(kc.as_slice(), 0, kc.len(), suffix.as_str()) || crate::strops::ends_with_str(
            kc.as_slice(),
            0,
            kc.len(),
            target,
        ) {
            proof {
                crate::hover::lemma_first_of_at(kv, p, j as int, 0);
            }
            return Some(j);
        }
        j = j + 1;
    }
    proof {
        crate::hover::lemma_first_of_none(kv, p, 0);
    }
    None
}

/// A Unity package include `Packages/<package>/<path>` (the first part in
/// any ASCII case): the package name and the path inside the package.
pub open spec fn package_parts(target: Seq<char>) -> Option<(Seq<char>, Seq<char>)> {
    if target.len() >= 9 && crate::render_states::eq_ignore_case(target.take(9), "packages/"@) {
        let sub = target.subrange(9, target.len() as int);
        match crate::strops::find(sub, seq!['/']) {
            Some(i) => Some((sub.take(i), sub.subrange(i + 1, sub.len() as int))),
            None => None,
        }
    } else {
        None
    }
}

/// The package name and inner path of a Unity package include.
pub fn package_include_parts(target: &str) -> (r: Option<(String, String)>)
    ensures
        match package_parts(target@) {
            Some((a, b)) => r matches Some(rv) && rv.0@ == a && rv.1@ == b,
            None => r is None,
        },
{
    let tc = to_chars(target);
    let n = tc.len();
    if n < 9 || !crate::render_states::eq_ignore_case_str(tc.as_slice(), 0, 9, "packages/") {
        proof {
            if n >= 9 {
                assert(tc@.take(9) =~= tc@.subrange(0, 9));
            }
        }
        return None;
    }
    proof {
        assert(tc@.take(9) =~= tc@.subrange(0, 9));
    }
    match crate::strops::find_char(tc.as_slice(), 9, n, '/') {
        Some(i) => {
            proof {
                let sub = tc@.subrange(9, n as int);
                assert(sub.take(i as int) =~= tc@.subrange(9, 9 + i));
                assert(sub.subrange(i + 1, sub.len() as int) =~= tc@.subrange(9 + i + 1, n as int));
            }
            Some((range_string(tc.as_slice(), 9, 9 + i), range_string(tc.as_slice(), 9 + i + 1, n)))
        },
        None => None,
    }
}

/// A directory of the Unity package cache holds the package `pkg`: its name
/// starts with the package name and holds a `@` (the version).
pub open spec fn package_dir_of(dir_name: Seq<char>, pkg: Seq<char>) -> bool {
    starts_with(dir_name, pkg) && contains(dir_name, seq!['@'])
}

/// Whether the package cache directory `dir_name` holds the package `pkg`.
pub fn is_package_dir(dir_name: &str, pkg: &str) -> (r: bool)
    ensures
        r == package_dir_of(dir_name@, pkg@),
{
    let dc = to_chars(dir_name);
    proof {
        assert(dc@.subrange(0, dc@.len() as int) =~= dc@);
    }
    crate::strops::starts_with_str(dc.as_slice(), 0, dc.len(), pkg) && crate::strops::contains_char(
        dc.as_slice(),
        0,
        dc.len(),
        '@',
    )
}

} // verus!
