//! Diagnostics read from the output of the DXC compiler, mapped back to the
//! lines of the document it compiled.
use vstd::prelude::*;
use crate::diagnostics::{diags_view, line_diag, on_line, DiagModel, Diagnostic};
use crate::numbers::all_digits;
use crate::splits::{lines, lines_of, ranges_hold, ranges_within, split_on, split_ranges};
use crate::strops::{contains, contains_str, find, find_str, rfind, rfind_char, starts_with, starts_with_char, starts_with_str, trim, trim_range};
use crate::text::{blen, lemma_blen_subrange, range_string, to_chars};

verus! {

/// The value of a string of decimal digits.
pub open spec fn digits_value(s: Seq<char>) -> nat
    decreases s.len(),
{
    if s.len() == 0 {
        0
    } else {
        digits_value(s.drop_last()) * 10 + ((s.last() as u32 - 48) as nat)
    }
}

/// `str::parse::<usize>`: an optional `+` and decimal digits whose value
/// fits.
pub open spec fn parse_usize(s: Seq<char>) -> Option<nat> {
    let d = if s.len() > 0 && s[0] == '+' {
        s.subrange(1, s.len() as int)
    } else {
        s
    };
    if d.len() > 0 && all_digits(d) && digits_value(d) <= usize::MAX {
        Some(digits_value(d))
    } else {
        None
    }
}

/// `parse_usize(s[a..b])`.
pub fn parse_usize_range(s: &[char], a: usize, b: usize) -> (r: Option<usize>)
    requires
        a <= b <= s@.len(),
    ensures
        match parse_usize(s@.subrange(a as int, b as int)) {
            Some(n) => r == Some(n as usize),
            None => r is None,
        },
{
    let ghost x = s@.subrange(a as int, b as int);
    let mut d = a;
    if a < b && s[a] == '+' {
        d = a + 1;
        assert(x.subrange(1, x.len() as int) =~= s@.subrange(d as int, b as int));
    } else {
        assert(x =~= s@.subrange(d as int, b as int));
    }
    if d == b {
        return None;
    }
    let mut acc: usize = 0;
    let mut ok = true;
    let mut i = d;
    while i < b
        invariant
            d <= i <= b <= s@.len(),
            x == s@.subrange(a as int, b as int),
            (if x.len() > 0 && x[0] == '+' {
                x.subrange(1, x.len() as int)
            } else {
                x
            }) == s@.subrange(d as int, b as int),
            d < b,
            all_digits(s@.subrange(d as int, i as int)),
            ok ==> acc == digits_value(s@.subrange(d as int, i as int)),
            !ok ==> digits_value(s@.subrange(d as int, i as int)) > usize::MAX,
        decreases b - i,
    {
        let c = s[i];
        if !('0' <= c && c <= '9') {
            proof {
                let y = s@.subrange(d as int, b as int);
                assert(y[i - d] == c);
                assert(!all_digits(y));
            }
            return None;
        }
        let dv = (c as u32 - 48) as usize;
        proof {
            let y = s@.subrange(d as int, i + 1);
            assert(y.drop_last() =~= s@.subrange(d as int, i as int));
            assert(y.last() == c);
            assert(forall|j: int| 0 <= j < y.len() ==> #[trigger] y[j] == s@.subrange(d as int, i as int).push(c)[j]);
            assert(y =~= s@.subrange(d as int, i as int).push(c));
        }
        if ok {
            match acc.checked_mul(10) {
                Some(m) => match m.checked_add(dv) {
                    Some(n) => {
                        acc = n;
                    },
                    None => {
                        ok = false;
                    },
                },
                None => {
                    ok = false;
                },
            }
        }
        i = i + 1;
    }
    if ok {
        Some(acc)
    } else {
        None
    }
}

/// What `Path::file_name` gives for a path: its last component, unless the
/// path ends in `..` or has none.
pub uninterp spec fn path_file_name(p: Seq<char>) -> Option<Seq<char>>;

/// Calls `Path::file_name` on a path written as a string.  The contract
/// names the result; what the last component is, `Path` decides.
#[verifier::external_body]
fn file_name_of(p: &str) -> (r: Option<String>)
    ensures
        crate::text::opt_view(r) == path_file_name(p@),
{
    std::path::Path::new(p).file_name().and_then(|n| n.to_str()).map(|n| n.to_string())
}

/// The severity, message and tag position of a DXC output line.
pub open spec fn dxc_kind(line: Seq<char>) -> Option<(u8, Seq<char>, int, int)> {
    match find(line, ": fatal error:"@) {
        Some(i) => Some((1u8, trim(line.subrange(i + 14, line.len() as int)), i, 14)),
        None => match find(line, ": error:"@) {
            Some(i) => Some((1u8, trim(line.subrange(i + 8, line.len() as int)), i, 8)),
            None => match find(line, ": warning:"@) {
                Some(i) => Some((2u8, trim(line.subrange(i + 10, line.len() as int)), i, 10)),
                None => None,
            },
        },
    }
}

/// The symbols the compatibility preambles define, whose redefinition is
/// no error of the user's.
pub open spec fn preamble_symbols() -> Seq<Seq<char>> {
    seq![
        "_RendererColor"@, "_Flip"@, "_ClipRect"@, "UNITY_MATRIX_MVP"@, "UNITY_MATRIX_MV"@, "UNITY_MATRIX_V"@,
        "UNITY_MATRIX_P"@, "UNITY_MATRIX_VP"@, "unity_ObjectToWorld"@, "unity_WorldToObject"@, "unity_MatrixVP"@,
        "unity_MatrixV"@, "unity_MatrixInvV"@, "unity_MatrixP"@, "unity_MatrixInvP"@, "_Time"@, "_SinTime"@,
        "_CosTime"@, "unity_DeltaTime"@, "_ScreenParams"@, "_ScaledScreenParams"@, "_ProjectionParams"@,
        "_ZBufferParams"@, "unity_OrthoParams"@, "_WorldSpaceCameraPos"@, "_WorldSpaceLightPos0"@,
        "_LightColor0"@, "_MainLightPosition"@, "_MainLightColor"@, "_AdditionalLightsCount"@,
        "UnitySampler2D"@, "TransformObjectToHClip"@, "UnityObjectToClipPos"@, "UnityObjectToWorldNormal"@,
        "TransformObjectToWorldNormal"@, "TransformObjectToWorldDir"@, "TransformWorldToView"@, "ResolvedView"@,
        "View"@,
    ]
}

/// A message the diagnostics leave out: a missing engine header, an ignored
/// attribute or pragma, or a redefinition of a preamble symbol.
pub open spec fn ignored_message(rest: Seq<char>) -> bool {
    ||| contains(rest, "file not found"@) && (contains(rest, "Packages/"@) || contains(rest, "UnityCG.cginc"@)
        || contains(rest, "Lighting.cginc"@) || contains(rest, "AutoLight.cginc"@) || contains(
        rest,
        "TerrainEngine.cginc"@,
    ) || contains(rest, "Engine"@) || contains(rest, ".ush"@))
    ||| contains(rest, "attribute 'numthreads' ignored"@) || contains(rest, "unknown pragma ignored"@)
    ||| starts_with(rest, "redefinition of"@) && preamble_symbols().contains(
        {
            let ps = split_on(rest, '\'');
            if ps.len() > 1 {
                ps[1]
            } else {
                Seq::<char>::empty()
            }
        },
    )
}

/// `file:line:col`, split from the right at its last two colons.
pub open spec fn location_parts(prefix: Seq<char>) -> (Seq<char>, Seq<char>, Seq<char>) {
    match rfind(prefix, seq![':']) {
        None => (Seq::empty(), Seq::empty(), prefix),
        Some(k1) => {
            let p2 = prefix.subrange(0, k1);
            let col = prefix.subrange(k1 + 1, prefix.len() as int);
            match rfind(p2, seq![':']) {
                None => (Seq::empty(), p2, col),
                Some(k2) => (p2.subrange(0, k2), p2.subrange(k2 + 1, p2.len() as int), col),
            }
        },
    }
}

/// Index of the first line from `k` on that includes the file `name`.
pub open spec fn include_line_of(ls: Seq<Seq<char>>, name: Seq<char>, k: int) -> Option<int>
    decreases ls.len() - k,
{
    if 0 <= k < ls.len() {
        if contains(ls[k], "#include"@) && name.len() > 0 && contains(ls[k], name) {
            Some(k)
        } else {
            include_line_of(ls, name, k + 1)
        }
    } else {
        None
    }
}

/// How DXC's output maps to the document: the line of the block in the
/// document, the lines of the preamble, and the shared include code (its
/// line count and first line) put before the block.
#[derive(Debug, Clone, Copy)]
pub struct DxcMapping {
    pub line_offset: usize,
    pub stubs_line_count: usize,
    pub shared_include: Option<(usize, usize)>,
}

/// The document line of DXC's line `pl` in the file `file`.
pub open spec fn mapped_line(file: Seq<char>, pl: int, content: Seq<char>, m: DxcMapping) -> int {
    let (sc, ss) = match m.shared_include {
        Some(x) => (x.0 as int, x.1 as int),
        None => (0, 0),
    };
    let total = m.stubs_line_count + sc;
    if contains(file, "hlsl_val_"@) {
        if sc > 0 && pl <= total {
            (if pl - 1 >= m.stubs_line_count { pl - 1 - m.stubs_line_count } else { 0 }) + ss
        } else {
            (if pl - 1 >= total { pl - 1 - total } else { 0 }) + m.line_offset
        }
    } else {
        match include_line_of(lines(content), match path_file_name(file) {
            Some(n) => n,
            None => Seq::empty(),
        }, 0) {
            Some(i) => i,
            None => m.line_offset as int,
        }
    }
}

/// The span of a message: a quoted file name and its quotes, or 5 bytes.
pub open spec fn message_span(rest: Seq<char>) -> int {
    if starts_with(rest, seq!['\'']) {
        let after = rest.subrange(1, rest.len() as int);
        (blen(crate::splits::before_any(after, seq!['\''])) + 2) as int
    } else {
        5
    }
}

/// The diagnostic of one line of DXC's output, if it holds one.
pub open spec fn dxc_line_diag(line: Seq<char>, content: Seq<char>, m: DxcMapping) -> Option<DiagModel> {
    match dxc_kind(line) {
        None => None,
        Some((sev, rest, ti, _tl)) => if ignored_message(rest) {
            None
        } else {
            let (file, ls, cs) = location_parts(line.subrange(0, ti));
            match (parse_usize(ls), parse_usize(cs)) {
                (Some(pl), Some(pc)) => if pl <= m.stubs_line_count {
                    None
                } else {
                    let l = mapped_line(file, pl as int, content, m);
                    let c = if pc >= 1 { pc - 1 } else { 0 };
                    Some(on_line(l, c, c + message_span(rest), sev, rest, "dxc"@))
                },
                _ => None,
            }
        },
    }
}

/// The diagnostics of the lines of DXC's output from index `k` on.
pub open spec fn dxc_diags_from(out: Seq<Seq<char>>, content: Seq<char>, m: DxcMapping, k: int) -> Seq<DiagModel>
    decreases out.len() - k,
{
    if 0 <= k < out.len() {
        match dxc_line_diag(out[k], content, m) {
            Some(d) => seq![d] + dxc_diags_from(out, content, m, k + 1),
            None => dxc_diags_from(out, content, m, k + 1),
        }
    } else {
        seq![]
    }
}

/// Every diagnostic DXC's output gives has a line and end column that fit
/// a `usize`.
pub open spec fn dxc_output_fits(out: Seq<Seq<char>>, content: Seq<char>, m: DxcMapping) -> bool {
    &&& m.stubs_line_count + match m.shared_include {
        Some(x) => x.0 as int,
        None => 0,
    } <= usize::MAX
    &&& forall|k: int| 0 <= k < out.len() ==> match dxc_kind(#[trigger] out[k]) {
        Some((sev, rest, ti, _tl)) => {
            let (file, ls, cs) = location_parts(out[k].subrange(0, ti));
            match (parse_usize(ls), parse_usize(cs)) {
                (Some(pl), Some(pc)) => mapped_line(file, pl as int, content, m) <= usize::MAX && pc + message_span(
                    rest,
                ) <= usize::MAX,
                _ => true,
            }
        },
        None => true,
    }
}

} // verus!

verus! {

/// `dxc_kind(v[a..b])` with absolute bounds: severity, trimmed message
/// bounds, and the index where the tag starts.
fn dxc_kind_exec(v: &[char], a: usize, b: usize) -> (r: Option<(u8, usize, usize, usize)>)
    requires
        a <= b <= v@.len(),
    ensures
        match dxc_kind(v@.subrange(a as int, b as int)) {
            Some((sev, rest, ti, _tl)) => r matches Some(x) && x.0 == sev && a <= x.1 <= x.2 <= b && v@.subrange(
                x.1 as int,
                x.2 as int,
            ) == rest && x.3 == ti && ti <= b - a,
            None => r is None,
        },
{
    let ghost line = v@.subrange(a as int, b as int);
    proof {
        reveal_strlit(": fatal error:");
        reveal_strlit(": error:");
        reveal_strlit(": warning:");
    }
    match find_str(v, a, b, ": fatal error:") {
        Some(i) => {
            assert(line.subrange(i + 14, line.len() as int) =~= v@.subrange(a + i + 14, b as int));
            let (x, y) = trim_range(v, a + i + 14, b);
            return Some((1, x, y, i));
        },
        None => {},
    }
    match find_str(v, a, b, ": error:") {
        Some(i) => {
            assert(line.subrange(i + 8, line.len() as int) =~= v@.subrange(a + i + 8, b as int));
            let (x, y) = trim_range(v, a + i + 8, b);
            return Some((1, x, y, i));
        },
        None => {},
    }
    match find_str(v, a, b, ": warning:") {
        Some(i) => {
            assert(line.subrange(i + 10, line.len() as int) =~= v@.subrange(a + i + 10, b as int));
            let (x, y) = trim_range(v, a + i + 10, b);
            Some((2, x, y, i))
        },
        None => None,
    }
}

/// `ignored_message(v[ra..rb])`.
fn ignored_message_exec(v: &[char], ra: usize, rb: usize) -> (r: bool)
    requires
        ra <= rb <= v@.len(),
    ensures
        r == ignored_message(v@.subrange(ra as int, rb as int)),
{
    if contains_str(v, ra, rb, "file not found") && (contains_str(v, ra, rb, "Packages/") || contains_str(
        v,
        ra,
        rb,
        "UnityCG.cginc",
    ) || contains_str(v, ra, rb, "Lighting.cginc") || contains_str(v, ra, rb, "AutoLight.cginc") || contains_str(
        v,
        ra,
        rb,
        "TerrainEngine.cginc",
    ) || contains_str(v, ra, rb, "Engine") || contains_str(v, ra, rb, ".ush")) {
        return true;
    }
    if contains_str(v, ra, rb, "attribute 'numthreads' ignored") || contains_str(v, ra, rb, "unknown pragma ignored") {
        return true;
    }
    if !starts_with_str(v, ra, rb, "redefinition of") {
        return false;
    }
    let ps = split_ranges(v, ra, rb, '\'');
    let (sa, sb) = if ps.len() > 1 {
        ps[1]
    } else {
        (ra, ra)
    };
    proof {
        if ps.len() <= 1 {
            assert(v@.subrange(ra as int, ra as int) =~= Seq::<char>::empty());
        }
    }
    let syms = preamble_symbols_exec();
    let ghost rest = v@.subrange(ra as int, rb as int);
    proof {
        if ps.len() > 1 {
            assert(v@.subrange(sa as int, sb as int) == split_on(rest, '\'')[1]);
        }
    }
    let mut i: usize = 0;
    while i < syms.len()
        invariant
            i <= syms@.len(),
            sa <= sb <= v@.len(),
            rest == v@.subrange(ra as int, rb as int),
            starts_with(rest, "redefinition of"@),
            !(contains(rest, "attribute 'numthreads' ignored"@) || contains(rest, "unknown pragma ignored"@)),
            v@.subrange(sa as int, sb as int) == ({
                let ps = split_on(rest, '\'');
                if ps.len() > 1 {
                    ps[1]
                } else {
                    Seq::<char>::empty()
                }
            }),
            crate::property_checks::strs_view(syms@) == preamble_symbols(),
            forall|j: int| 0 <= j < i ==> preamble_symbols()[j] != v@.subrange(sa as int, sb as int),
        decreases syms.len() - i,
    {
        if crate::strops::eq_str(v, sa, sb, syms[i]) {
            assert(preamble_symbols()[i as int] == v@.subrange(sa as int, sb as int));
            return true;
        }
        i = i + 1;
    }
    false
}

fn preamble_symbols_exec() -> (r: Vec<&'static str>)
    ensures
        crate::property_checks::strs_view(r@) == preamble_symbols(),
{
    let r = vec![
        "_RendererColor", "_Flip", "_ClipRect", "UNITY_MATRIX_MVP", "UNITY_MATRIX_MV", "UNITY_MATRIX_V",
        "UNITY_MATRIX_P", "UNITY_MATRIX_VP", "unity_ObjectToWorld", "unity_WorldToObject", "unity_MatrixVP",
        "unity_MatrixV", "unity_MatrixInvV", "unity_MatrixP", "unity_MatrixInvP", "_Time", "_SinTime",
        "_CosTime", "unity_DeltaTime", "_ScreenParams", "_ScaledScreenParams", "_ProjectionParams",
        "_ZBufferParams", "unity_OrthoParams", "_WorldSpaceCameraPos", "_WorldSpaceLightPos0",
        "_LightColor0", "_MainLightPosition", "_MainLightColor", "_AdditionalLightsCount",
        "UnitySampler2D", "TransformObjectToHClip", "UnityObjectToClipPos", "UnityObjectToWorldNormal",
        "TransformObjectToWorldNormal", "TransformObjectToWorldDir", "TransformWorldToView", "ResolvedView",
        "View",
    ];
    proof {
        assert forall|i: int| 0 <= i < r@.len() implies #[trigger] crate::property_checks::strs_view(r@)[i] == preamble_symbols()[i] by {
            assert(crate::property_checks::strs_view(r@)[i] == r@[i]@);
        }
        assert(crate::property_checks::strs_view(r@) =~= preamble_symbols());
    }
    r
}

} // verus!

verus! {

/// `location_parts(v[a..b])` as absolute bounds: file, line and column.
fn location_parts_exec(v: &[char], a: usize, b: usize) -> (r: ((usize, usize), (usize, usize), (usize, usize)))
    requires
        a <= b <= v@.len(),
    ensures
        ({
            let p = location_parts(v@.subrange(a as int, b as int));
            &&& a <= r.0.0 <= r.0.1 <= b && v@.subrange(r.0.0 as int, r.0.1 as int) == p.0
            &&& a <= r.1.0 <= r.1.1 <= b && v@.subrange(r.1.0 as int, r.1.1 as int) == p.1
            &&& a <= r.2.0 <= r.2.1 <= b && v@.subrange(r.2.0 as int, r.2.1 as int) == p.2
        }),
{
    let ghost prefix = v@.subrange(a as int, b as int);
    proof {
        assert(v@.subrange(a as int, a as int) =~= Seq::<char>::empty());
    }
    match rfind_char(v, a, b, ':') {
        None => ((a, a), (a, a), (a, b)),
        Some(k1) => {
            proof {
                assert(prefix.subrange(0, k1 as int) =~= v@.subrange(a as int, a + k1));
                assert(prefix.subrange(k1 + 1, prefix.len() as int) =~= v@.subrange(a + k1 + 1, b as int));
            }
            match rfind_char(v, a, a + k1, ':') {
                None => ((a, a), (a, a + k1), (a + k1 + 1, b)),
                Some(k2) => {
                    proof {
                        let p2 = v@.subrange(a as int, a + k1);
                        assert(p2.subrange(0, k2 as int) =~= v@.subrange(a as int, a + k2));
                        assert(p2.subrange(k2 + 1, p2.len() as int) =~= v@.subrange(a + k2 + 1, a + k1));
                    }
                    ((a, a + k2), (a + k2 + 1, a + k1), (a + k1 + 1, b))
                },
            }
        },
    }
}

/// `include_line_of(lines(c), name, 0)` over the lines `ranges` of `c`.
fn include_line_exec(c: &[char], ranges: &Vec<(usize, usize)>, name: &str) -> (r: Option<usize>)
    requires
        ranges_within(ranges@, 0, c@.len() as int),
        ranges_hold(c@, ranges@, lines(c@)),
    ensures
        crate::strops::oi(r) == include_line_of(lines(c@), name@, 0),
{
    let ghost ls = lines(c@);
    let pat = to_chars(name);
    let mut k: usize = 0;
    while k < ranges.len()
        invariant
            k <= ranges@.len(),
            ls == lines(c@),
            pat@ == name@,
            ranges_within(ranges@, 0, c@.len() as int),
            ranges_hold(c@, ranges@, ls),
            include_line_of(ls, name@, 0) == include_line_of(ls, name@, k as int),
        decreases ranges.len() - k,
    {
        let (la, lb) = ranges[k];
        assert(ls[k as int] == c@.subrange(la as int, lb as int));
        if contains_str(c, la, lb, "#include") && pat.len() > 0 && crate::strops::find_chars(c, la, lb, pat.as_slice()).is_some() {
            return Some(k);
        }
        k = k + 1;
    }
    None
}

/// The diagnostic of the output line `v[a..b]`.
fn dxc_line_exec(
    v: &[char],
    a: usize,
    b: usize,
    c: &[char],
    cranges: &Vec<(usize, usize)>,
    m: DxcMapping,
) -> (r: Option<Diagnostic>)
    requires
        a <= b <= v@.len(),
        blen(v@) <= usize::MAX,
        ranges_within(cranges@, 0, c@.len() as int),
        ranges_hold(c@, cranges@, lines(c@)),
        m.stubs_line_count + match m.shared_include {
            Some(x) => x.0 as int,
            None => 0,
        } <= usize::MAX,
        match dxc_kind(v@.subrange(a as int, b as int)) {
            Some((sev, rest, ti, _tl)) => {
                let (file, ls, cs) = location_parts(v@.subrange(a as int, b as int).subrange(0, ti));
                match (parse_usize(ls), parse_usize(cs)) {
                    (Some(pl), Some(pc)) => mapped_line(file, pl as int, c@, m) <= usize::MAX && pc + message_span(rest)
                        <= usize::MAX,
                    _ => true,
                }
            },
            None => true,
        },
    ensures
        match dxc_line_diag(v@.subrange(a as int, b as int), c@, m) {
            Some(d) => r matches Some(x) && x@ == d,
            None => r is None,
        },
{
    let ghost line = v@.subrange(a as int, b as int);
    let (sev, ra, rb, ti) = match dxc_kind_exec(v, a, b) {
        Some(k) => k,
        None => {
            return None;
        },
    };
    if ignored_message_exec(v, ra, rb) {
        return None;
    }
    proof {
        assert(line.subrange(0, ti as int) =~= v@.subrange(a as int, a + ti));
    }
    let ((fa, fb), (la, lb), (ca, cb)) = location_parts_exec(v, a, a + ti);
    let pl = match parse_usize_range(v, la, lb) {
        Some(n) => n,
        None => {
            return None;
        },
    };
    let pc = match parse_usize_range(v, ca, cb) {
        Some(n) => n,
        None => {
            return None;
        },
    };
    if pl <= m.stubs_line_count {
        return None;
    }
    let (sc, ss): (usize, usize) = match m.shared_include {
        Some(x) => x,
        None => (0, 0),
    };
    let total = m.stubs_line_count + sc;
    let line_no: usize = if contains_str(v, fa, fb, "hlsl_val_") {
        if sc > 0 && pl <= total {
            (if pl - 1 >= m.stubs_line_count { pl - 1 - m.stubs_line_count } else { 0 }) + ss
        } else {
            (if pl - 1 >= total { pl - 1 - total } else { 0 }) + m.line_offset
        }
    } else {
        let file = range_string(v, fa, fb);
        let name = match file_name_of(file.as_str()) {
            Some(n) => n,
            None => String::new(),
        };
        match include_line_exec(c, cranges, name.as_str()) {
            Some(i) => i,
            None => m.line_offset,
        }
    };
    let col = if pc >= 1 {
        pc - 1
    } else {
        0
    };
    let span: usize = if starts_with_char(v, ra, rb, '\'') {
        proof {
            assert(seq!['\''] =~= ['\'']@);
            assert(v@.subrange(ra as int, rb as int).subrange(1, (rb - ra) as int) =~= v@.subrange(ra + 1, rb as int));
        }
        let e = crate::splits::before_any_range(v, ra + 1, rb, &['\'']);
        proof {
            lemma_blen_subrange(v@, (ra + 1) as int, e as int);
        }
        let n = crate::diagnostics::range_blen(v, ra + 1, e);
        assert(n + 2 == message_span(v@.subrange(ra as int, rb as int)));
        n + 2
    } else {
        5
    };
    Some(line_diag(line_no, col, col + span, sev, range_string(v, ra, rb), "dxc"))
}

/// The diagnostics of DXC's output (its error stream, then its output
/// stream), mapped back to the document `content` compiled at `mapping`.
pub fn dxc_output_diagnostics(stderr: &str, stdout: &str, content: &str, mapping: DxcMapping) -> (r: Vec<Diagnostic>)
    requires
        dxc_output_fits(lines(stderr@) + lines(stdout@), content@, mapping),
    ensures
        diags_view(r@) == dxc_diags_from(lines(stderr@) + lines(stdout@), content@, mapping, 0),
{
    let ghost out_lines = lines(stderr@) + lines(stdout@);
    let (c, cranges) = lines_of(content);
    let mut r: Vec<Diagnostic> = Vec::new();
    let (ev, eranges) = lines_of(stderr);
    let (ov, oranges) = lines_of(stdout);
    let ghost ne = eranges@.len();
    let mut k: usize = 0;
    proof {
        assert(diags_view(r@) + dxc_diags_from(out_lines, content@, mapping, 0) =~= dxc_diags_from(out_lines, content@, mapping, 0));
    }
    while k < eranges.len()
        invariant
            k <= eranges@.len(),
            ne == eranges@.len(),
            out_lines == lines(stderr@) + lines(stdout@),
            out_lines.len() == eranges@.len() + oranges@.len(),
            ev@ == stderr@,
            ov@ == stdout@,
            c@ == content@,
            blen(ev@) <= usize::MAX,
            ranges_within(eranges@, 0, ev@.len() as int),
            ranges_hold(ev@, eranges@, lines(ev@)),
            ranges_within(cranges@, 0, c@.len() as int),
            ranges_hold(c@, cranges@, lines(c@)),
            dxc_output_fits(out_lines, content@, mapping),
            diags_view(r@) + dxc_diags_from(out_lines, content@, mapping, k as int) == dxc_diags_from(
                out_lines,
                content@,
                mapping,
                0,
            ),
        decreases eranges.len() - k,
    {
        let ghost r0 = diags_view(r@);
        let (a, b) = eranges[k];
        assert(out_lines[k as int] == ev@.subrange(a as int, b as int));
        match dxc_line_exec(ev.as_slice(), a, b, c.as_slice(), &cranges, mapping) {
            Some(x) => {
                r.push(x);
                assert(diags_view(r@) =~= r0.push(x@));
            },
            None => {},
        }
        proof {
            assert(diags_view(r@) + dxc_diags_from(out_lines, content@, mapping, k + 1) =~= r0 + dxc_diags_from(
                out_lines,
                content@,
                mapping,
                k as int,
            ));
        }
        k = k + 1;
    }
    let mut j: usize = 0;
    while j < oranges.len()
        invariant
            j <= oranges@.len(),
            ne == eranges@.len(),
            out_lines == lines(stderr@) + lines(stdout@),
            out_lines.len() == eranges@.len() + oranges@.len(),
            ov@ == stdout@,
            c@ == content@,
            blen(ov@) <= usize::MAX,
            ranges_within(oranges@, 0, ov@.len() as int),
            ranges_hold(ov@, oranges@, lines(ov@)),
            ranges_within(cranges@, 0, c@.len() as int),
            ranges_hold(c@, cranges@, lines(c@)),
            dxc_output_fits(out_lines, content@, mapping),
            diags_view(r@) + dxc_diags_from(out_lines, content@, mapping, ne + j) == dxc_diags_from(
                out_lines,
                content@,
                mapping,
                0,
            ),
        decreases oranges.len() - j,
    {
        let ghost r0 = diags_view(r@);
        let (a, b) = oranges[j];
        assert(out_lines[ne + j] == ov@.subrange(a as int, b as int));
        match dxc_line_exec(ov.as_slice(), a, b, c.as_slice(), &cranges, mapping) {
            Some(x) => {
                r.push(x);
                assert(diags_view(r@) =~= r0.push(x@));
            },
            None => {},
        }
        proof {
            assert(diags_view(r@) + dxc_diags_from(out_lines, content@, mapping, ne + j + 1) =~= r0 + dxc_diags_from(
                out_lines,
                content@,
                mapping,
                ne + j,
            ));
        }
        j = j + 1;
    }
    proof {
        assert(diags_view(r@) + Seq::<DiagModel>::empty() =~= diags_view(r@));
    }
    r
}

} // verus!
