//! Checks of ShaderLab `Tags { "Key" = "Value" ... }` blocks.
use vstd::prelude::*;
use crate::diagnostics::{diags_view, find_col, find_col_exec, line_diag, on_line, piece_span, range_blen, DiagModel, Diagnostic};
use crate::render_states::{eq_ignore_case};
use crate::splits::{lines, lines_of, ranges_hold, ranges_within, split_on, split_ranges, trim_set};
use crate::strops::{
    contains, count_char, count_char_in, contains_char, contains_str, eq_str, find, find_char, find_from, rfind, rfind_char,
    starts_with, starts_with_char, starts_with_str, trim, trim_range,
};
use crate::text::{blen, is_ws, lemma_blen_subrange, push_range, push_str, range_string, unicode_lowercase};

verus! {

/// The known tag keys with their values (quoted as they are written).
pub open spec fn tag_table() -> Seq<(Seq<char>, Seq<Seq<char>>)> {
    seq![
        ("RenderType"@, seq!["\"Opaque\""@, "\"Transparent\""@, "\"TransparentCutout\""@, "\"Background\""@, "\"Overlay\""@, "\"TreeOpaque\""@, "\"TreeTransparentCutout\""@, "\"TreeSoftSurround\""@, "\"Water\""@, "\"Grass\""@]),
        ("RenderPipeline"@, seq!["\"UniversalPipeline\""@, "\"HighDefinitionPipeline\""@]),
        ("Queue"@, seq!["\"Geometry\""@, "\"Geometry+1\""@, "\"AlphaTest\""@, "\"Transparent\""@, "\"Transparent+1\""@, "\"Overlay\""@, "\"Background\""@]),
        ("LightMode"@, seq!["\"UniversalForward\""@, "\"UniversalForwardOnly\""@, "\"UniversalGBuffer\""@, "\"Universal2D\""@, "\"NormalsRendering\""@, "\"ShadowCaster\""@, "\"DepthOnly\""@, "\"DepthNormals\""@, "\"Meta\""@, "\"SRPDefaultUnlit\""@, "\"ForwardBase\""@, "\"ForwardAdd\""@, "\"Deferred\""@, "\"Vertex\""@, "\"VertexLM\""@, "\"MotionVectors\""@, "\"Always\""@]),
        ("IgnoreProjector"@, seq!["\"True\""@, "\"False\""@]),
        ("PreviewType"@, seq!["\"Plane\""@, "\"Skybox\""@]),
        ("CanUseSpriteAtlas"@, seq!["\"True\""@, "\"False\""@]),
        ("DisableBatching"@, seq!["\"True\""@, "\"False\""@, "\"LODFading\""@]),
        ("ForceNoShadowCasting"@, seq!["\"True\""@, "\"False\""@]),
        ("UniversalMaterialType"@, seq!["\"Lit\""@, "\"Unlit\""@]),
        ("PassFlags"@, seq!["\"OnlyDirectional\""@]),
        ("RequireOptions"@, seq!["\"SoftVegetation\""@]),
        ("SortingOrder"@, seq!["\"FrontToBack\""@, "\"BackToFront\""@]),
        ("PerformanceChecks"@, seq!["\"False\""@]),
        ("ShaderModel"@, seq!["\"2.0\""@, "\"3.0\""@, "\"4.5\""@, "\"5.0\""@]),
    ]
}

/// The views of the exec tag table.
pub open spec fn table_view(t: Seq<(&str, Vec<&str>)>) -> Seq<(Seq<char>, Seq<Seq<char>>)> {
    t.map_values(|e: (&str, Vec<&str>)| (e.0@, e.1@.map_values(|s: &str| s@)))
}

/// The known tag keys with their values.
pub fn tag_keys_and_values() -> (r: Vec<(&'static str, Vec<&'static str>)>)
    ensures
        table_view(r@) == tag_table(),
{
    let r = vec![
        ("RenderType", vec!["\"Opaque\"", "\"Transparent\"", "\"TransparentCutout\"", "\"Background\"", "\"Overlay\"", "\"TreeOpaque\"", "\"TreeTransparentCutout\"", "\"TreeSoftSurround\"", "\"Water\"", "\"Grass\""]),
        ("RenderPipeline", vec!["\"UniversalPipeline\"", "\"HighDefinitionPipeline\""]),
        ("Queue", vec!["\"Geometry\"", "\"Geometry+1\"", "\"AlphaTest\"", "\"Transparent\"", "\"Transparent+1\"", "\"Overlay\"", "\"Background\""]),
        ("LightMode", vec!["\"UniversalForward\"", "\"UniversalForwardOnly\"", "\"UniversalGBuffer\"", "\"Universal2D\"", "\"NormalsRendering\"", "\"ShadowCaster\"", "\"DepthOnly\"", "\"DepthNormals\"", "\"Meta\"", "\"SRPDefaultUnlit\"", "\"ForwardBase\"", "\"ForwardAdd\"", "\"Deferred\"", "\"Vertex\"", "\"VertexLM\"", "\"MotionVectors\"", "\"Always\""]),
        ("IgnoreProjector", vec!["\"True\"", "\"False\""]),
        ("PreviewType", vec!["\"Plane\"", "\"Skybox\""]),
        ("CanUseSpriteAtlas", vec!["\"True\"", "\"False\""]),
        ("DisableBatching", vec!["\"True\"", "\"False\"", "\"LODFading\""]),
        ("ForceNoShadowCasting", vec!["\"True\"", "\"False\""]),
        ("UniversalMaterialType", vec!["\"Lit\"", "\"Unlit\""]),
        ("PassFlags", vec!["\"OnlyDirectional\""]),
        ("RequireOptions", vec!["\"SoftVegetation\""]),
        ("SortingOrder", vec!["\"FrontToBack\"", "\"BackToFront\""]),
        ("PerformanceChecks", vec!["\"False\""]),
        ("ShaderModel", vec!["\"2.0\"", "\"3.0\"", "\"4.5\"", "\"5.0\""]),
    ];
    proof {
        assert(r@[0].1@.map_values(|s: &str| s@) =~= tag_table()[0].1);
        assert(r@[1].1@.map_values(|s: &str| s@) =~= tag_table()[1].1);
        assert(r@[2].1@.map_values(|s: &str| s@) =~= tag_table()[2].1);
        assert(r@[3].1@.map_values(|s: &str| s@) =~= tag_table()[3].1);
        assert(r@[4].1@.map_values(|s: &str| s@) =~= tag_table()[4].1);
        assert(r@[5].1@.map_values(|s: &str| s@) =~= tag_table()[5].1);
        assert(r@[6].1@.map_values(|s: &str| s@) =~= tag_table()[6].1);
        assert(r@[7].1@.map_values(|s: &str| s@) =~= tag_table()[7].1);
        assert(r@[8].1@.map_values(|s: &str| s@) =~= tag_table()[8].1);
        assert(r@[9].1@.map_values(|s: &str| s@) =~= tag_table()[9].1);
        assert(r@[10].1@.map_values(|s: &str| s@) =~= tag_table()[10].1);
        assert(r@[11].1@.map_values(|s: &str| s@) =~= tag_table()[11].1);
        assert(r@[12].1@.map_values(|s: &str| s@) =~= tag_table()[12].1);
        assert(r@[13].1@.map_values(|s: &str| s@) =~= tag_table()[13].1);
        assert(r@[14].1@.map_values(|s: &str| s@) =~= tag_table()[14].1);
        assert(table_view(r@) =~= tag_table());
    }
    r
}

} // verus!

verus! {

/// Characters trimmed around a tag key: quotes, braces and whitespace.
pub open spec fn is_key_junk(c: char) -> bool {
    c == '"' || c == '{' || c == '}' || is_ws(c)
}

pub open spec fn lead_junk(s: Seq<char>) -> nat
    decreases s.len(),
{
    if s.len() > 0 && is_key_junk(s[0]) {
        1 + lead_junk(s.drop_first())
    } else {
        0
    }
}

pub open spec fn trail_junk(s: Seq<char>) -> nat
    decreases s.len(),
{
    if s.len() > 0 && is_key_junk(s.last()) {
        1 + trail_junk(s.drop_last())
    } else {
        0
    }
}

/// `s` with quotes, braces and whitespace trimmed from both ends.
pub open spec fn trim_junk(s: Seq<char>) -> Seq<char> {
    let t = s.subrange(lead_junk(s) as int, s.len() as int);
    t.subrange(0, t.len() - trail_junk(t))
}

/// The key written before a `=`: the text between its last two quotes
/// (`rsplit('"').nth(1)`), or all of it.
pub open spec fn tag_key(before: Seq<char>) -> Seq<char> {
    let ps = split_on(before, '"');
    if ps.len() >= 2 {
        ps[ps.len() - 2]
    } else {
        before
    }
}

/// Index of the first known key from `k` on equal to `ck` ignoring ASCII case.
pub open spec fn key_index(ck: Seq<char>, k: int) -> Option<int>
    decreases tag_table().len() - k,
{
    if 0 <= k < tag_table().len() {
        if eq_ignore_case(tag_table()[k].0, ck) {
            Some(k)
        } else {
            key_index(ck, k + 1)
        }
    } else {
        None
    }
}

/// The first known key from `k` on whose lowercase form starts with that of
/// `ck`, or is a start of it.
pub open spec fn similar_key(ck: Seq<char>, k: int) -> Option<Seq<char>>
    decreases tag_table().len() - k,
{
    if 0 <= k < tag_table().len() {
        let kl = unicode_lowercase(tag_table()[k].0);
        let cl = unicode_lowercase(ck);
        if starts_with(kl, cl) || starts_with(cl, kl) {
            Some(tag_table()[k].0)
        } else {
            similar_key(ck, k + 1)
        }
    } else {
        None
    }
}

/// A listed value without its quotes.
pub open spec fn unquote(v: Seq<char>) -> Seq<char> {
    trim_set(v, seq!['"'])
}

/// The first value from `k` on equal to `tv` ignoring ASCII case.
pub open spec fn case_value(vals: Seq<Seq<char>>, tv: Seq<char>, k: int) -> Option<Seq<char>>
    decreases vals.len() - k,
{
    if 0 <= k < vals.len() {
        if eq_ignore_case(unquote(vals[k]), tv) {
            Some(vals[k])
        } else {
            case_value(vals, tv, k + 1)
        }
    } else {
        None
    }
}

/// `a` is a subsequence of `b`: `b` with some characters left out.
pub open spec fn subseq(a: Seq<char>, b: Seq<char>) -> bool
    decreases b.len(),
{
    if a.len() == 0 {
        true
    } else if b.len() == 0 {
        false
    } else if a[0] == b[0] {
        subseq(a.drop_first(), b.drop_first())
    } else {
        subseq(a, b.drop_first())
    }
}

/// The first value from `k` on whose lowercase form (unquoted) and that of
/// `tv` are one a subsequence of the other (a start of a word, or the word
/// with a letter missing, is one).
pub open spec fn similar_value(vals: Seq<Seq<char>>, tv: Seq<char>, k: int) -> Option<Seq<char>>
    decreases vals.len() - k,
{
    if 0 <= k < vals.len() {
        let vl = unicode_lowercase(unquote(vals[k]));
        let tl = unicode_lowercase(tv);
        if subseq(tl, vl) || subseq(vl, tl) {
            Some(vals[k])
        } else {
            similar_value(vals, tv, k + 1)
        }
    } else {
        None
    }
}

/// A warning on the tag value `tv` of the raw line.
pub open spec fn value_warning(raw: Seq<char>, idx: int, tv: Seq<char>, message: Seq<char>) -> DiagModel {
    let c = find_col(raw, tv, 0);
    on_line(idx, c, c + blen(tv), 2, message, "shaderlab"@)
}

/// The diagnostics of one `"key" = "value"` entry, the key cleaned to `ck`.
pub open spec fn tag_entry_diags(ck: Seq<char>, tv: Seq<char>, raw: Seq<char>, idx: int) -> Seq<DiagModel> {
    if ck.len() == 0 {
        let c = find_col(raw, seq!['='], 0);
        seq![
            on_line(
                idx,
                if c >= 2 {
                    c - 2
                } else {
                    0
                },
                c,
                1,
                "Tag key cannot be empty in Tags block"@,
                "shaderlab"@,
            ),
        ]
    } else {
        match key_index(ck, 0) {
            None => {
                let kc = find_col(raw, ck, 0);
                seq![
                    on_line(
                        idx,
                        kc,
                        kc + blen(ck),
                        2,
                        "Unknown Tag key '"@ + ck + "'."@ + match similar_key(ck, 0) {
                            Some(k) => " Did you mean '"@ + k + "'?"@,
                            None => Seq::empty(),
                        },
                        "shaderlab"@,
                    ),
                ]
            },
            Some(i) => {
                let vals = tag_table()[i].1;
                if exists|j: int| 0 <= j < vals.len() && unquote(#[trigger] vals[j]) == tv {
                    seq![]
                } else {
                    match case_value(vals, tv, 0) {
                        Some(s) => seq![
                            value_warning(
                                raw,
                                idx,
                                tv,
                                "Unknown "@ + ck + " '"@ + tv + "'. Did you mean '"@ + unquote(s)
                                    + "'? (Tag values are case-sensitive)"@,
                            ),
                        ],
                        None => if (ck == "IgnoreProjector"@ || ck == "CanUseSpriteAtlas"@ || ck
                            == "ForceNoShadowCasting"@) && (tv == "true"@ || tv == "false"@) {
                            seq![
                                value_warning(
                                    raw,
                                    idx,
                                    tv,
                                    "Tag '"@ + ck + "' requires capitalized '"@ + (if tv == "true"@ {
                                        "True"@
                                    } else {
                                        "False"@
                                    }) + "' in ShaderLab."@,
                                ),
                            ]
                        } else {
                            seq![
                                value_warning(
                                    raw,
                                    idx,
                                    tv,
                                    match similar_value(vals, tv, 0) {
                                        Some(s) => "Unknown "@ + ck + " '"@ + tv + "'. Did you mean '"@ + unquote(s) + "'?"@,
                                        None => "Unknown "@ + ck + " value '"@ + tv + "'."@,
                                    },
                                ),
                            ]
                        },
                    }
                }
            },
        }
    }
}

/// Byte column of the last `c` of `raw`, or 0.
pub open spec fn rfind_col(raw: Seq<char>, c: char) -> int {
    match rfind(raw, seq![c]) {
        Some(k) => blen(raw.take(k)) as int,
        None => 0,
    }
}

/// The entries `key = "value"` of `a`, one after the other.
pub open spec fn tag_entries(a: Seq<char>, raw: Seq<char>, idx: int) -> Seq<DiagModel>
    decreases a.len(),
{
    match find(a, seq!['=']) {
        None => seq![],
        Some(e) => if 0 <= e < a.len() {
            let before = trim(a.subrange(0, e));
            let rest = trim(a.subrange(e + 1, a.len() as int));
            let eqc = find_col(raw, seq!['='], 0);
            let d1 = if contains(before, seq!['=']) {
                seq![
                    on_line(
                        idx,
                        eqc,
                        eqc + 1,
                        1,
                        "Malformed tag entry: unexpected '=' in tag declaration"@,
                        "shaderlab"@,
                    ),
                ]
            } else {
                Seq::<DiagModel>::empty()
            };
            if rest.len() == 0 || starts_with(rest, seq!['}']) {
                let c = rfind_col(raw, '=');
                d1.push(on_line(idx, c, c + 1, 1, "Missing tag value after '=' in Tags block"@, "shaderlab"@))
            } else if starts_with(rest, seq!['"']) {
                let stripped = rest.subrange(1, rest.len() as int);
                match find(stripped, seq!['"']) {
                    None => d1,
                    Some(ve) => {
                        let d2 = d1 + tag_entry_diags(
                            trim_junk(tag_key(before)),
                            stripped.subrange(0, ve),
                            raw,
                            idx,
                        );
                        if ve + 2 < rest.len() {
                            proof {
                                crate::strops::lemma_trim_len(a.subrange(e + 1, a.len() as int));
                                crate::cursor::lemma_find_from_ge(stripped, seq!['"'], 0);
                            }
                            d2 + tag_entries(rest.subrange(ve + 2, rest.len() as int), raw, idx)
                        } else {
                            d2
                        }
                    },
                }
            } else {
                d1
            }
        } else {
            seq![]
        },
    }
}

/// An error at each `""` of `raw` from index `j` on, left to right.
pub open spec fn empty_quotes(raw: Seq<char>, j: int, idx: int) -> Seq<DiagModel>
    decreases raw.len() - j,
{
    match find_from(raw, "\"\""@, j) {
        Some(k) => if j <= k && k + 2 <= raw.len() {
            let c = blen(raw.take(k)) as int;
            seq![
                on_line(
                    idx,
                    c,
                    c + 2,
                    1,
                    "Syntax error: empty or consecutive quotes '\"\"' in Tags block"@,
                    "shaderlab"@,
                ),
            ] + empty_quotes(raw, k + 2, idx)
        } else {
            seq![]
        },
        None => seq![],
    }
}

/// The part of a raw line that holds tag entries: after the `{` of `Tags {`
/// and before the last `}`.
pub open spec fn tag_line_content(raw: Seq<char>) -> Seq<char> {
    let lc = match find(raw, seq!['{']) {
        Some(b) => if contains(raw.subrange(0, b), "Tags"@) {
            raw.subrange(b + 1, raw.len() as int)
        } else {
            raw
        },
        None => raw,
    };
    match rfind(lc, seq!['}']) {
        Some(c) => lc.subrange(0, c),
        None => lc,
    }
}

/// One line of the tag checker; the state tells whether a `Tags` block is
/// open.
pub open spec fn tag_check_step(st: (bool, Seq<DiagModel>), raw: Seq<char>, idx: int) -> (bool, Seq<DiagModel>) {
    let t = trim(raw);
    if starts_with(t, "//"@) {
        st
    } else if !(st.0 || (contains(t, "Tags"@) && contains(t, seq!['{']))) {
        st
    } else {
        let q = empty_quotes(raw, 0, idx);
        let u = if count_char(t, '"') % 2 != 0 {
            seq![
                on_line(
                    idx,
                    rfind_col(raw, '"'),
                    blen(raw) as int,
                    1,
                    "Unclosed quote string in Tags block"@,
                    "shaderlab"@,
                ),
            ]
        } else {
            Seq::<DiagModel>::empty()
        };
        let lc = tag_line_content(raw);
        let e = if contains(lc, seq!['=']) {
            tag_entries(lc, raw, idx)
        } else {
            Seq::<DiagModel>::empty()
        };
        (!contains(t, seq!['}']), st.1 + q + u + e)
    }
}

pub open spec fn tag_check_scan(ls: Seq<Seq<char>>, n: int) -> (bool, Seq<DiagModel>)
    decreases n,
{
    if n <= 0 {
        (false, seq![])
    } else {
        tag_check_step(tag_check_scan(ls, n - 1), ls[n - 1], n - 1)
    }
}

/// The diagnostics of the `Tags` blocks of a ShaderLab text.
pub open spec fn tag_diags(content: Seq<char>) -> Seq<DiagModel> {
    tag_check_scan(lines(content), lines(content).len() as int).1
}

} // verus!

verus! {

/// `key_index(v[ka..kb], 0)`.
pub(crate) fn key_index_exec(v: &[char], ka: usize, kb: usize, table: &Vec<(&'static str, Vec<&'static str>)>) -> (r: Option<usize>)
    requires
        ka <= kb <= v@.len(),
        table_view(table@) == tag_table(),
    ensures
        crate::strops::oi(r) == key_index(v@.subrange(ka as int, kb as int), 0),
        r matches Some(i) ==> i < tag_table().len(),
{
    let ghost ck = v@.subrange(ka as int, kb as int);
    let mut k: usize = 0;
    while k < table.len()
        invariant
            k <= table@.len(),
            table_view(table@) == tag_table(),
            ck == v@.subrange(ka as int, kb as int),
            ka <= kb <= v@.len(),
            key_index(ck, 0) == key_index(ck, k as int),
        decreases table.len() - k,
    {
        let key = table[k].0;
        let kc = crate::text::to_chars(key);
        proof {
            assert(tag_table()[k as int].0 == table@[k as int].0@);
            assert(kc@.subrange(0, kc@.len() as int) =~= kc@);
            crate::render_states::lemma_eq_ignore_case_sym(tag_table()[k as int].0, ck);
        }
        if crate::render_states::eq_ignore_case_ranges(v, ka, kb, kc.as_slice(), 0, kc.len()) {
            return Some(k);
        }
        k = k + 1;
    }
    None
}

/// `similar_key(ck, 0)`.
fn similar_key_exec(ck: &str, table: &Vec<(&'static str, Vec<&'static str>)>) -> (r: Option<&'static str>)
    requires
        table_view(table@) == tag_table(),
    ensures
        match similar_key(ck@, 0) {
            Some(k) => r matches Some(x) && x@ == k,
            None => r is None,
        },
{
    let cl = crate::text::str_to_lowercase(ck);
    let clv = crate::text::to_chars(cl.as_str());
    let mut k: usize = 0;
    while k < table.len()
        invariant
            k <= table@.len(),
            table_view(table@) == tag_table(),
            clv@ == unicode_lowercase(ck@),
            cl@ == unicode_lowercase(ck@),
            similar_key(ck@, 0) == similar_key(ck@, k as int),
        decreases table.len() - k,
    {
        let key = table[k].0;
        proof {
            assert(tag_table()[k as int].0 == table@[k as int].0@);
        }
        let kl = crate::text::str_to_lowercase(key);
        let klv = crate::text::to_chars(kl.as_str());
        proof {
            assert(klv@.subrange(0, klv@.len() as int) =~= klv@);
            assert(clv@.subrange(0, clv@.len() as int) =~= clv@);
        }
        if starts_with_str(klv.as_slice(), 0, klv.len(), cl.as_str()) || starts_with_str(
            clv.as_slice(),
            0,
            clv.len(),
            kl.as_str(),
        ) {
            return Some(key);
        }
        k = k + 1;
    }
    None
}

/// Whether `a` is a subsequence of `b`.
fn subseq_exec(a: &[char], b: &[char]) -> (r: bool)
    ensures
        r == subseq(a@, b@),
{
    let mut i: usize = 0;
    let mut j: usize = 0;
    proof {
        assert(a@.subrange(0, a@.len() as int) =~= a@);
        assert(b@.subrange(0, b@.len() as int) =~= b@);
    }
    while i < a.len() && j < b.len()
        invariant
            i <= a@.len(),
            j <= b@.len(),
            subseq(a@, b@) == subseq(a@.subrange(i as int, a@.len() as int), b@.subrange(j as int, b@.len() as int)),
        decreases b.len() - j,
    {
        let ghost x = a@.subrange(i as int, a@.len() as int);
        let ghost y = b@.subrange(j as int, b@.len() as int);
        proof {
            assert(x.drop_first() =~= a@.subrange(i + 1, a@.len() as int));
            assert(y.drop_first() =~= b@.subrange(j + 1, b@.len() as int));
            assert(x[0] == a@[i as int]);
            assert(y[0] == b@[j as int]);
        }
        if a[i] == b[j] {
            i = i + 1;
        }
        j = j + 1;
    }
    proof {
        if i == a@.len() {
            assert(a@.subrange(i as int, a@.len() as int).len() == 0);
        } else {
            assert(b@.subrange(j as int, b@.len() as int).len() == 0);
        }
    }
    i == a.len()
}

/// `similar_value(vals, tv, 0)`.
fn similar_value_exec(vals: &Vec<&'static str>, tv: &str) -> (r: Option<&'static str>)
    ensures
        match similar_value(vals@.map_values(|s: &str| s@), tv@, 0) {
            Some(k) => r matches Some(x) && x@ == k,
            None => r is None,
        },
{
    let ghost vs = vals@.map_values(|s: &str| s@);
    let tl = crate::text::str_to_lowercase(tv);
    let tlv = crate::text::to_chars(tl.as_str());
    proof {
        assert(tlv@.subrange(0, tlv@.len() as int) =~= tlv@);
    }
    let mut k: usize = 0;
    while k < vals.len()
        invariant
            k <= vals@.len(),
            vs == vals@.map_values(|s: &str| s@),
            tl@ == unicode_lowercase(tv@),
            tlv@ == tl@,
            tlv@.subrange(0, tlv@.len() as int) == tlv@,
            similar_value(vs, tv@, 0) == similar_value(vs, tv@, k as int),
        decreases vals.len() - k,
    {
        assert(vs[k as int] == vals@[k as int]@);
        let c = crate::text::to_chars(vals[k]);
        let (qa, qb) = unquote_range(c.as_slice());
        let uq = range_string(c.as_slice(), qa, qb);
        let vl = crate::text::str_to_lowercase(uq.as_str());
        let vlv = crate::text::to_chars(vl.as_str());
        proof {
            assert(vlv@.subrange(0, vlv@.len() as int) =~= vlv@);
        }
        if subseq_exec(tlv.as_slice(), vlv.as_slice()) || subseq_exec(vlv.as_slice(), tlv.as_slice()) {
            return Some(vals[k]);
        }
        k = k + 1;
    }
    None
}

/// Bounds of `unquote(s)` in the characters `s`.
pub(crate) fn unquote_range(s: &[char]) -> (r: (usize, usize))
    ensures
        r.0 <= r.1 <= s@.len(),
        s@.subrange(r.0 as int, r.1 as int) == unquote(s@),
{
    proof {
        assert(seq!['"'] =~= ['"']@);
        assert(s@.subrange(0, s@.len() as int) =~= s@);
    }
    crate::splits::trim_set_range(s, 0, s.len(), &['"'])
}

/// Whether some value of `vals` unquoted is `v[va..vb]`, and the first
/// one equal to it ignoring ASCII case.
fn match_value(v: &[char], va: usize, vb: usize, vals: &Vec<&'static str>) -> (r: (bool, Option<&'static str>))
    requires
        va <= vb <= v@.len(),
    ensures
        r.0 == exists|j: int| 0 <= j < vals@.len() && unquote(#[trigger] vals@[j]@) == v@.subrange(va as int, vb as int),
        match case_value(vals@.map_values(|s: &str| s@), v@.subrange(va as int, vb as int), 0) {
            Some(s) => r.1 matches Some(x) && x@ == s,
            None => r.1 is None,
        },
{
    let ghost tv = v@.subrange(va as int, vb as int);
    let ghost vs = vals@.map_values(|s: &str| s@);
    let mut exact = false;
    let mut like: Option<&'static str> = None;
    let mut j: usize = vals.len();
    proof {
        assert(vs.len() == vals@.len());
    }
    while j > 0
        invariant
            j <= vals@.len(),
            va <= vb <= v@.len(),
            tv == v@.subrange(va as int, vb as int),
            vs == vals@.map_values(|s: &str| s@),
            exact == exists|i: int| j <= i < vals@.len() && unquote(#[trigger] vals@[i]@) == tv,
            match case_value(vs, tv, j as int) {
                Some(s) => like matches Some(x) && x@ == s,
                None => like is None,
            },
        decreases j,
    {
        j = j - 1;
        let c = crate::text::to_chars(vals[j]);
        let (qa, qb) = unquote_range(c.as_slice());
        proof {
            assert(vs[j as int] == vals@[j as int]@);
        }
        if crate::strops::eq_ranges(c.as_slice(), qa, qb, v, va, vb) {
            exact = true;
        } else {
            assert(forall|i: int| j + 1 <= i < vals@.len() ==> (unquote(#[trigger] vals@[i]@) == tv) == (j <= i && unquote(vals@[i]@) == tv));
        }
        if crate::render_states::eq_ignore_case_ranges(c.as_slice(), qa, qb, v, va, vb) {
            like = Some(vals[j]);
        }
    }
    (exact, like)
}

} // verus!

verus! {

/// Appends `tag_entry_diags` of the key `v[ka..kb]` and the value
/// `v[va..vb]`, both inside the raw line `v[la..lb]`.
fn tag_entry_exec(
    out: &mut Vec<Diagnostic>,
    v: &[char],
    la: usize,
    lb: usize,
    ka: usize,
    kb: usize,
    va: usize,
    vb: usize,
    idx: usize,
    table: &Vec<(&'static str, Vec<&'static str>)>,
)
    requires
        la <= ka <= kb <= lb,
        la <= va <= vb <= lb,
        lb <= v@.len(),
        blen(v@) <= usize::MAX,
        table_view(table@) == tag_table(),
    ensures
        diags_view(final(out)@) == diags_view(old(out)@) + tag_entry_diags(
            v@.subrange(ka as int, kb as int),
            v@.subrange(va as int, vb as int),
            v@.subrange(la as int, lb as int),
            idx as int,
        ),
{
    let ghost d0 = diags_view(out@);
    let ghost ck = v@.subrange(ka as int, kb as int);
    let ghost tv = v@.subrange(va as int, vb as int);
    let ghost raw = v@.subrange(la as int, lb as int);
    proof {
        lemma_blen_subrange(v@, la as int, lb as int);
        assert(seq!['='] =~= ['=']@);
    }
    if ka == kb {
        let c = find_col_exec(v, la, lb, &['='], 0);
        let start = if c >= 2 {
            c - 2
        } else {
            0
        };
        out.push(line_diag(idx, start, c, 1, crate::text::str_string("Tag key cannot be empty in Tags block"), "shaderlab"));
        proof {
            assert(diags_view(out@) =~= d0 + tag_entry_diags(ck, tv, raw, idx as int));
        }
        return;
    }
    match key_index_exec(v, ka, kb, table) {
        None => {
            let (kc, ke) = piece_span(v, la, lb, ka, kb, 0);
            let mut msg = crate::text::str_string("Unknown Tag key '");
            push_range(&mut msg, v, ka, kb);
            push_str(&mut msg, "'.");
            let key = range_string(v, ka, kb);
            match similar_key_exec(key.as_str(), table) {
                Some(k) => {
                    push_str(&mut msg, " Did you mean '");
                    push_str(&mut msg, k);
                    push_str(&mut msg, "'?");
                },
                None => {},
            }
            proof {
                assert(msg@ =~= "Unknown Tag key '"@ + ck + "'."@ + match similar_key(ck, 0) {
                    Some(k) => " Did you mean '"@ + k + "'?"@,
                    None => Seq::empty(),
                });
            }
            out.push(line_diag(idx, kc, ke, 2, msg, "shaderlab"));
            proof {
                assert(diags_view(out@) =~= d0 + tag_entry_diags(ck, tv, raw, idx as int));
            }
        },
        Some(i) => {
            let vals = &table[i].1;
            proof {
                assert(tag_table()[i as int].1 == vals@.map_values(|s: &str| s@));
            }
            let (exact, like) = match_value(v, va, vb, vals);
            proof {
                let vs = tag_table()[i as int].1;
                assert(exact == exists|j: int| 0 <= j < vs.len() && unquote(#[trigger] vs[j]) == tv) by {
                    if exact {
                        let j = choose|j: int| 0 <= j < vals@.len() && unquote(#[trigger] vals@[j]@) == tv;
                        assert(vs[j] == vals@[j]@);
                    }
                    if exists|j: int| 0 <= j < vs.len() && unquote(#[trigger] vs[j]) == tv {
                        let j = choose|j: int| 0 <= j < vs.len() && unquote(#[trigger] vs[j]) == tv;
                        assert(vs[j] == vals@[j]@);
                    }
                }
            }
            if exact {
                proof {
                    assert(diags_view(out@) =~= d0 + tag_entry_diags(ck, tv, raw, idx as int));
                }
                return;
            }
            let (c, e) = piece_span(v, la, lb, va, vb, 0);
            let mut msg = String::new();
            match like {
                Some(s) => {
                    push_str(&mut msg, "Unknown ");
                    push_range(&mut msg, v, ka, kb);
                    push_str(&mut msg, " '");
                    push_range(&mut msg, v, va, vb);
                    push_str(&mut msg, "'. Did you mean '");
                    let sc = crate::text::to_chars(s);
                    let (qa, qb) = unquote_range(sc.as_slice());
                    push_range(&mut msg, sc.as_slice(), qa, qb);
                    push_str(&mut msg, "'? (Tag values are case-sensitive)");
                },
                None => {
                    let special = eq_str(v, ka, kb, "IgnoreProjector") || eq_str(v, ka, kb, "CanUseSpriteAtlas")
                        || eq_str(v, ka, kb, "ForceNoShadowCasting");
                    let is_true = eq_str(v, va, vb, "true");
                    if special && (is_true || eq_str(v, va, vb, "false")) {
                        push_str(&mut msg, "Tag '");
                        push_range(&mut msg, v, ka, kb);
                        push_str(&mut msg, "' requires capitalized '");
                        if is_true {
                            push_str(&mut msg, "True");
                        } else {
                            push_str(&mut msg, "False");
                        }
                        push_str(&mut msg, "' in ShaderLab.");
                    } else {
                        push_str(&mut msg, "Unknown ");
                        push_range(&mut msg, v, ka, kb);
                        let tvs = range_string(v, va, vb);
                        match similar_value_exec(vals, tvs.as_str()) {
                            Some(sim) => {
                                push_str(&mut msg, " '");
                                push_range(&mut msg, v, va, vb);
                                push_str(&mut msg, "'. Did you mean '");
                                let sc = crate::text::to_chars(sim);
                                let (qa, qb) = unquote_range(sc.as_slice());
                                push_range(&mut msg, sc.as_slice(), qa, qb);
                                push_str(&mut msg, "'?");
                            },
                            None => {
                                push_str(&mut msg, " value '");
                                push_range(&mut msg, v, va, vb);
                                push_str(&mut msg, "'.");
                            },
                        }
                    }
                },
            }
            let ghost m = msg@;
            out.push(line_diag(idx, c, e, 2, msg, "shaderlab"));
            proof {
                let vs = tag_table()[i as int].1;
                assert(seq![value_warning(raw, idx as int, tv, m)] == tag_entry_diags(ck, tv, raw, idx as int)) by {
                    match case_value(vs, tv, 0) {
                        Some(s) => {
                            assert(m =~= "Unknown "@ + ck + " '"@ + tv + "'. Did you mean '"@ + unquote(s)
                                + "'? (Tag values are case-sensitive)"@);
                        },
                        None => {
                            if (ck == "IgnoreProjector"@ || ck == "CanUseSpriteAtlas"@ || ck == "ForceNoShadowCasting"@)
                                && (tv == "true"@ || tv == "false"@) {
                                assert(m =~= "Tag '"@ + ck + "' requires capitalized '"@ + (if tv == "true"@ {
                                    "True"@
                                } else {
                                    "False"@
                                }) + "' in ShaderLab."@);
                            } else {
                                match similar_value(vs, tv, 0) {
                                    Some(s) => {
                                        assert(m =~= "Unknown "@ + ck + " '"@ + tv + "'. Did you mean '"@ + unquote(s) + "'?"@);
                                    },
                                    None => {
                                        assert(m =~= "Unknown "@ + ck + " value '"@ + tv + "'."@);
                                    },
                                }
                            }
                        },
                    }
                }
                assert(diags_view(out@) =~= d0 + tag_entry_diags(ck, tv, raw, idx as int));
            }
        },
    }
}

} // verus!

verus! {

fn is_key_junk_exec(c: char) -> (r: bool)
    ensures
        r == is_key_junk(c),
{
    c == '"' || c == '{' || c == '}' || crate::text::char_is_whitespace(c)
}

/// Bounds (absolute) of `trim_junk(v[a..b])`.
pub(crate) fn trim_junk_range(v: &[char], a: usize, b: usize) -> (r: (usize, usize))
    requires
        a <= b <= v@.len(),
    ensures
        a <= r.0 <= r.1 <= b,
        v@.subrange(r.0 as int, r.1 as int) == trim_junk(v@.subrange(a as int, b as int)),
{
    let mut i = a;
    while i < b && is_key_junk_exec(v[i])
        invariant
            a <= i <= b <= v@.len(),
            lead_junk(v@.subrange(a as int, b as int)) == (i - a) + lead_junk(v@.subrange(i as int, b as int)),
        decreases b - i,
    {
        proof {
            assert(v@.subrange(i as int, b as int).drop_first() =~= v@.subrange(i + 1, b as int));
        }
        i = i + 1;
    }
    proof {
        assert(lead_junk(v@.subrange(i as int, b as int)) == 0);
        assert(v@.subrange(a as int, b as int).subrange(i - a, (b - a) as int) =~= v@.subrange(i as int, b as int));
    }
    let mut j = b;
    while j > i && is_key_junk_exec(v[j - 1])
        invariant
            a <= i <= j <= b <= v@.len(),
            trail_junk(v@.subrange(i as int, b as int)) == (b - j) + trail_junk(v@.subrange(i as int, j as int)),
        decreases j,
    {
        proof {
            assert(v@.subrange(i as int, j as int).drop_last() =~= v@.subrange(i as int, j - 1));
        }
        j = j - 1;
    }
    proof {
        assert(trail_junk(v@.subrange(i as int, j as int)) == 0);
        assert(v@.subrange(i as int, b as int).subrange(0, (j - i) as int) =~= v@.subrange(i as int, j as int));
    }
    (i, j)
}

/// Bounds (absolute) of `tag_key(v[a..b])`.
fn tag_key_range(v: &[char], a: usize, b: usize) -> (r: (usize, usize))
    requires
        a <= b <= v@.len(),
    ensures
        a <= r.0 <= r.1 <= b,
        v@.subrange(r.0 as int, r.1 as int) == tag_key(v@.subrange(a as int, b as int)),
{
    let ps = split_ranges(v, a, b, '"');
    let n = ps.len();
    if n >= 2 {
        let (pa, pb) = ps[n - 2];
        proof {
            assert(v@.subrange(pa as int, pb as int) == split_on(v@.subrange(a as int, b as int), '"')[n - 2]);
        }
        (pa, pb)
    } else {
        (a, b)
    }
}

/// Column of the last `c` of the line `v[la..lb]`, or 0.
fn rfind_col_exec(v: &[char], la: usize, lb: usize, c: char) -> (r: usize)
    requires
        la <= lb <= v@.len(),
        blen(v@) <= usize::MAX,
    ensures
        r == rfind_col(v@.subrange(la as int, lb as int), c),
        r + crate::text::cw(c) <= blen(v@.subrange(la as int, lb as int)) || r == 0,
{
    match rfind_char(v, la, lb, c) {
        Some(k) => {
            let raw = crate::decls::slice_range(v, la, lb);
            proof {
                lemma_blen_subrange(v@, la as int, lb as int);
                crate::text::lemma_blen_mono(raw@, k as int, raw@.len() as int);
                assert(raw@.take(raw@.len() as int) =~= raw@);
                crate::text::lemma_blen_push(raw@.take(k as int), c);
                assert(raw@.take(k as int).push(c) =~= raw@.take(k + 1));
                crate::text::lemma_blen_mono(raw@, k + 1, raw@.len() as int);
            }
            crate::text::byte_offset(raw.as_slice(), k)
        },
        None => 0,
    }
}

/// Appends `tag_entries(v[a0..b0])` for the raw line `v[la..lb]`.
fn tag_entries_exec(
    out: &mut Vec<Diagnostic>,
    v: &[char],
    la: usize,
    lb: usize,
    a0: usize,
    b0: usize,
    idx: usize,
    table: &Vec<(&'static str, Vec<&'static str>)>,
)
    requires
        la <= a0 <= b0 <= lb <= v@.len(),
        blen(v@) <= usize::MAX,
        table_view(table@) == tag_table(),
    ensures
        diags_view(final(out)@) == diags_view(old(out)@) + tag_entries(
            v@.subrange(a0 as int, b0 as int),
            v@.subrange(la as int, lb as int),
            idx as int,
        ),
{
    let ghost d0 = diags_view(out@);
    let ghost raw = v@.subrange(la as int, lb as int);
    let ghost whole = tag_entries(v@.subrange(a0 as int, b0 as int), raw, idx as int);
    let mut a = a0;
    let mut b = b0;
    proof {
        lemma_blen_subrange(v@, la as int, lb as int);
        assert(seq!['='] =~= ['=']@);
    }
    loop
        invariant_except_break
            d0 + whole == diags_view(out@) + tag_entries(v@.subrange(a as int, b as int), raw, idx as int),
        invariant
            la <= a <= b <= lb <= v@.len(),
            blen(v@) <= usize::MAX,
            blen(raw) <= usize::MAX,
            raw == v@.subrange(la as int, lb as int),
            table_view(table@) == tag_table(),
            seq!['='] == ['=']@,
        ensures
            d0 + whole == diags_view(out@),
        decreases b - a,
    {
        let ghost cur = v@.subrange(a as int, b as int);
        let ghost dc = diags_view(out@);
        let e = match find_char(v, a, b, '=') {
            Some(k) => k,
            None => {
                assert(dc + tag_entries(cur, raw, idx as int) =~= dc);
                break;
            },
        };
        let (ba, bb) = trim_range(v, a, a + e);
        let (ra, rb) = trim_range(v, a + e + 1, b);
        proof {
            assert(cur.subrange(0, e as int) =~= v@.subrange(a as int, a + e));
            assert(cur.subrange(e + 1, cur.len() as int) =~= v@.subrange(a + e + 1, b as int));
        }
        if contains_char(v, ba, bb, '=') {
            let c = find_col_exec(v, la, lb, &['='], 0);
            out.push(line_diag(idx, c, c + 1, 1, crate::text::str_string("Malformed tag entry: unexpected '=' in tag declaration"), "shaderlab"));
        }
        let ghost d1 = diags_view(out@);
        if ra == rb || starts_with_char(v, ra, rb, '}') {
            let c = rfind_col_exec(v, la, lb, '=');
            out.push(line_diag(idx, c, c + 1, 1, crate::text::str_string("Missing tag value after '=' in Tags block"), "shaderlab"));
            proof {
                assert(diags_view(out@) =~= dc + tag_entries(cur, raw, idx as int));
            }
            break;
        } else if starts_with_char(v, ra, rb, '"') {
            proof {
                assert(v@.subrange(ra as int, rb as int).subrange(1, (rb - ra) as int) =~= v@.subrange(ra + 1, rb as int));
            }
            match find_char(v, ra + 1, rb, '"') {
                None => {
                    proof {
                        assert(diags_view(out@) =~= dc + tag_entries(cur, raw, idx as int));
                    }
                    break;
                },
                Some(ve) => {
                    let (ka0, kb0) = tag_key_range(v, ba, bb);
                    let (ka, kb) = trim_junk_range(v, ka0, kb0);
                    proof {
                        assert(v@.subrange(ra + 1, rb as int).subrange(0, ve as int) =~= v@.subrange(ra + 1, ra + 1 + ve));
                    }
                    tag_entry_exec(out, v, la, lb, ka, kb, ra + 1, ra + 1 + ve, idx, table);
                    if ve + 2 < rb - ra {
                        proof {
                            assert(v@.subrange(ra as int, rb as int).subrange(ve + 2, (rb - ra) as int) =~= v@.subrange(ra + ve + 2, rb as int));
                            assert(diags_view(out@) + tag_entries(v@.subrange(ra + ve + 2, rb as int), raw, idx as int)
                                =~= dc + tag_entries(cur, raw, idx as int));
                        }
                        a = ra + ve + 2;
                        b = rb;
                    } else {
                        proof {
                            assert(diags_view(out@) =~= dc + tag_entries(cur, raw, idx as int));
                        }
                        break;
                    }
                },
            }
        } else {
            proof {
                assert(diags_view(out@) =~= dc + tag_entries(cur, raw, idx as int));
            }
            break;
        }
    }
}

} // verus!

verus! {

/// Appends `empty_quotes(v[la..lb], 0)`.
fn empty_quotes_exec(out: &mut Vec<Diagnostic>, v: &[char], la: usize, lb: usize, idx: usize)
    requires
        la <= lb <= v@.len(),
        blen(v@) <= usize::MAX,
    ensures
        diags_view(final(out)@) == diags_view(old(out)@) + empty_quotes(v@.subrange(la as int, lb as int), 0, idx as int),
{
    let ghost d0 = diags_view(out@);
    let ghost raw = v@.subrange(la as int, lb as int);
    let rawv = crate::decls::slice_range(v, la, lb);
    proof {
        lemma_blen_subrange(v@, la as int, lb as int);
    }
    let mut j = la;
    loop
        invariant_except_break
            d0 + empty_quotes(raw, 0, idx as int) == diags_view(out@) + empty_quotes(raw, j - la, idx as int),
        invariant
            la <= j <= lb <= v@.len(),
            raw == v@.subrange(la as int, lb as int),
            rawv@ == raw,
            blen(raw) <= usize::MAX,
        ensures
            d0 + empty_quotes(raw, 0, idx as int) == diags_view(out@),
        decreases lb - j,
    {
        proof {
            assert(raw.subrange(j - la, raw.len() as int) =~= v@.subrange(j as int, lb as int));
        }
        match crate::strops::find_str(v, j, lb, "\"\"") {
            None => {
                proof {
                    crate::cursor::lemma_find_shift_none(raw, "\"\""@, j - la);
                    assert(diags_view(out@) + empty_quotes(raw, j - la, idx as int) =~= diags_view(out@));
                }
                break;
            },
            Some(k) => {
                proof {
                    reveal_strlit("\"\"");
                    crate::cursor::lemma_find_shift_some(raw, "\"\""@, j - la, k as int);
                    crate::cursor::lemma_find_from_ge(raw, "\"\""@, j - la);
                    let q = j - la + k;
                    assert(raw[q] == '"' && raw[q + 1] == '"') by {
                        assert(raw.subrange(q, q + 2) == "\"\""@);
                        assert(raw.subrange(q, q + 2)[0] == raw[q]);
                        assert(raw.subrange(q, q + 2)[1] == raw[q + 1]);
                    }
                    crate::text::lemma_blen_mono(raw, q + 2, raw.len() as int);
                    assert(raw.take(raw.len() as int) =~= raw);
                    crate::text::lemma_blen_push(raw.take(q), '"');
                    crate::text::lemma_blen_push(raw.take(q + 1), '"');
                    assert(raw.take(q).push('"') =~= raw.take(q + 1));
                    assert(raw.take(q + 1).push('"') =~= raw.take(q + 2));
                }
                let pos = j - la + k;
                let c = crate::text::byte_offset(rawv.as_slice(), pos);
                let ghost dc = diags_view(out@);
                out.push(
                    line_diag(
                        idx,
                        c,
                        c + 2,
                        1,
                        crate::text::str_string("Syntax error: empty or consecutive quotes '\"\"' in Tags block"),
                        "shaderlab",
                    ),
                );
                proof {
                    assert(diags_view(out@) + empty_quotes(raw, pos + 2, idx as int) =~= dc + empty_quotes(raw, j - la, idx as int));
                }
                j = j + k + 2;
            },
        }
    }
}

} // verus!

verus! {

/// Bounds (absolute) of `tag_line_content(v[la..lb])`.
fn tag_line_content_range(v: &[char], la: usize, lb: usize) -> (r: (usize, usize))
    requires
        la <= lb <= v@.len(),
    ensures
        la <= r.0 <= r.1 <= lb,
        v@.subrange(r.0 as int, r.1 as int) == tag_line_content(v@.subrange(la as int, lb as int)),
{
    let ghost raw = v@.subrange(la as int, lb as int);
    let mut ca = la;
    match find_char(v, la, lb, '{') {
        Some(b) => {
            proof {
                assert(raw.subrange(0, b as int) =~= v@.subrange(la as int, la + b));
                assert(raw.subrange(b + 1, raw.len() as int) =~= v@.subrange(la + b + 1, lb as int));
            }
            if contains_str(v, la, la + b, "Tags") {
                ca = la + b + 1;
            }
        },
        None => {},
    }
    match rfind_char(v, ca, lb, '}') {
        Some(c) => {
            assert(v@.subrange(ca as int, lb as int).subrange(0, c as int) =~= v@.subrange(ca as int, ca + c));
            (ca, ca + c)
        },
        None => (ca, lb),
    }
}

/// Checks the `Tags { "Key" = "Value" ... }` blocks of a ShaderLab text:
/// quoting, entry syntax, known keys and their values.
pub fn validate_shaderlab_tags(content: &str) -> (r: Vec<Diagnostic>)
    ensures
        diags_view(r@) == tag_diags(content@),
{
    let table = tag_keys_and_values();
    let (v, ranges) = lines_of(content);
    let ghost ls = lines(v@);
    let mut out: Vec<Diagnostic> = Vec::new();
    let mut in_tags = false;
    let mut idx: usize = 0;
    proof {
        assert(diags_view(out@) =~= Seq::<DiagModel>::empty());
    }
    while idx < ranges.len()
        invariant
            v@ == content@,
            ls == lines(v@),
            blen(v@) <= usize::MAX,
            ranges_within(ranges@, 0, v@.len() as int),
            ranges_hold(v@, ranges@, ls),
            idx <= ranges@.len(),
            table_view(table@) == tag_table(),
            tag_check_scan(ls, idx as int) == (in_tags, diags_view(out@)),
        decreases ranges.len() - idx,
    {
        let (la, lb) = ranges[idx];
        proof {
            assert(ls[idx as int] == v@.subrange(la as int, lb as int));
        }
        let vs = v.as_slice();
        let (ta, tb) = trim_range(vs, la, lb);
        let ghost d0 = diags_view(out@);
        if !starts_with_str(vs, ta, tb, "//") && (in_tags || (contains_str(vs, ta, tb, "Tags") && contains_char(vs, ta, tb, '{'))) {
            empty_quotes_exec(&mut out, vs, la, lb, idx);
            let ghost d1 = diags_view(out@);
            if count_char_in(vs, ta, tb, '"') % 2 != 0 {
                let c = rfind_col_exec(vs, la, lb, '"');
                let end = range_blen(vs, la, lb);
                out.push(line_diag(idx, c, end, 1, crate::text::str_string("Unclosed quote string in Tags block"), "shaderlab"));
            }
            let ghost d2 = diags_view(out@);
            let (ca, cb) = tag_line_content_range(vs, la, lb);
            if contains_char(vs, ca, cb, '=') {
                tag_entries_exec(&mut out, vs, la, lb, ca, cb, idx, &table);
            }
            in_tags = !contains_char(vs, ta, tb, '}');
            proof {
                let raw = v@.subrange(la as int, lb as int);
                let t = v@.subrange(ta as int, tb as int);
                let q = empty_quotes(raw, 0, idx as int);
                let u = if count_char(t, '"') % 2 != 0 {
                    seq![
                        on_line(
                            idx as int,
                            rfind_col(raw, '"'),
                            blen(raw) as int,
                            1,
                            "Unclosed quote string in Tags block"@,
                            "shaderlab"@,
                        ),
                    ]
                } else {
                    Seq::<DiagModel>::empty()
                };
                assert(d2 =~= d0 + q + u);
                let lc = tag_line_content(raw);
                let e = if contains(lc, seq!['=']) {
                    tag_entries(lc, raw, idx as int)
                } else {
                    Seq::<DiagModel>::empty()
                };
                assert(diags_view(out@) =~= d0 + q + u + e);
            }
        }
        proof {
            assert(tag_check_scan(ls, idx + 1) == tag_check_step(tag_check_scan(ls, idx as int), ls[idx as int], idx as int));
        }
        idx = idx + 1;
    }
    out
}

} // verus!
