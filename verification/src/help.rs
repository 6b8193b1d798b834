//! Signature help: the signatures of the function whose call the cursor is
//! in, and the overload and parameter to highlight.
use vstd::prelude::*;
use crate::builtin_table::builtin_table;
use crate::cursor::{best_overload, select_best_overload};
use crate::docs::{find_builtin_function, first_index_of, function_names, BuiltinFunction, FunctionDoc, OverloadDoc};
use crate::functions::{fns_view, FnModel, FunctionSignature};
use crate::lexer::{enclosing_call, find_enclosing_call};
use crate::lists::strings_view;
use crate::strops::eq_str;
use crate::text::{push_str, str_string, to_chars};

verus! {

/// One signature offered: its label, markdown documentation and parameters.
#[derive(Debug, Clone)]
pub struct SignatureInfo {
    pub label: String,
    pub documentation: String,
    pub parameters: Vec<String>,
}

/// The signatures offered for a call, with the one to highlight and the
/// parameter to highlight in it.
#[derive(Debug, Clone)]
pub struct SignatureHelp {
    pub signatures: Vec<SignatureInfo>,
    pub active_signature: usize,
    pub active_parameter: usize,
}

/// What a `SignatureInfo` holds.
pub struct SigModel {
    pub label: Seq<char>,
    pub documentation: Seq<char>,
    pub parameters: Seq<Seq<char>>,
}

/// What a `SignatureHelp` holds.
pub struct HelpModel {
    pub signatures: Seq<SigModel>,
    pub active_signature: usize,
    pub active_parameter: usize,
}

impl View for SignatureInfo {
    type V = SigModel;

    open spec fn view(&self) -> SigModel {
        SigModel { label: self.label@, documentation: self.documentation@, parameters: strings_view(self.parameters@) }
    }
}

impl View for SignatureHelp {
    type V = HelpModel;

    open spec fn view(&self) -> HelpModel {
        HelpModel {
            signatures: self.signatures@.map_values(|s: SignatureInfo| s@),
            active_signature: self.active_signature,
            active_parameter: self.active_parameter,
        }
    }
}

/// The call around the cursor, trying the column, the next one and the
/// previous one.
pub open spec fn call_near(text: Seq<char>, line: int, col: int) -> Option<(Seq<char>, nat)> {
    match enclosing_call(text, line, col) {
        Some(c) => Some(c),
        None => match enclosing_call(text, line, col + 1) {
            Some(c) => Some(c),
            None => if col > 0 {
                enclosing_call(text, line, col - 1)
            } else {
                None
            },
        },
    }
}

/// The documentation of the intrinsic or engine function `name`, if any.
pub open spec fn builtin_named(name: Seq<char>) -> Option<FunctionDoc> {
    if function_names(builtin_table()).contains(name) {
        Some(builtin_table()[choose|i: int| first_index_of(function_names(builtin_table()), name, i)])
    } else {
        None
    }
}

/// The help of ShaderLab's `Range(min, max)` property type.
pub open spec fn range_help(active: nat) -> HelpModel {
    HelpModel {
        signatures: seq![
            SigModel {
                label: "Range(float min, float max)"@,
                documentation: "### `Range(min, max)`\n*Unity ShaderLab Property Type*\n\nCreates a floating-point property bounded by an interactive slider between `min` and `max` in the Unity Material Inspector."@,
                parameters: seq!["float min"@, "float max"@],
            },
        ],
        active_signature: 0,
        active_parameter: if active < 1 {
            active as usize
        } else {
            1
        },
    }
}

/// The functions of `fs[..n]` named `name`.
pub open spec fn named_upto(fs: Seq<FnModel>, name: Seq<char>, n: int) -> Seq<FnModel>
    decreases n,
{
    if n <= 0 {
        seq![]
    } else if fs[n - 1].name == name {
        named_upto(fs, name, n - 1).push(fs[n - 1])
    } else {
        named_upto(fs, name, n - 1)
    }
}

pub open spec fn named(fs: Seq<FnModel>, name: Seq<char>) -> Seq<FnModel> {
    named_upto(fs, name, fs.len() as int)
}

/// The documentation of a user function's signature: the file it is defined
/// in, then its doc comment, else the intrinsic's description of that name;
/// a default for a function of the document without a doc comment.
pub open spec fn user_doc(f: FnModel, bi: Option<FunctionDoc>) -> Seq<char> {
    match (f.doc, f.source) {
        (Some(d), Some(src)) => "*(Defined in `"@ + src + "`)*\n\n"@ + d,
        (Some(d), None) => d,
        (None, Some(src)) => match bi {
            Some(b) => "*(Defined in `"@ + src + "`)*\n\n"@ + b.description,
            None => "*(Defined in `"@ + src + "`)*"@,
        },
        (None, None) => match bi {
            Some(b) => b.description,
            None => "User-defined function `"@ + f.name + "`"@,
        },
    }
}

pub open spec fn user_sig(f: FnModel, bi: Option<FunctionDoc>) -> SigModel {
    SigModel { label: f.label, documentation: user_doc(f, bi), parameters: f.parameters }
}

pub open spec fn builtin_sig(o: OverloadDoc, description: Seq<char>) -> SigModel {
    SigModel { label: o.label, documentation: description, parameters: o.params }
}

/// `h` is the help for a call of `name` at argument `active`: the user
/// functions of that name when there are any, else the intrinsic's
/// overloads; the overload highlighted is the best for `active`.
pub open spec fn help_for(fs: Seq<FnModel>, name: Seq<char>, active: nat, h: HelpModel) -> bool {
    let ms = named(fs, name);
    if ms.len() > 0 {
        &&& h.signatures == ms.map_values(|f: FnModel| user_sig(f, builtin_named(name)))
        &&& best_overload(
            ms.map_values(|f: FnModel| f.parameters.len() as usize),
            active as int,
            (h.active_signature, h.active_parameter),
        )
    } else {
        match builtin_named(name) {
            Some(b) => {
                &&& h.signatures == b.overloads.map_values(|o: OverloadDoc| builtin_sig(o, b.description))
                &&& best_overload(
                    b.overloads.map_values(|o: OverloadDoc| o.params.len() as usize),
                    active as int,
                    (h.active_signature, h.active_parameter),
                )
            },
            None => false,
        }
    }
}

/// Some help exists for a call of `name`.
pub open spec fn has_help(fs: Seq<FnModel>, name: Seq<char>) -> bool {
    named(fs, name).len() > 0 || builtin_named(name) is Some
}

/// The signature of a user function.
fn user_sig_exec(f: &FunctionSignature, bi: &Option<BuiltinFunction>) -> (r: SignatureInfo)
    ensures
        r@ == user_sig(f@, match bi {
            Some(b) => Some(b@),
            None => None,
        }),
{
    let doc = match (&f.doc, &f.source) {
        (Some(d), Some(src)) => {
            let mut m = str_string("*(Defined in `");
            push_str(&mut m, src.as_str());
            push_str(&mut m, "`)*\n\n");
            push_str(&mut m, d.as_str());
            m
        },
        (Some(d), None) => d.clone(),
        (None, Some(src)) => match bi {
            Some(b) => {
                let mut m = str_string("*(Defined in `");
                push_str(&mut m, src.as_str());
                push_str(&mut m, "`)*\n\n");
                push_str(&mut m, b.description);
                m
            },
            None => {
                let mut m = str_string("*(Defined in `");
                push_str(&mut m, src.as_str());
                push_str(&mut m, "`)*");
                m
            },
        },
        (None, None) => match bi {
            Some(b) => str_string(b.description),
            None => {
                let mut m = str_string("User-defined function `");
                push_str(&mut m, f.name.as_str());
                push_str(&mut m, "`");
                m
            },
        },
    };
    SignatureInfo { label: f.label.clone(), documentation: doc, parameters: f.parameters.clone() }
}

/// The signature of an intrinsic's overload.
fn builtin_sig_exec(o: &crate::docs::BuiltinOverload, description: &'static str) -> (r: SignatureInfo)
    ensures
        r@ == builtin_sig(o@, description@),
{
    let mut ps: Vec<String> = Vec::new();
    let mut k: usize = 0;
    while k < o.params.len()
        invariant
            k <= o.params@.len(),
            strings_view(ps@) == o.params@.take(k as int).map_values(|p: &str| p@),
        decreases o.params.len() - k,
    {
        ps.push(str_string(o.params[k]));
        proof {
            assert(o.params@.take(k + 1).map_values(|p: &str| p@) =~= o.params@.take(k as int).map_values(
                |p: &str| p@,
            ).push(o.params@[k as int]@));
            assert(strings_view(ps@) =~= strings_view(ps@.drop_last()).push(ps@.last()@));
        }
        k = k + 1;
    }
    proof {
        assert(o.params@.take(o.params@.len() as int) =~= o.params@);
    }
    SignatureInfo { label: str_string(o.label), documentation: str_string(description), parameters: ps }
}

/// `call_near` at run time.
fn call_near_exec(text: &str, line_idx: usize, col_idx: usize) -> (r: Option<(String, usize)>)
    requires
        col_idx < usize::MAX,
    ensures
        match call_near(text@, line_idx as int, col_idx as int) {
            Some((name, n)) => r matches Some((rn, rk)) && rn@ == name && rk == n,
            None => r is None,
        },
{
    match find_enclosing_call(text, line_idx, col_idx) {
        Some(c) => Some(c),
        None => match find_enclosing_call(text, line_idx, col_idx + 1) {
            Some(c) => Some(c),
            None => if col_idx > 0 {
                find_enclosing_call(text, line_idx, col_idx - 1)
            } else {
                None
            },
        },
    }
}

/// `builtin_named(name)`, with the executable entry.
pub(crate) fn builtin_named_exec(name: &str) -> (r: Option<BuiltinFunction>)
    ensures
        match builtin_named(name@) {
            Some(b) => r matches Some(rb) && rb@ == b,
            None => r is None,
        },
{
    let r = find_builtin_function(name);
    proof {
        let ns = function_names(builtin_table());
        if r is Some {
            let i = choose|i: int| first_index_of(ns, name@, i) && builtin_table()[i] == r->0@;
            let j = choose|j: int| first_index_of(ns, name@, j);
            assert(first_index_of(ns, name@, j));
            if i < j {
                assert(ns[i] == name@);
            } else if j < i {
                assert(ns[j] == name@);
            }
            assert(i == j);
        }
    }
    r
}

/// The help for a call of `name` at argument `active`, given the functions
/// `fs` that the document and its includes define.
fn help_for_exec(fs: &[FunctionSignature], name: &str, active: usize) -> (r: Option<SignatureHelp>)
    ensures
        has_help(fns_view(fs@), name@) ==> (r matches Some(h) && help_for(fns_view(fs@), name@, active as nat, h@)),
        !has_help(fns_view(fs@), name@) ==> r is None,
{
    let ghost fsv = fns_view(fs@);
    let bi = builtin_named_exec(name);
    let ghost bim = builtin_named(name@);
    let key = to_chars(name);
    proof {
        assert(key@.subrange(0, key@.len() as int) =~= key@);
    }
    let mut sigs: Vec<SignatureInfo> = Vec::new();
    let mut counts: Vec<usize> = Vec::new();
    let mut k: usize = 0;
    while k < fs.len()
        invariant
            fsv == fns_view(fs@),
            key@ == name@,
            bim == builtin_named(name@),
            match bim {
                Some(b) => bi matches Some(rb) && rb@ == b,
                None => bi is None,
            },
            k <= fs@.len(),
            sigs@.map_values(|s: SignatureInfo| s@) == named_upto(fsv, name@, k as int).map_values(
                |f: FnModel| user_sig(f, bim),
            ),
            counts@ == named_upto(fsv, name@, k as int).map_values(|f: FnModel| f.parameters.len() as usize),
        decreases fs.len() - k,
    {
        let ghost before = named_upto(fsv, name@, k as int);
        proof {
            assert(key@.subrange(0, key@.len() as int) =~= key@);
            assert(fsv[k as int] == fs@[k as int]@);
        }
        if eq_str(&key, 0, key.len(), fs[k].name.as_str()) {
            let s = user_sig_exec(&fs[k], &bi);
            let ghost sv = s@;
            sigs.push(s);
            counts.push(fs[k].parameters.len());
            proof {
                assert(fsv[k as int] == fs@[k as int]@);
                assert(named_upto(fsv, name@, k + 1) == before.push(fsv[k as int]));
                assert(sigs@.map_values(|s: SignatureInfo| s@) =~= before.map_values(|f: FnModel| user_sig(f, bim)).push(
                    user_sig(fsv[k as int], bim),
                ));
                assert(before.push(fsv[k as int]).map_values(|f: FnModel| user_sig(f, bim)) =~= before.map_values(
                    |f: FnModel| user_sig(f, bim),
                ).push(user_sig(fsv[k as int], bim)));
                assert(counts@ =~= before.push(fsv[k as int]).map_values(|f: FnModel| f.parameters.len() as usize));
            }
        } else {
            proof {
                assert(fsv[k as int] == fs@[k as int]@);
                assert(named_upto(fsv, name@, k + 1) == before);
            }
        }
        k = k + 1;
    }
    if sigs.len() > 0 {
        let (a_sig, a_par) = select_best_overload(&counts, active);
        let h = SignatureHelp { signatures: sigs, active_signature: a_sig, active_parameter: a_par };
        return Some(h);
    }
    proof {
        assert(named(fsv, name@).len() == 0);
    }
    match bi {
        Some(b) => {
            let mut bsigs: Vec<SignatureInfo> = Vec::new();
            let mut bcounts: Vec<usize> = Vec::new();
            let ghost bm = b@;
            let mut j: usize = 0;
            while j < b.overloads.len()
                invariant
                    bm == b@,
                    j <= b.overloads@.len(),
                    bsigs@.map_values(|s: SignatureInfo| s@) == bm.overloads.take(j as int).map_values(
                        |o: OverloadDoc| builtin_sig(o, bm.description),
                    ),
                    bcounts@ == bm.overloads.take(j as int).map_values(|o: OverloadDoc| o.params.len() as usize),
                decreases b.overloads.len() - j,
            {
                let s = builtin_sig_exec(&b.overloads[j], b.description);
                let ghost sv = s@;
                let ghost old_sigs = bsigs@;
                bsigs.push(s);
                bcounts.push(b.overloads[j].params.len());
                proof {
                    assert(bm.overloads[j as int] == b.overloads@[j as int]@);
                    assert(bm.overloads.take(j + 1) =~= bm.overloads.take(j as int).push(bm.overloads[j as int]));
                    assert(bsigs@.map_values(|s: SignatureInfo| s@) =~= old_sigs.map_values(|s: SignatureInfo| s@).push(sv));
                    assert(bm.overloads.take(j + 1).map_values(|o: OverloadDoc| builtin_sig(o, bm.description)) =~= bm.overloads.take(j as int).map_values(
                        |o: OverloadDoc| builtin_sig(o, bm.description),
                    ).push(builtin_sig(bm.overloads[j as int], bm.description)));
                    assert(bsigs@.map_values(|s: SignatureInfo| s@) =~= bm.overloads.take(j + 1).map_values(
                        |o: OverloadDoc| builtin_sig(o, bm.description),
                    ));
                    assert(bcounts@ =~= bm.overloads.take(j + 1).map_values(|o: OverloadDoc| o.params.len() as usize));
                }
                j = j + 1;
            }
            proof {
                assert(bm.overloads.take(bm.overloads.len() as int) =~= bm.overloads);
            }
            let (a_sig, a_par) = select_best_overload(&bcounts, active);
            Some(SignatureHelp { signatures: bsigs, active_signature: a_sig, active_parameter: a_par })
        },
        None => None,
    }
}

/// The signature help at line `line_idx`, byte column `col_idx` of `text`:
/// for the call around the cursor (trying the next and the previous column
/// too), ShaderLab's `Range(min, max)`, else the signatures of the functions
/// of that name among `user_funcs` (those of the document and its includes),
/// else the intrinsic's documented overloads; `None` when there is no call
/// or nothing is known of it.
pub fn get_signature_help(text: &str, line_idx: usize, col_idx: usize, user_funcs: &[FunctionSignature]) -> (r: Option<
    SignatureHelp,
>)
    requires
        col_idx < usize::MAX,
    ensures
        match call_near(text@, line_idx as int, col_idx as int) {
            None => r is None,
            Some((name, active)) => if name == "Range"@ {
                r matches Some(h) && h@ == range_help(active)
            } else if has_help(fns_view(user_funcs@), name) {
                r matches Some(h) && help_for(fns_view(user_funcs@), name, active, h@)
            } else {
                r is None
            },
        },
{
    let (name, active) = match call_near_exec(text, line_idx, col_idx) {
        Some(c) => c,
        None => return None,
    };
    let key = to_chars(name.as_str());
    proof {
        assert(key@.subrange(0, key@.len() as int) =~= key@);
    }
    if eq_str(&key, 0, key.len(), "Range") {
        let mut ps: Vec<String> = Vec::new();
        ps.push(str_string("float min"));
        ps.push(str_string("float max"));
        let sig = SignatureInfo {
            label: str_string("Range(float min, float max)"),
            documentation: str_string(
                "### `Range(min, max)`\n*Unity ShaderLab Property Type*\n\nCreates a floating-point property bounded by an interactive slider between `min` and `max` in the Unity Material Inspector.",
            ),
            parameters: ps,
        };
        let mut sigs: Vec<SignatureInfo> = Vec::new();
        sigs.push(sig);
        let h = SignatureHelp {
            signatures: sigs,
            active_signature: 0,
            active_parameter: if active < 1 {
                active
            } else {
                1
            },
        };
        proof {
            assert(strings_view(h.signatures@[0].parameters@) =~= seq!["float min"@, "float max"@]);
            assert(h@.signatures =~= range_help(active as nat).signatures);
        }
        return Some(h);
    }
    help_for_exec(user_funcs, name.as_str(), active)
}

} // verus!
