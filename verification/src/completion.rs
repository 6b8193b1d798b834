//! Completion items: the model of an item, the ordering keys, and the filter
//! that keeps the items whose label starts with the typed word, once each.
use vstd::prelude::*;
use crate::cursor::{starts_with_ignore_ascii_case, starts_with_ignoring_ascii_case};
use crate::diagnostics::Range;
use crate::numbers::{decimal, decimal_string};
use crate::text::{push_char, push_str, str_string, to_chars};

verus! {

/// A completion item: `insert_text` replaces `range` when there is one;
/// `insert_text_format` is 1 for plain text and 2 for a snippet; an empty
/// `documentation` is none; `filter_text`, when present, is matched in place
/// of the label.
#[derive(Debug, Clone)]
pub struct CompletionItem {
    pub label: String,
    pub kind: u8,
    pub detail: String,
    pub documentation: String,
    pub insert_text: String,
    pub insert_text_format: Option<u8>,
    pub range: Option<Range>,
    pub sort_text: String,
    pub filter_text: Option<String>,
}

/// What a `CompletionItem` holds.
pub struct ItemModel {
    pub label: Seq<char>,
    pub kind: u8,
    pub detail: Seq<char>,
    pub documentation: Seq<char>,
    pub insert_text: Seq<char>,
    pub insert_text_format: Option<u8>,
    pub range: Option<Range>,
    pub sort_text: Seq<char>,
    pub filter_text: Option<Seq<char>>,
}

impl View for CompletionItem {
    type V = ItemModel;

    open spec fn view(&self) -> ItemModel {
        ItemModel {
            label: self.label@,
            kind: self.kind,
            detail: self.detail@,
            documentation: self.documentation@,
            insert_text: self.insert_text@,
            insert_text_format: self.insert_text_format,
            range: self.range,
            sort_text: self.sort_text@,
            filter_text: crate::text::opt_view(self.filter_text),
        }
    }
}

pub open spec fn items_view(v: Seq<CompletionItem>) -> Seq<ItemModel> {
    v.map_values(|i: CompletionItem| i@)
}

/// `n` in decimal, padded with leading zeros to `width` digits.
pub open spec fn padded(n: nat, width: nat) -> Seq<char> {
    let d = decimal(n);
    if d.len() < width {
        Seq::new((width - d.len()) as nat, |i: int| '0') + d
    } else {
        d
    }
}

/// The ordering key `group_index_name`, the index padded to `width` digits.
pub open spec fn sort_key(group: Seq<char>, idx: nat, width: nat, name: Seq<char>) -> Seq<char> {
    group + "_"@ + padded(idx, width) + "_"@ + name
}

/// `padded` at run time.
pub fn padded_string(n: usize, width: usize) -> (r: String)
    ensures
        r@ == padded(n as nat, width as nat),
{
    let d = decimal_string(n);
    let dc = to_chars(d.as_str());
    let mut out = String::new();
    if dc.len() < width {
        let mut k: usize = 0;
        while k < width - dc.len()
            invariant
                dc@ == d@,
                dc@.len() < width,
                k <= width - dc@.len(),
                out@ == Seq::new(k as nat, |i: int| '0'),
            decreases width - dc.len() - k,
        {
            push_char(&mut out, '0');
            proof {
                assert(out@ =~= Seq::new((k + 1) as nat, |i: int| '0'));
            }
            k = k + 1;
        }
    }
    push_str(&mut out, d.as_str());
    proof {
        if dc@.len() >= width {
            assert(out@ =~= d@);
        }
    }
    out
}

/// `sort_key` at run time.
pub fn sort_key_string(group: &str, idx: usize, width: usize, name: &str) -> (r: String)
    ensures
        r@ == sort_key(group@, idx as nat, width as nat, name@),
{
    let mut s = str_string(group);
    push_str(&mut s, "_");
    let p = padded_string(idx, width);
    push_str(&mut s, p.as_str());
    push_str(&mut s, "_");
    push_str(&mut s, name);
    s
}

/// The label matches the typed word: the word is empty, or the label's
/// UTF-8 bytes start with the word's, ignoring ASCII case.
pub open spec fn label_matches(label: Seq<char>, word: Seq<char>) -> bool {
    word.len() == 0 || starts_with_ignoring_ascii_case(
        vstd::utf8::encode_utf8(label),
        vstd::utf8::encode_utf8(word),
    )
}

/// The items of `cs[..n]` that match `word`, each label kept once (the
/// first match wins).
pub open spec fn dedup_matching(cs: Seq<ItemModel>, word: Seq<char>, n: int) -> Seq<ItemModel>
    decreases n,
{
    if n <= 0 {
        seq![]
    } else {
        let kept = dedup_matching(cs, word, n - 1);
        let c = cs[n - 1];
        if label_matches(c.label, word) && !kept.map_values(|k: ItemModel| k.label).contains(c.label) {
            kept.push(c)
        } else {
            kept
        }
    }
}

/// Whether some item of `kept` has the label `label`.
fn has_label(kept: &Vec<CompletionItem>, label: &str) -> (r: bool)
    ensures
        r == items_view(kept@).map_values(|k: ItemModel| k.label).contains(label@),
{
    let ghost ls = items_view(kept@).map_values(|k: ItemModel| k.label);
    let key = to_chars(label);
    let mut i: usize = 0;
    while i < kept.len()
        invariant
            ls == items_view(kept@).map_values(|k: ItemModel| k.label),
            key@ == label@,
            i <= kept@.len(),
            forall|j: int| 0 <= j < i ==> ls[j] != label@,
        decreases kept.len() - i,
    {
        proof {
            assert(key@.subrange(0, key@.len() as int) =~= key@);
            assert(ls[i as int] == kept@[i as int].label@);
        }
        if crate::strops::eq_str(&key, 0, key.len(), kept[i].label.as_str()) {
            return true;
        }
        i = i + 1;
    }
    false
}

/// A copy of an item.
pub fn copy_item(c: &CompletionItem) -> (r: CompletionItem)
    ensures
        r@ == c@,
{
    CompletionItem {
        label: c.label.clone(),
        kind: c.kind,
        detail: c.detail.clone(),
        documentation: c.documentation.clone(),
        insert_text: c.insert_text.clone(),
        insert_text_format: c.insert_text_format,
        range: c.range,
        sort_text: c.sort_text.clone(),
        filter_text: match &c.filter_text {
            Some(f) => Some(f.clone()),
            None => None,
        },
    }
}

/// The candidates that match `word`, in order, each label once.
pub fn filter_candidates(cands: Vec<CompletionItem>, word: &str) -> (r: Vec<CompletionItem>)
    ensures
        items_view(r@) == dedup_matching(items_view(cands@), word@, cands@.len() as int),
{
    let ghost cs = items_view(cands@);
    let wc = to_chars(word);
    let mut kept: Vec<CompletionItem> = Vec::new();
    let mut i: usize = 0;
    proof {
        assert(items_view(kept@) =~= Seq::<ItemModel>::empty());
    }
    while i < cands.len()
        invariant
            cs == items_view(cands@),
            wc@ == word@,
            i <= cands@.len(),
            items_view(kept@) == dedup_matching(cs, word@, i as int),
        decreases cands.len() - i,
    {
        let c = &cands[i];
        proof {
            assert(cs[i as int] == c@);
        }
        let ok = wc.len() == 0 || starts_with_ignore_ascii_case(c.label.as_str(), word);
        if ok && !has_label(&kept, c.label.as_str()) {
            let ghost before = items_view(kept@);
            kept.push(copy_item(c));
            proof {
                assert(items_view(kept@) =~= before.push(c@));
            }
        }
        i = i + 1;
    }
    kept
}

} // verus!

verus! {

/// The command that an item runs once inserted: a function (kind 3) opens
/// the parameter hints.
pub open spec fn item_command(kind: u8) -> Option<Seq<char>> {
    if kind == 3 {
        Some("editor.action.triggerParameterHints"@)
    } else {
        None
    }
}

/// The command that `item` runs once inserted, if any.
pub fn completion_command(item: &CompletionItem) -> (r: Option<&'static str>)
    ensures
        match item_command(item.kind) {
            Some(c) => r matches Some(rc) && rc@ == c,
            None => r is None,
        },
{
    if item.kind == 3 {
        Some("editor.action.triggerParameterHints")
    } else {
        None
    }
}

} // verus!
