use vstd::prelude::*;
use crate::argument::{default_of_text, ArgumentDefaultValue, ArgumentKind, DefaultLiteral};
use crate::token::{is_punct, tokens_text, Token, TokenKind};

verus! {

/// One entry of a signature: the parameter name, the position of its token,
/// and the tokens that follow it up to the next comma.
#[derive(Clone, Debug)]
pub struct SignatureEntry {
    pub name: String,
    pub name_span: usize,
    pub tokens: Vec<Token>,
}

pub struct EntryView {
    pub name: Seq<char>,
    pub span: usize,
    pub tokens: Seq<Token>,
}

impl View for SignatureEntry {
    type V = EntryView;

    open spec fn view(&self) -> EntryView {
        EntryView { name: self.name@, span: self.name_span, tokens: self.tokens@ }
    }
}

pub open spec fn entries_view(es: Seq<SignatureEntry>) -> Seq<EntryView> {
    es.map_values(|e: SignatureEntry| e@)
}

/// The entry that a comma-free segment makes: one that starts with an
/// identifier names a parameter; any other makes none.
pub open spec fn segment_entry(seg: Seq<Token>) -> Option<EntryView> {
    if seg.len() > 0 && seg[0].kind is Ident {
        Some(EntryView { name: seg[0].kind->Ident_0@, span: seg[0].span, tokens: seg.skip(1) })
    } else {
        None
    }
}

pub open spec fn has_name(es: Seq<EntryView>, name: Seq<char>) -> bool {
    exists|i: int| 0 <= i < es.len() && (#[trigger] es[i]).name == name
}

pub open spec fn index_of_name(es: Seq<EntryView>, name: Seq<char>) -> int {
    choose|i: int| 0 <= i < es.len() && (#[trigger] es[i]).name == name
}

pub open spec fn unique_names(es: Seq<EntryView>) -> bool {
    forall|i: int, j: int|
        0 <= i < es.len() && 0 <= j < es.len() && (#[trigger] es[i]).name == (#[trigger] es[j]).name
            ==> i == j
}

/// Adds an entry; a later entry for a name replaces the earlier one in place.
pub open spec fn insert_entry(es: Seq<EntryView>, e: EntryView) -> Seq<EntryView> {
    if has_name(es, e.name) {
        es.update(index_of_name(es, e.name), e)
    } else {
        es.push(e)
    }
}

pub open spec fn add_segment(es: Seq<EntryView>, seg: Seq<Token>) -> Seq<EntryView> {
    match segment_entry(seg) {
        Some(e) => insert_entry(es, e),
        None => es,
    }
}

/// The entries of the segments closed so far, and the open segment.
pub open spec fn scan_signature(ts: Seq<Token>) -> (Seq<EntryView>, Seq<Token>)
    decreases ts.len(),
{
    if ts.len() == 0 {
        (Seq::empty(), Seq::empty())
    } else {
        let (es, cur) = scan_signature(ts.drop_last());
        if is_punct(ts.last(), ',') {
            (add_segment(es, cur), Seq::empty())
        } else {
            (es, cur.push(ts.last()))
        }
    }
}

/// The signature's entries: its tokens split at commas, one entry per
/// segment that starts with a name, in order of first appearance.
pub open spec fn signature_entries(ts: Seq<Token>) -> Seq<EntryView> {
    add_segment(scan_signature(ts).0, scan_signature(ts).1)
}

/// The entry for a parameter name, if the signature has one.
pub open spec fn lookup_entry(es: Seq<EntryView>, name: Seq<char>) -> Option<EntryView> {
    if has_name(es, name) {
        Some(es[index_of_name(es, name)])
    } else {
        None
    }
}

/// How a parameter is bound, from its signature entry: absent or bare is
/// positional; `= tokens` is positional with that default; `: tokens` is by
/// keyword, with a default when tokens follow.
pub open spec fn classify(entry: Option<EntryView>) -> (ArgumentKind, Option<DefaultLiteral>) {
    match entry {
        None => (ArgumentKind::Arg, None),
        Some(e) => if e.tokens.len() > 0 && is_punct(e.tokens[0], '=') {
            (ArgumentKind::DArg, Some(default_of_text(tokens_text(e.tokens.skip(1)))))
        } else if e.tokens.len() > 0 && is_punct(e.tokens[0], ':') {
            if e.tokens.len() > 1 {
                (ArgumentKind::KwArg, Some(default_of_text(tokens_text(e.tokens.skip(1)))))
            } else {
                (ArgumentKind::KwArg, None)
            }
        } else {
            (ArgumentKind::Arg, None)
        },
    }
}

pub open spec fn default_view(d: Option<ArgumentDefaultValue>) -> Option<DefaultLiteral> {
    match d {
        Some(v) => Some(v@),
        None => None,
    }
}

proof fn lemma_insert_unique(es: Seq<EntryView>, e: EntryView)
    requires
        unique_names(es),
    ensures
        unique_names(insert_entry(es, e)),
{
    let r = insert_entry(es, e);
    if has_name(es, e.name) {
        let k = index_of_name(es, e.name);
        assert forall|i: int, j: int|
            0 <= i < r.len() && 0 <= j < r.len() && (#[trigger] r[i]).name == (#[trigger] r[j]).name
            implies i == j by {
            if i == k && j != k {
                assert(es[j].name == es[k].name);
            } else if j == k && i != k {
                assert(es[i].name == es[k].name);
            } else if i != k && j != k {
                assert(es[i].name == es[j].name);
            }
        }
    } else {
        assert forall|i: int, j: int|
            0 <= i < r.len() && 0 <= j < r.len() && (#[trigger] r[i]).name == (#[trigger] r[j]).name
            implies i == j by {
            if i < es.len() && j == es.len() {
                assert(es[i].name == e.name);
            } else if j < es.len() && i == es.len() {
                assert(es[j].name == e.name);
            } else if i < es.len() && j < es.len() {
                assert(es[i].name == es[j].name);
            }
        }
    }
}

proof fn lemma_scan_unique(ts: Seq<Token>)
    ensures
        unique_names(scan_signature(ts).0),
    decreases ts.len(),
{
    if ts.len() > 0 {
        lemma_scan_unique(ts.drop_last());
        let (es, cur) = scan_signature(ts.drop_last());
        if let Some(e) = segment_entry(cur) {
            lemma_insert_unique(es, e);
        }
    }
}

/// The names of the signature's entries are distinct.
pub proof fn lemma_signature_unique(ts: Seq<Token>)
    ensures
        unique_names(signature_entries(ts)),
{
    lemma_scan_unique(ts);
    let (es, cur) = scan_signature(ts);
    if let Some(e) = segment_entry(cur) {
        lemma_insert_unique(es, e);
    }
}

/// Adds the entry for a closed segment, replacing an earlier one of that name.
pub(crate) fn add_segment_exec(entries: &mut Vec<SignatureEntry>, seg: &Vec<Token>)
    requires
        unique_names(entries_view(old(entries)@)),
    ensures
        entries_view(final(entries)@) == add_segment(entries_view(old(entries)@), seg@),
        unique_names(entries_view(final(entries)@)),
{
    if seg.len() == 0 {
        return;
    }
    let name = match &seg[0].kind {
        TokenKind::Ident(s) => s.clone(),
        _ => {
            return;
        },
    };
    let mut rest: Vec<Token> = Vec::new();
    let mut k: usize = 1;
    while k < seg.len()
        invariant
            1 <= k <= seg@.len(),
            rest@ == seg@.subrange(1, k as int),
        decreases seg@.len() - k,
    {
        rest.push(seg[k].copied());
        proof {
            assert(rest@ =~= seg@.subrange(1, k + 1));
        }
        k = k + 1;
    }
    assert(rest@ =~= seg@.skip(1));
    let e = SignatureEntry { name, name_span: seg[0].span, tokens: rest };
    let ghost ev = e@;
    let ghost es0 = entries_view(entries@);
    assert(segment_entry(seg@) == Some(ev));
    proof {
        lemma_insert_unique(es0, ev);
    }
    let mut i: usize = 0;
    while i < entries.len()
        invariant
            i <= entries@.len(),
            entries_view(entries@) == es0,
            unique_names(es0),
            ev == e@,
            es0 == entries_view(old(entries)@),
            segment_entry(seg@) == Some(ev),
            forall|j: int| 0 <= j < i ==> (#[trigger] es0[j]).name != ev.name,
        decreases entries@.len() - i,
    {
        if crate::token::same_text(entries[i].name.as_str(), e.name.as_str()) {
            proof {
                assert(es0[i as int].name == ev.name);
                assert(has_name(es0, ev.name));
                let c = index_of_name(es0, ev.name);
                assert(es0[c].name == es0[i as int].name);
            }
            entries.set(i, e);
            proof {
                assert(entries_view(entries@) =~= insert_entry(es0, ev));
            }
            return;
        }
        i = i + 1;
    }
    assert(!has_name(es0, ev.name));
    entries.push(e);
    assert(entries_view(entries@) =~= insert_entry(es0, ev));
}

} // verus!
