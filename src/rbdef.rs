use vstd::prelude::*;
use crate::argument::{Argument, ArgumentDefaultValue, ArgumentKind};
use crate::method::{Method, MethodKind};
use crate::signature::{
    add_segment_exec, classify, default_view, entries_view, lookup_entry, scan_signature,
    signature_entries, unique_names, EntryView, SignatureEntry,
};
use crate::token::{is_punct, same_text, AttrTree, Token};

verus! {

/// A parameter of the native function: the receiver, or a named, typed one
/// (its type as source text).
#[derive(Clone, Debug)]
pub enum FnInput {
    Receiver,
    Typed { name: String, ty: String },
}

/// A native method marked for export, with the argument of its attribute.
pub struct Rbdef<'a> {
    pub fn_name: &'a str,
    pub inputs: &'a [FnInput],
    pub return_type: &'a str,
    /// The trees inside the attribute's parentheses; empty for a bare attribute.
    pub attr: &'a [AttrTree],
}

/// The single tokens of the attribute, in order: the external name.
pub open spec fn name_tokens(trees: Seq<AttrTree>) -> Seq<Token>
    decreases trees.len(),
{
    if trees.len() == 0 {
        Seq::empty()
    } else {
        match trees.last() {
            AttrTree::Single(t) => name_tokens(trees.drop_last()).push(t),
            AttrTree::Group(_) => name_tokens(trees.drop_last()),
        }
    }
}

/// The tokens of the attribute's first group, if it has one.
pub open spec fn first_group(trees: Seq<AttrTree>) -> Option<Seq<Token>>
    decreases trees.len(),
{
    if trees.len() == 0 {
        None
    } else {
        match first_group(trees.drop_last()) {
            Some(g) => Some(g),
            None => match trees.last() {
                AttrTree::Group(v) => Some(v@),
                AttrTree::Single(_) => None,
            },
        }
    }
}

/// The signature's tokens: those of the first group, or none.
pub open spec fn signature_tokens(trees: Seq<AttrTree>) -> Seq<Token> {
    match first_group(trees) {
        Some(g) => g,
        None => Seq::empty(),
    }
}

/// The named parameters, in order, as (name, type).
pub open spec fn typed_inputs(ins: Seq<FnInput>) -> Seq<(Seq<char>, Seq<char>)>
    decreases ins.len(),
{
    if ins.len() == 0 {
        Seq::empty()
    } else {
        match ins.last() {
            FnInput::Typed { name, ty } => typed_inputs(ins.drop_last()).push((name@, ty@)),
            FnInput::Receiver => typed_inputs(ins.drop_last()),
        }
    }
}

pub open spec fn has_receiver(ins: Seq<FnInput>) -> bool {
    exists|i: int| 0 <= i < ins.len() && ins[i] is Receiver
}

/// The argument built for parameter `p` from the signature's entries.
pub open spec fn argument_for(a: Argument, p: (Seq<char>, Seq<char>), es: Seq<EntryView>) -> bool {
    &&& a.name@ == p.0
    &&& a.ty@ == p.1
    &&& (a.kind, default_view(a.default_value)) == classify(lookup_entry(es, p.0))
}

pub open spec fn arguments_for(
    args: Seq<Argument>,
    ins: Seq<FnInput>,
    es: Seq<EntryView>,
) -> bool {
    &&& args.len() == typed_inputs(ins).len()
    &&& forall|k: int| 0 <= k < args.len() ==> argument_for(#[trigger] args[k], typed_inputs(ins)[k], es)
}

/// `m` is the model of a method with that name, parameters, return type and
/// attribute argument.
pub open spec fn is_method_info(
    m: Method,
    fn_name: Seq<char>,
    inputs: Seq<FnInput>,
    return_type: Seq<char>,
    attr: Seq<AttrTree>,
) -> bool {
    &&& m.wf()
    &&& m.fn_name@ == fn_name
    &&& m.return_type@ == return_type
    &&& m.kind == (if has_receiver(inputs) {
        MethodKind::Instance
    } else {
        MethodKind::Static
    })
    &&& m.def_name@ == name_tokens(attr)
    &&& entries_view(m.def_signature_map@) == signature_entries(signature_tokens(attr))
    &&& arguments_for(m.arguments@, inputs, entries_view(m.def_signature_map@))
}

pub(crate) fn copy_tokens(ts: &[Token]) -> (r: Vec<Token>)
    ensures
        r@ == ts@,
{
    let mut r: Vec<Token> = Vec::new();
    let mut i: usize = 0;
    while i < ts.len()
        invariant
            i <= ts@.len(),
            r@ == ts@.take(i as int),
        decreases ts@.len() - i,
    {
        r.push(ts[i].copied());
        proof {
            assert(r@ =~= ts@.take(i + 1));
        }
        i = i + 1;
    }
    assert(r@ =~= ts@);
    r
}

impl<'a> Rbdef<'a> {
    pub fn new(
        fn_name: &'a str,
        inputs: &'a [FnInput],
        return_type: &'a str,
        attr: &'a [AttrTree],
    ) -> (r: Self)
        ensures
            r.fn_name == fn_name,
            r.inputs == inputs,
            r.return_type == return_type,
            r.attr == attr,
    {
        Rbdef { fn_name, inputs, return_type, attr }
    }

    /// The method model: names, kind, and each parameter classified by the
    /// signature.
    pub fn method_info(&self) -> (r: Method)
        ensures
            is_method_info(r, self.fn_name@, self.inputs@, self.return_type@, self.attr@),
    {
        let (def_name, def_signature) = self.parse_attribute();
        let def_signature_map = Self::def_signature_map(&def_signature);
        let arguments = self.parse_arguments(&def_signature_map);
        Method {
            fn_name: String::from_str(self.fn_name),
            kind: self.parse_method_kind(),
            return_type: String::from_str(self.return_type),
            arguments,
            def_name,
            def_signature_map,
        }
    }

    /// Splits the attribute into the external name's tokens and the
    /// signature's tokens.
    pub fn parse_attribute(&self) -> (r: (Vec<Token>, Vec<Token>))
        ensures
            r.0@ == name_tokens(self.attr@),
            r.1@ == signature_tokens(self.attr@),
    {
        let mut names: Vec<Token> = Vec::new();
        let mut group: Option<Vec<Token>> = None;
        let mut i: usize = 0;
        while i < self.attr.len()
            invariant
                i <= self.attr@.len(),
                names@ == name_tokens(self.attr@.take(i as int)),
                match group {
                    Some(g) => first_group(self.attr@.take(i as int)) == Some(g@),
                    None => first_group(self.attr@.take(i as int)) is None,
                },
            decreases self.attr@.len() - i,
        {
            proof {
                assert(self.attr@.take(i + 1).drop_last() =~= self.attr@.take(i as int));
            }
            match &self.attr[i] {
                AttrTree::Single(t) => {
                    names.push(t.copied());
                },
                AttrTree::Group(ts) => {
                    if group.is_none() {
                        group = Some(copy_tokens(ts.as_slice()));
                    }
                },
            }
            i = i + 1;
        }
        assert(self.attr@.take(i as int) =~= self.attr@);
        let sig = match group {
            Some(g) => g,
            None => Vec::new(),
        };
        (names, sig)
    }

    /// The signature's entries, keyed by parameter name.
    pub fn def_signature_map(tokens: &Vec<Token>) -> (r: Vec<SignatureEntry>)
        ensures
            entries_view(r@) == signature_entries(tokens@),
            unique_names(entries_view(r@)),
    {
        let mut entries: Vec<SignatureEntry> = Vec::new();
        let mut cur: Vec<Token> = Vec::new();
        let mut i: usize = 0;
        assert(entries_view(entries@) =~= Seq::<EntryView>::empty());
        while i < tokens.len()
            invariant
                i <= tokens@.len(),
                (entries_view(entries@), cur@) == scan_signature(tokens@.take(i as int)),
                unique_names(entries_view(entries@)),
            decreases tokens@.len() - i,
        {
            proof {
                assert(tokens@.take(i + 1).drop_last() =~= tokens@.take(i as int));
            }
            if tokens[i].is_punct(',') {
                add_segment_exec(&mut entries, &cur);
                cur = Vec::new();
                proof {
                    assert(cur@ =~= Seq::<Token>::empty());
                }
            } else {
                cur.push(tokens[i].copied());
            }
            i = i + 1;
        }
        assert(tokens@.take(i as int) =~= tokens@);
        add_segment_exec(&mut entries, &cur);
        entries
    }

    /// Whether the method takes a receiver.
    pub fn parse_method_kind(&self) -> (r: MethodKind)
        ensures
            r == (if has_receiver(self.inputs@) {
                MethodKind::Instance
            } else {
                MethodKind::Static
            }),
    {
        let mut i: usize = 0;
        while i < self.inputs.len()
            invariant
                i <= self.inputs@.len(),
                forall|k: int| 0 <= k < i ==> !(self.inputs@[k] is Receiver),
            decreases self.inputs@.len() - i,
        {
            if let FnInput::Receiver = &self.inputs[i] {
                return MethodKind::Instance;
            }
            i = i + 1;
        }
        MethodKind::Static
    }

    /// The named parameters, each classified by its signature entry.
    pub fn parse_arguments(&self, def_signature_map: &Vec<SignatureEntry>) -> (r: Vec<Argument>)
        requires
            unique_names(entries_view(def_signature_map@)),
        ensures
            arguments_for(r@, self.inputs@, entries_view(def_signature_map@)),
    {
        let ghost es = entries_view(def_signature_map@);
        let mut args: Vec<Argument> = Vec::new();
        let mut i: usize = 0;
        while i < self.inputs.len()
            invariant
                i <= self.inputs@.len(),
                es == entries_view(def_signature_map@),
                unique_names(es),
                arguments_for(args@, self.inputs@.take(i as int), es),
            decreases self.inputs@.len() - i,
        {
            proof {
                assert(self.inputs@.take(i + 1).drop_last() =~= self.inputs@.take(i as int));
            }
            match &self.inputs[i] {
                FnInput::Typed { name, ty } => {
                    let (kind, default_value) = Self::arg_type_and_default_value(
                        def_signature_map,
                        name.as_str(),
                    );
                    let a = Argument { name: name.clone(), ty: ty.clone(), default_value, kind };
                    args.push(a);
                },
                FnInput::Receiver => {},
            }
            i = i + 1;
        }
        assert(self.inputs@.take(i as int) =~= self.inputs@);
        args
    }

    /// The binding kind and default of the parameter `name`.
    pub fn arg_type_and_default_value(
        def_signature_map: &Vec<SignatureEntry>,
        name: &str,
    ) -> (r: (ArgumentKind, Option<ArgumentDefaultValue>))
        requires
            unique_names(entries_view(def_signature_map@)),
        ensures
            (r.0, default_view(r.1)) == classify(lookup_entry(entries_view(def_signature_map@), name@)),
    {
        let ghost es = entries_view(def_signature_map@);
        let mut i: usize = 0;
        while i < def_signature_map.len()
            invariant
                i <= def_signature_map@.len(),
                es == entries_view(def_signature_map@),
                unique_names(es),
                forall|k: int| 0 <= k < i ==> (#[trigger] es[k]).name != name@,
            decreases def_signature_map@.len() - i,
        {
            let e = &def_signature_map[i];
            if same_text(e.name.as_str(), name) {
                proof {
                    assert(es[i as int].name == name@);
                    let c = choose|j: int| 0 <= j < es.len() && (#[trigger] es[j]).name == name@;
                    assert(es[c].name == es[i as int].name);
                }
                let ts = &e.tokens;
                assert(ts@ == es[i as int].tokens);
                assert(ts@.subrange(1, ts@.len() as int) =~= ts@.skip(1));
                if ts.len() > 0 && ts[0].is_punct('=') {
                    let d = ArgumentDefaultValue::from_tokens(vstd::slice::slice_subrange(ts.as_slice(), 1, ts.len()));
                    return (ArgumentKind::DArg, Some(d));
                } else if ts.len() > 0 && ts[0].is_punct(':') {
                    if ts.len() > 1 {
                        let d = ArgumentDefaultValue::from_tokens(vstd::slice::slice_subrange(ts.as_slice(), 1, ts.len()));
                        return (ArgumentKind::KwArg, Some(d));
                    } else {
                        return (ArgumentKind::KwArg, None);
                    }
                } else {
                    return (ArgumentKind::Arg, None);
                }
            }
            i = i + 1;
        }
        (ArgumentKind::Arg, None)
    }
}

} // verus!
