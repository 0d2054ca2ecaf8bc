use vstd::prelude::*;
use crate::argument::{is_quoted, Argument, ArgumentKind};
use crate::diagnostic::{combined_errors, Diagnostic, DiagnosticKind, Diagnostics};
use crate::signature::{entries_view, unique_names, EntryView, SignatureEntry};
use crate::token::{concat_text, is_punct, same_text, tokens_text, Token, TokenKind};

verus! {

/// Whether a method is called on an instance or on the class.
#[derive(Clone, Copy, Debug, PartialEq, Eq, Structural)]
pub enum MethodKind {
    Static,
    Instance,
}

/// A native method together with how the runtime sees it.
#[derive(Debug)]
pub struct Method {
    pub fn_name: String,
    pub kind: MethodKind,
    /// The return type as source text; empty when the method returns `()`.
    pub return_type: String,
    /// The parameters other than the receiver, in declaration order.
    pub arguments: Vec<Argument>,
    /// The tokens that name the method for the runtime; empty for the
    /// native name.
    pub def_name: Vec<Token>,
    pub def_signature_map: Vec<SignatureEntry>,
}

/// The number of arguments that take a positional slot.
pub open spec fn positional_count(args: Seq<Argument>) -> nat
    decreases args.len(),
{
    if args.len() == 0 {
        0
    } else {
        positional_count(args.drop_last()) + if args.last().kind == ArgumentKind::KwArg {
            0nat
        } else {
            1nat
        }
    }
}

/// The slot of argument `k` in the positional arguments: the number of
/// positional arguments before it. Keyword arguments share the slot after
/// the positional ones that precede them, where the keyword hash is passed.
pub open spec fn positional_index(args: Seq<Argument>, k: int) -> nat {
    positional_count(args.take(k))
}

/// With positional arguments first and keyword arguments after them, the
/// `i`-th positional argument (from zero) takes slot `i`, and every keyword
/// argument takes the slot right after the last positional one.
pub proof fn lemma_positional_index(args: Seq<Argument>, n: int)
    requires
        0 <= n <= args.len(),
        forall|k: int| 0 <= k < n ==> (#[trigger] args[k]).kind != ArgumentKind::KwArg,
        forall|k: int| n <= k < args.len() ==> (#[trigger] args[k]).kind == ArgumentKind::KwArg,
    ensures
        forall|k: int| 0 <= k < n ==> positional_index(args, k) == k,
        forall|k: int| n <= k < args.len() ==> positional_index(args, k) == n,
{
    assert forall|k: int| 0 <= k <= args.len() implies positional_count(#[trigger] args.take(k))
        == if k <= n {
        k
    } else {
        n
    } by {
        lemma_count_prefix(args, n, k);
    }
    assert forall|k: int| 0 <= k < n implies positional_index(args, k) == k by {
        assert(positional_count(args.take(k)) == k);
    }
    assert forall|k: int| n <= k < args.len() implies positional_index(args, k) == n by {
        assert(positional_count(args.take(k)) == n);
    }
}

proof fn lemma_count_prefix(args: Seq<Argument>, n: int, k: int)
    requires
        0 <= n <= args.len(),
        0 <= k <= args.len(),
        forall|j: int| 0 <= j < n ==> (#[trigger] args[j]).kind != ArgumentKind::KwArg,
        forall|j: int| n <= j < args.len() ==> (#[trigger] args[j]).kind == ArgumentKind::KwArg,
    ensures
        positional_count(args.take(k)) == if k <= n {
            k
        } else {
            n
        },
    decreases k,
{
    if k > 0 {
        lemma_count_prefix(args, n, k - 1);
        assert(args.take(k).drop_last() =~= args.take(k - 1));
        assert(args.take(k).last() == args[k - 1]);
    }
}

/// Whether `char::is_alphabetic` holds of a character.
pub uninterp spec fn alphabetic(c: char) -> bool;

/// Whether `char::is_alphanumeric` holds of a character.
pub uninterp spec fn alphanumeric(c: char) -> bool;

/// Relies on `char::is_alphabetic`: the Unicode `Alphabetic` property of the
/// character.
#[verifier::external_body]
fn char_is_alphabetic(c: char) -> (r: bool)
    ensures
        r == alphabetic(c),
{
    c.is_alphabetic()
}

/// Relies on `char::is_alphanumeric`: the character is alphabetic or numeric.
#[verifier::external_body]
fn char_is_alphanumeric(c: char) -> (r: bool)
    ensures
        r == alphanumeric(c),
{
    c.is_alphanumeric()
}

/// An identifier: a letter or underscore, then letters, digits or underscores.
pub open spec fn is_identifier(s: Seq<char>) -> bool {
    &&& s.len() > 0
    &&& (alphabetic(s[0]) || s[0] == '_')
    &&& forall|i: int| 1 <= i < s.len() ==> alphanumeric(#[trigger] s[i]) || s[i] == '_'
}

/// A name the runtime accepts for a method: an identifier, optionally
/// followed by one `!` or `?`.
pub open spec fn valid_external_name(s: Seq<char>) -> bool {
    ||| is_identifier(s)
    ||| s.len() >= 2 && is_identifier(s.drop_last()) && (s.last() == '!' || s.last() == '?')
}

/// Whether a text is an identifier.
pub fn is_identifier_text(s: &str) -> (r: bool)
    ensures
        r == is_identifier(s@),
{
    let n = s.unicode_len();
    if n == 0 {
        return false;
    }
    let c0 = s.get_char(0);
    if !(char_is_alphabetic(c0) || c0 == '_') {
        return false;
    }
    let mut i: usize = 1;
    while i < n
        invariant
            n == s@.len(),
            1 <= i <= n,
            forall|k: int| 1 <= k < i ==> alphanumeric(#[trigger] s@[k]) || s@[k] == '_',
        decreases n - i,
    {
        let c = s.get_char(i);
        if !(char_is_alphanumeric(c) || c == '_') {
            return false;
        }
        i = i + 1;
    }
    true
}

/// Whether a text is a valid external method name.
pub fn is_valid_external_name(s: &str) -> (r: bool)
    ensures
        r == valid_external_name(s@),
{
    if is_identifier_text(s) {
        return true;
    }
    let n = s.unicode_len();
    if n < 2 {
        return false;
    }
    let last = s.get_char(n - 1);
    let stem = s.substring_char(0, n - 1);
    assert(stem@ =~= s@.drop_last());
    (last == '!' || last == '?') && is_identifier_text(stem)
}

/// The external name given as `name = "text"`.
pub open spec fn is_key_form(ts: Seq<Token>) -> bool {
    &&& ts.len() == 3
    &&& ts[0].kind matches TokenKind::Ident(k) && k@ == "name"@
    &&& is_punct(ts[1], '=')
    &&& ts[2].kind matches TokenKind::Literal(l) && is_quoted(l@)
}

/// The text of the quoted literal of the key form, without its quotes.
pub open spec fn key_form_text(ts: Seq<Token>) -> Seq<char> {
    let l = ts[2].kind->Literal_0@;
    l.subrange(1, l.len() - 1)
}

/// The diagnostic for a malformed external name, if it is one. An empty
/// name stands for the native name. In the key form the quoted text must
/// be valid; otherwise the tokens must be an identifier token, optionally
/// followed by one `!` or `?`, and the first token out of place is reported.
pub open spec fn def_name_diagnostic(ts: Seq<Token>) -> Option<Diagnostic> {
    if ts.len() == 0 {
        None
    } else if is_key_form(ts) {
        if valid_external_name(key_form_text(ts)) {
            None
        } else {
            Some(Diagnostic { kind: DiagnosticKind::ExternalName, span: Some(ts[2].span) })
        }
    } else if !(ts[0].kind is Ident) {
        Some(Diagnostic { kind: DiagnosticKind::ExternalName, span: Some(ts[0].span) })
    } else if ts.len() >= 2 && !(ts[1].kind is Punct) {
        Some(Diagnostic { kind: DiagnosticKind::ExternalName, span: Some(ts[1].span) })
    } else if ts.len() >= 2 && !is_punct(ts[1], '!') && !is_punct(ts[1], '?') {
        Some(Diagnostic { kind: DiagnosticKind::ExternalNameSuffix, span: Some(ts[1].span) })
    } else if ts.len() >= 3 {
        Some(Diagnostic { kind: DiagnosticKind::ExternalName, span: Some(ts[2].span) })
    } else {
        None
    }
}

/// The name under which the runtime sees a method.
pub open spec fn external_name(fn_name: Seq<char>, ts: Seq<Token>) -> Seq<char> {
    if ts.len() == 0 {
        fn_name
    } else if is_key_form(ts) {
        key_form_text(ts)
    } else {
        tokens_text(ts)
    }
}

pub open spec fn has_argument_named(args: Seq<Argument>, name: Seq<char>) -> bool {
    exists|k: int| 0 <= k < args.len() && (#[trigger] args[k]).name@ == name
}

/// The signature entries that name no argument, in order.
pub open spec fn unknown_keys(es: Seq<EntryView>, args: Seq<Argument>) -> Seq<EntryView>
    decreases es.len(),
{
    if es.len() == 0 {
        Seq::empty()
    } else if has_argument_named(args, es.last().name) {
        unknown_keys(es.drop_last(), args)
    } else {
        unknown_keys(es.drop_last(), args).push(es.last())
    }
}

/// The keys reported are exactly the signature's keys that name no
/// argument; the report holds one diagnostic per such key, pointing at it,
/// and none for a key that names an argument.
pub proof fn lemma_unknown_keys(es: Seq<EntryView>, args: Seq<Argument>)
    ensures
        forall|e: EntryView|
            unknown_keys(es, args).contains(e) <==> (es.contains(e) && !has_argument_named(args, e.name)),
        key_diagnostics(unknown_keys(es, args)).len() == unknown_keys(es, args).len(),
        forall|k: int|
            0 <= k < unknown_keys(es, args).len() ==> (#[trigger] key_diagnostics(unknown_keys(es, args))[k])
                == unknown_key_diagnostic(unknown_keys(es, args)[k]),
    decreases es.len(),
{
    if es.len() > 0 {
        let init = es.drop_last();
        lemma_unknown_keys(init, args);
        assert forall|e: EntryView| es.contains(e) <==> (init.contains(e) || e == es.last()) by {
            if es.contains(e) {
                let i = choose|i: int| 0 <= i < es.len() && es[i] == e;
                if i < init.len() {
                    assert(init[i] == e);
                }
            }
            if init.contains(e) {
                let i = choose|i: int| 0 <= i < init.len() && init[i] == e;
                assert(es[i] == e);
            }
            if e == es.last() {
                assert(es[es.len() - 1] == e);
            }
        }
        let u0 = unknown_keys(init, args);
        if !has_argument_named(args, es.last().name) {
            assert forall|e: EntryView| u0.push(es.last()).contains(e) <==> (u0.contains(e) || e == es.last()) by {
                if u0.push(es.last()).contains(e) {
                    let i = choose|i: int| 0 <= i < u0.len() + 1 && u0.push(es.last())[i] == e;
                    if i < u0.len() {
                        assert(u0[i] == e);
                    }
                }
                if u0.contains(e) {
                    let i = choose|i: int| 0 <= i < u0.len() && u0[i] == e;
                    assert(u0.push(es.last())[i] == e);
                }
                if e == es.last() {
                    assert(u0.push(es.last())[u0.len() as int] == e);
                }
            }
        }
    }
}

/// The diagnostic for a signature key that names no argument: it points
/// at the key.
pub open spec fn unknown_key_diagnostic(e: EntryView) -> Diagnostic {
    Diagnostic { kind: DiagnosticKind::UnknownSignatureKey, span: Some(e.span) }
}

/// One diagnostic per unknown key, in order.
pub open spec fn key_diagnostics(uk: Seq<EntryView>) -> Seq<Diagnostic> {
    uk.map_values(|e: EntryView| unknown_key_diagnostic(e))
}

/// All diagnostics of a method: the external name's, then one per signature
/// key that names no argument.
pub open spec fn method_diagnostics(m: Method) -> Seq<Diagnostic> {
    let head = match def_name_diagnostic(m.def_name@) {
        Some(d) => seq![d],
        None => Seq::empty(),
    };
    head + key_diagnostics(unknown_keys(entries_view(m.def_signature_map@), m.arguments@))
}

impl Method {
    pub open spec fn wf(&self) -> bool {
        unique_names(entries_view(self.def_signature_map@))
    }

    /// The slot of each argument in the positional arguments.
    pub fn arguments_order(&self) -> (r: Vec<usize>)
        ensures
            r@.len() == self.arguments@.len(),
            forall|k: int| 0 <= k < r@.len() ==> r@[k] == positional_index(self.arguments@, k),
    {
        let mut r: Vec<usize> = Vec::new();
        let mut i: usize = 0;
        let mut slot: usize = 0;
        while i < self.arguments.len()
            invariant
                i <= self.arguments@.len(),
                slot == positional_count(self.arguments@.take(i as int)),
                slot <= i,
                r@.len() == i,
                forall|k: int| 0 <= k < i ==> r@[k] == positional_index(self.arguments@, k),
            decreases self.arguments@.len() - i,
        {
            r.push(slot);
            proof {
                assert(self.arguments@.take(i + 1).drop_last() =~= self.arguments@.take(i as int));
            }
            if self.arguments[i].kind != ArgumentKind::KwArg {
                slot = slot + 1;
            }
            i = i + 1;
        }
        r
    }

    /// The name under which the runtime sees the method.
    pub fn def_name(&self) -> (r: String)
        ensures
            r@ == external_name(self.fn_name@, self.def_name@),
    {
        let ts = &self.def_name;
        if ts.len() == 0 {
            return self.fn_name.clone();
        }
        if let Some(l) = self.key_form_literal() {
            let n = l.unicode_len();
            return String::from_str(l.substring_char(1, n - 1));
        }
        concat_text(ts.as_slice())
    }

    /// The quoted literal of the key form `name = "text"`, if the name is
    /// written so.
    fn key_form_literal(&self) -> (r: Option<&String>)
        ensures
            is_key_form(self.def_name@) <==> r is Some,
            r matches Some(l) ==> self.def_name@[2].kind == TokenKind::Literal(*l),
    {
        let ts = &self.def_name;
        if ts.len() != 3 || !ts[1].is_punct('=') {
            return None;
        }
        let is_name_key = match &ts[0].kind {
            TokenKind::Ident(k) => same_text(k.as_str(), "name"),
            _ => false,
        };
        if !is_name_key {
            return None;
        }
        match &ts[2].kind {
            TokenKind::Literal(l) => {
                let n = l.unicode_len();
                if n >= 2 && l.get_char(0) == '"' && l.get_char(n - 1) == '"' {
                    Some(l)
                } else {
                    None
                }
            },
            _ => None,
        }
    }

    pub fn validate_def_name(&self) -> (r: Result<(), Diagnostic>)
        ensures
            match def_name_diagnostic(self.def_name@) {
                Some(d) => r == Err::<(), Diagnostic>(d),
                None => r is Ok,
            },
    {
        let ts = &self.def_name;
        if ts.len() == 0 {
            return Ok(());
        }
        if let Some(l) = self.key_form_literal() {
            let n = l.unicode_len();
            let inner = l.substring_char(1, n - 1);
            if is_valid_external_name(inner) {
                return Ok(());
            } else {
                return Err(Diagnostic { kind: DiagnosticKind::ExternalName, span: Some(ts[2].span) });
            }
        }
        let first_ok = match &ts[0].kind {
            TokenKind::Ident(_) => true,
            _ => false,
        };
        if !first_ok {
            return Err(Diagnostic { kind: DiagnosticKind::ExternalName, span: Some(ts[0].span) });
        }
        if ts.len() >= 2 {
            match &ts[1].kind {
                TokenKind::Punct(c) => {
                    if *c != '!' && *c != '?' {
                        return Err(
                            Diagnostic {
                                kind: DiagnosticKind::ExternalNameSuffix,
                                span: Some(ts[1].span),
                            },
                        );
                    }
                },
                _ => {
                    return Err(Diagnostic { kind: DiagnosticKind::ExternalName, span: Some(ts[1].span) });
                },
            }
        }
        if ts.len() >= 3 {
            return Err(Diagnostic { kind: DiagnosticKind::ExternalName, span: Some(ts[2].span) });
        }
        Ok(())
    }

    /// Whether some argument has the given name.
    fn has_argument(&self, name: &str) -> (r: bool)
        ensures
            r == has_argument_named(self.arguments@, name@),
    {
        let mut k: usize = 0;
        while k < self.arguments.len()
            invariant
                k <= self.arguments@.len(),
                forall|j: int| 0 <= j < k ==> (#[trigger] self.arguments@[j]).name@ != name@,
            decreases self.arguments@.len() - k,
        {
            if same_text(self.arguments[k].name.as_str(), name) {
                return true;
            }
            k = k + 1;
        }
        false
    }

    /// One diagnostic for each signature key that names no argument.
    pub fn unknown_key_errors(&self) -> (r: Vec<Diagnostic>)
        ensures
            r@ == key_diagnostics(unknown_keys(entries_view(self.def_signature_map@), self.arguments@)),
    {
        let ghost es = entries_view(self.def_signature_map@);
        let mut r: Vec<Diagnostic> = Vec::new();
        let mut i: usize = 0;
        while i < self.def_signature_map.len()
            invariant
                i <= self.def_signature_map@.len(),
                es == entries_view(self.def_signature_map@),
                r@ == key_diagnostics(unknown_keys(es.take(i as int), self.arguments@)),
            decreases self.def_signature_map@.len() - i,
        {
            proof {
                assert(es.take(i + 1).drop_last() =~= es.take(i as int));
                assert(es.take(i + 1).last() == es[i as int]);
            }
            let e = &self.def_signature_map[i];
            if !self.has_argument(e.name.as_str()) {
                r.push(
                    Diagnostic {
                        kind: DiagnosticKind::UnknownSignatureKey,
                        span: Some(e.name_span),
                    },
                );
            }
            i = i + 1;
        }
        assert(es.take(i as int) =~= es);
        r
    }

    /// Every signature key must name an argument; all that do not are
    /// reported together.
    pub fn validate_def_signature(&self) -> (r: Result<(), Diagnostics>)
        ensures
            match r {
                Ok(()) => unknown_keys(entries_view(self.def_signature_map@), self.arguments@).len() == 0,
                Err(d) => d.items@.len() > 0 && d.items@ == key_diagnostics(
                    unknown_keys(entries_view(self.def_signature_map@), self.arguments@),
                ),
            },
    {
        match combined_errors(self.unknown_key_errors()) {
            Some(d) => Err(d),
            None => Ok(()),
        }
    }

    /// Runs all checks on the method and reports every failure at once.
    pub fn validate(&self) -> (r: Result<(), Diagnostics>)
        ensures
            r is Ok <==> method_diagnostics(*self).len() == 0,
            r matches Err(d) ==> d.items@ == method_diagnostics(*self),
    {
        let mut errors: Vec<Diagnostic> = Vec::new();
        if let Err(d) = self.validate_def_name() {
            errors.push(d);
        }
        let mut keys = self.unknown_key_errors();
        let ghost ks = keys@;
        let ghost e0 = errors@;
        errors.append(&mut keys);
        let mut k: usize = 0;
        while k < self.arguments.len()
            invariant
                errors@ == e0 + ks,
            decreases self.arguments@.len() - k,
        {
            if let Err(d) = self.arguments[k].validate() {
                errors.push(d);
            }
            k = k + 1;
        }
        proof {
            assert(errors@ =~= method_diagnostics(*self));
        }
        match combined_errors(errors) {
            Some(d) => Err(d),
            None => Ok(()),
        }
    }
}

} // verus!
