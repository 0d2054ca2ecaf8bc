use vstd::prelude::*;

verus! {

/// What a token of an attribute holds: an identifier, one punctuation
/// character, a literal as written, or a nested delimited group whose content
/// the signature grammar never reads.
#[derive(Clone, Debug)]
pub enum TokenKind {
    Ident(String),
    Punct(char),
    Literal(String),
    Group,
}

/// One token, with the position it was read at; diagnostics refer to tokens
/// by that position.
#[derive(Clone, Debug)]
pub struct Token {
    pub kind: TokenKind,
    pub span: usize,
}

/// A tree at the top level of an attribute's argument: a single token, or a
/// delimited group with its tokens.
#[derive(Clone, Debug)]
pub enum AttrTree {
    Single(Token),
    Group(Vec<Token>),
}

/// The text of a token as its display writes it; a nested group has none.
pub open spec fn token_text(t: Token) -> Seq<char> {
    match t.kind {
        TokenKind::Ident(s) => s@,
        TokenKind::Punct(c) => seq![c],
        TokenKind::Literal(s) => s@,
        TokenKind::Group => Seq::empty(),
    }
}

/// The texts of the tokens, one after the other.
pub open spec fn tokens_text(ts: Seq<Token>) -> Seq<char>
    decreases ts.len(),
{
    if ts.len() == 0 {
        Seq::empty()
    } else {
        tokens_text(ts.drop_last()) + token_text(ts.last())
    }
}

pub open spec fn is_punct(t: Token, c: char) -> bool {
    t.kind matches TokenKind::Punct(p) && p == c
}

impl Token {
    /// A copy of the token.
    pub fn copied(&self) -> (r: Token)
        ensures
            r == *self,
    {
        let kind = match &self.kind {
            TokenKind::Ident(s) => TokenKind::Ident(s.clone()),
            TokenKind::Punct(c) => TokenKind::Punct(*c),
            TokenKind::Literal(s) => TokenKind::Literal(s.clone()),
            TokenKind::Group => TokenKind::Group,
        };
        Token { kind, span: self.span }
    }

    pub fn is_punct(&self, c: char) -> (r: bool)
        ensures
            r == is_punct(*self, c),
    {
        match &self.kind {
            TokenKind::Punct(p) => *p == c,
            _ => false,
        }
    }

    /// The token's text.
    pub fn text(&self) -> (r: String)
        ensures
            r@ == token_text(*self),
    {
        match &self.kind {
            TokenKind::Ident(s) => s.clone(),
            TokenKind::Punct(c) => crate::util::char_text(*c),
            TokenKind::Literal(s) => s.clone(),
            TokenKind::Group => String::new(),
        }
    }
}

/// The texts of all tokens, concatenated.
pub fn concat_text(ts: &[Token]) -> (r: String)
    ensures
        r@ == tokens_text(ts@),
{
    let mut r = String::new();
    let mut i: usize = 0;
    while i < ts.len()
        invariant
            i <= ts@.len(),
            r@ == tokens_text(ts@.take(i as int)),
        decreases ts@.len() - i,
    {
        let t = ts[i].text();
        r.append(t.as_str());
        proof {
            assert(ts@.take(i + 1).drop_last() =~= ts@.take(i as int));
        }
        i = i + 1;
    }
    proof {
        assert(ts@.take(i as int) =~= ts@);
    }
    r
}

/// Whether two texts are the same, character by character.
pub fn same_text(a: &str, b: &str) -> (r: bool)
    ensures
        r == (a@ == b@),
{
    let n = a.unicode_len();
    if n != b.unicode_len() {
        return false;
    }
    let mut i: usize = 0;
    while i < n
        invariant
            n == a@.len(),
            n == b@.len(),
            i <= n,
            forall|k: int| 0 <= k < i ==> a@[k] == b@[k],
        decreases n - i,
    {
        if a.get_char(i) != b.get_char(i) {
            return false;
        }
        i = i + 1;
    }
    assert(a@ =~= b@);
    true
}

} // verus!
