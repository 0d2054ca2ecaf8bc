use vstd::prelude::*;
use crate::diagnostic::Diagnostic;
use crate::render::{
    i128_literal, i128_literal_text, parse_i128, parsed_i128, string_literal,
    string_literal_text, usize_literal, usize_literal_text,
};
use crate::token::{concat_text, same_text, tokens_text, Token};

verus! {

/// A parameter of the native function, classified by how the runtime binds it.
#[derive(Clone, Debug)]
pub struct Argument {
    pub name: String,
    /// The parameter's declared type, as source text.
    pub ty: String,
    pub default_value: Option<ArgumentDefaultValue>,
    pub kind: ArgumentKind,
}

impl Argument {
    /// Checks that belong to a single argument; none is made so far.
    pub fn validate(&self) -> (r: Result<(), Diagnostic>)
        ensures
            r is Ok,
    {
        Ok(())
    }
}

/// A default value as written in a signature.
#[derive(Clone, Debug)]
pub enum ArgumentDefaultValue {
    Nil,
    Boolean(bool),
    StringLiteral(String),
    NumberLiteral(i128),
}

/// The value that an `ArgumentDefaultValue` stands for.
pub enum DefaultLiteral {
    Nil,
    Boolean(bool),
    Text(Seq<char>),
    Number(i128),
}

impl View for ArgumentDefaultValue {
    type V = DefaultLiteral;

    open spec fn view(&self) -> DefaultLiteral {
        match self {
            ArgumentDefaultValue::Nil => DefaultLiteral::Nil,
            ArgumentDefaultValue::Boolean(b) => DefaultLiteral::Boolean(*b),
            ArgumentDefaultValue::StringLiteral(s) => DefaultLiteral::Text(s@),
            ArgumentDefaultValue::NumberLiteral(n) => DefaultLiteral::Number(*n),
        }
    }
}

/// Text that starts and ends with a double quote.
pub open spec fn is_quoted(s: Seq<char>) -> bool {
    s.len() >= 2 && s[0] == '"' && s[s.len() - 1] == '"'
}

/// The default that a text denotes: `nil`, `true` and `false` by name, a
/// quoted text without its quotes, an integer numeral by value, and any other
/// text as it stands.
pub open spec fn default_of_text(s: Seq<char>) -> DefaultLiteral {
    if s == "nil"@ {
        DefaultLiteral::Nil
    } else if s == "true"@ {
        DefaultLiteral::Boolean(true)
    } else if s == "false"@ {
        DefaultLiteral::Boolean(false)
    } else if is_quoted(s) {
        DefaultLiteral::Text(s.subrange(1, s.len() - 1))
    } else {
        match parsed_i128(s) {
            Some(n) => DefaultLiteral::Number(n),
            None => DefaultLiteral::Text(s),
        }
    }
}

/// `nil` reads as nil, `true` and `false` as booleans, `42` as the number
/// 42, and every quoted text as the text between its quotes, exactly.
pub proof fn lemma_default_literals(s: Seq<char>)
    ensures
        default_of_text("nil"@) == DefaultLiteral::Nil,
        default_of_text("true"@) == DefaultLiteral::Boolean(true),
        default_of_text("false"@) == DefaultLiteral::Boolean(false),
        default_of_text("42"@) == DefaultLiteral::Number(42),
        default_of_text(seq!['"'] + s + seq!['"']) == DefaultLiteral::Text(s),
{
    reveal_strlit("nil");
    reveal_strlit("true");
    reveal_strlit("false");
    reveal_strlit("42");
    let q = seq!['"'] + s + seq!['"'];
    assert(q[0] == '"');
    assert(q[q.len() - 1] == '"');
    assert(q != "nil"@);
    assert(q != "true"@);
    assert(q != "false"@);
    assert(q.subrange(1, q.len() - 1) =~= s);
    let d = "42"@;
    assert(d.drop_last() =~= seq!['4']);
    assert(seq!['4'].drop_last() =~= Seq::<char>::empty());
    assert(('4' as int) - ('0' as int) == 4);
    assert(seq!['4'].last() == '4');
    assert(crate::render::digits_value(Seq::<char>::empty()) == 0);
    assert(d.last() == '2');
    assert(crate::render::digits_value(seq!['4']) == 4);
    assert(crate::render::digits_value(d) == 42);
    assert(crate::render::signed_decimal(d) == Some(42int));
}

/// The expression that builds a default value of the declared type `ty`.
pub open spec fn default_value_expr(d: DefaultLiteral, ty: Seq<char>) -> Seq<char> {
    match d {
        DefaultLiteral::Nil => "None"@,
        DefaultLiteral::Boolean(b) => if b {
            "Boolean::new(true)"@
        } else {
            "Boolean::new(false)"@
        },
        DefaultLiteral::Text(s) => "RString::from("@ + string_literal_text(s) + ")"@,
        DefaultLiteral::Number(n) => ty + "::new("@ + i128_literal_text(n) + ")"@,
    }
}

impl ArgumentDefaultValue {
    /// Reads a default value from the tokens that follow `=` or `:` in a
    /// signature. The declared type of the parameter is not consulted.
    pub fn from_tokens(tokens: &[Token]) -> (r: ArgumentDefaultValue)
        ensures
            r@ == default_of_text(tokens_text(tokens@)),
    {
        let s = concat_text(tokens);
        if same_text(s.as_str(), "nil") {
            return ArgumentDefaultValue::Nil;
        }
        if same_text(s.as_str(), "true") {
            return ArgumentDefaultValue::Boolean(true);
        }
        if same_text(s.as_str(), "false") {
            return ArgumentDefaultValue::Boolean(false);
        }
        let n = s.as_str().unicode_len();
        if n >= 2 && s.as_str().get_char(0) == '"' && s.as_str().get_char(n - 1) == '"' {
            let inner = s.as_str().substring_char(1, n - 1);
            return ArgumentDefaultValue::StringLiteral(String::from_str(inner));
        }
        match parse_i128(s.as_str()) {
            Some(v) => ArgumentDefaultValue::NumberLiteral(v),
            None => ArgumentDefaultValue::StringLiteral(s),
        }
    }

    /// The expression that builds this default for a parameter of type `ty`.
    pub fn to_default_value(&self, ty: &str) -> (r: String)
        ensures
            r@ == default_value_expr(self@, ty@),
    {
        match self {
            ArgumentDefaultValue::Nil => String::from_str("None"),
            ArgumentDefaultValue::Boolean(b) => if *b {
                String::from_str("Boolean::new(true)")
            } else {
                String::from_str("Boolean::new(false)")
            },
            ArgumentDefaultValue::StringLiteral(s) => {
                let mut r = String::from_str("RString::from(");
                r.append(string_literal(s.as_str()).as_str());
                r.append(")");
                r
            },
            ArgumentDefaultValue::NumberLiteral(n) => {
                let mut r = String::from_str(ty);
                r.append("::new(");
                r.append(i128_literal(*n).as_str());
                r.append(")");
                r
            },
        }
    }
}

/// How the runtime binds an argument: by position, by position with a
/// fallback default, or by name from a trailing keyword hash.
#[derive(Clone, Copy, Debug, PartialEq, Eq, Structural)]
pub enum ArgumentKind {
    Arg,
    DArg,
    KwArg,
}

/// The type of the binding-structure field that holds an argument of type `ty`.
pub open spec fn struct_field_type(kind: ArgumentKind, ty: Seq<char>) -> Seq<char> {
    match kind {
        ArgumentKind::Arg => "rutie_attr_backend::Arg<"@ + ty + ">"@,
        ArgumentKind::DArg => "rutie_attr_backend::DArg<"@ + ty + ">"@,
        ArgumentKind::KwArg => "rutie_attr_backend::KwArg<"@ + ty + ">"@,
    }
}

/// The expression that fills that field from the positional arguments, at
/// slot `index`, and from the table of defaults.
pub open spec fn field_init_expr(kind: ArgumentKind, index: usize, name: Seq<char>) -> Seq<char> {
    match kind {
        ArgumentKind::Arg => "rutie_attr_backend::Arg::from_arg(_arguments.get("@
            + usize_literal_text(index) + "))"@,
        ArgumentKind::DArg => "rutie_attr_backend::DArg::from_arg_with_default(_arguments.get("@
            + usize_literal_text(index) + "), default_value_map.get("@ + string_literal_text(name)
            + "))"@,
        ArgumentKind::KwArg =>
            "rutie_attr_backend::KwArg::from_arg_with_key_and_default(_arguments.get("@
            + usize_literal_text(index) + "), "@ + string_literal_text(name)
            + ", default_value_map.get("@ + string_literal_text(name) + "))"@,
    }
}

impl ArgumentKind {
    pub fn type_for_struct_field(&self, ty: &str) -> (r: String)
        ensures
            r@ == struct_field_type(*self, ty@),
    {
        let mut r = match self {
            ArgumentKind::Arg => String::from_str("rutie_attr_backend::Arg<"),
            ArgumentKind::DArg => String::from_str("rutie_attr_backend::DArg<"),
            ArgumentKind::KwArg => String::from_str("rutie_attr_backend::KwArg<"),
        };
        r.append(ty);
        r.append(">");
        r
    }

    pub fn expr_call_for_initialize_struct_field(&self, index: usize, field_name: &str) -> (r:
        String)
        ensures
            r@ == field_init_expr(*self, index, field_name@),
    {
        let idx = usize_literal(index);
        match self {
            ArgumentKind::Arg => {
                let mut r = String::from_str("rutie_attr_backend::Arg::from_arg(_arguments.get(");
                r.append(idx.as_str());
                r.append("))");
                r
            },
            ArgumentKind::DArg => {
                let name = string_literal(field_name);
                let mut r = String::from_str(
                    "rutie_attr_backend::DArg::from_arg_with_default(_arguments.get(",
                );
                r.append(idx.as_str());
                r.append("), default_value_map.get(");
                r.append(name.as_str());
                r.append("))");
                r
            },
            ArgumentKind::KwArg => {
                let name = string_literal(field_name);
                let mut r = String::from_str(
                    "rutie_attr_backend::KwArg::from_arg_with_key_and_default(_arguments.get(",
                );
                r.append(idx.as_str());
                r.append("), ");
                r.append(name.as_str());
                r.append(", default_value_map.get(");
                r.append(name.as_str());
                r.append("))");
                r
            },
        }
    }
}

} // verus!
