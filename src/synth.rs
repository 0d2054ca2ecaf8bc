use vstd::prelude::*;
use crate::argument::{
    default_value_expr, field_init_expr, struct_field_type, Argument,
};
use crate::method::{positional_index, Method, MethodKind};
use crate::render::{string_literal, string_literal_text};
use crate::util::{uppercase_first, uppercase_first_letter};

verus! {

/// The binding structure's name for a method of class `class`.
pub open spec fn struct_name_text(class: Seq<char>, fn_name: Seq<char>) -> Seq<char> {
    class + uppercase_first(fn_name) + "Method"@
}

/// The field declarations of the first `n` arguments.
pub open spec fn field_decls(args: Seq<Argument>, n: int) -> Seq<char>
    decreases n,
{
    if n <= 0 {
        Seq::empty()
    } else {
        field_decls(args, n - 1) + (args[n - 1].name@ + ": "@ + struct_field_type(
            args[n - 1].kind,
            args[n - 1].ty@,
        ) + ", "@)
    }
}

/// The field initialisers of the first `n` arguments, each reading its slot.
pub open spec fn field_inits(args: Seq<Argument>, n: int) -> Seq<char>
    decreases n,
{
    if n <= 0 {
        Seq::empty()
    } else {
        field_inits(args, n - 1) + (args[n - 1].name@ + ": "@ + field_init_expr(
            args[n - 1].kind,
            positional_index(args, n - 1) as usize,
            args[n - 1].name@,
        ) + ", "@)
    }
}

/// The checks of the first `n` arguments, in declaration order: the first
/// failed conversion is returned.
pub open spec fn failure_checks(args: Seq<Argument>, n: int) -> Seq<char>
    decreases n,
{
    if n <= 0 {
        Seq::empty()
    } else {
        failure_checks(args, n - 1) + ("if let Err(e) = &self."@ + args[n - 1].name@
            + ".result { return Some(e); } "@)
    }
}

/// One accessor per argument that unwraps its converted value.
pub open spec fn accessors(args: Seq<Argument>, n: int) -> Seq<char>
    decreases n,
{
    if n <= 0 {
        Seq::empty()
    } else {
        accessors(args, n - 1) + ("fn "@ + args[n - 1].name@ + "(&self) -> "@ + args[n - 1].ty@
            + " { self."@ + args[n - 1].name@
            + ".result.as_ref().ok().unwrap().value().clone().into() } "@)
    }
}

/// The call's arguments: each argument's accessor, in order.
pub open spec fn call_args(args: Seq<Argument>, n: int) -> Seq<char>
    decreases n,
{
    if n <= 0 {
        Seq::empty()
    } else {
        call_args(args, n - 1) + ("self."@ + args[n - 1].name@ + "(), "@)
    }
}

/// The entries of the table of defaults, for the arguments that have one.
pub open spec fn default_inserts(args: Seq<Argument>, n: int) -> Seq<char>
    decreases n,
{
    if n <= 0 {
        Seq::empty()
    } else {
        default_inserts(args, n - 1) + match args[n - 1].default_value {
            Some(d) => "default_value_map.insert("@ + string_literal_text(args[n - 1].name@) + ", "@
                + default_value_expr(d@, args[n - 1].ty@) + ".to_any_object()); "@,
            None => Seq::empty(),
        }
    }
}

/// The call of the native function with every argument's value.
pub open spec fn fn_call_expr_text(m: Method) -> Seq<char> {
    m.fn_name@ + "("@ + call_args(m.arguments@, m.arguments@.len() as int) + ")"@
}

/// The body of `invoke` once no conversion failed: an instance method first
/// rebuilds the native value from the receiver and returns its error, if any.
pub open spec fn invoke_call_text(m: Method, class: Seq<char>, rutie_class: Seq<char>) -> Seq<char> {
    match m.kind {
        MethodKind::Instance => "let _self = "@ + class + "::try_from("@ + rutie_class
            + " { value: self.rtself.value() }); if let Err(e) = _self { return e.to_any_object(); } let result = _self.unwrap()."@
            + fn_call_expr_text(m) + "; result.to_any_object()"@,
        MethodKind::Static => "let result = "@ + class + "::"@ + fn_call_expr_text(m)
            + "; result.to_any_object()"@,
    }
}

/// The binding structure: the receiver, then one field per argument.
pub open spec fn method_struct_text(m: Method, rutie_class: Seq<char>) -> Seq<char> {
    "struct "@ + struct_name_text(rutie_class, m.fn_name@) + " { rtself: "@ + rutie_class + ", "@
        + field_decls(m.arguments@, m.arguments@.len() as int) + "}"@
}

/// The binding structure's methods: its constructor, the fail-fast check,
/// the accessors, and `invoke`.
pub open spec fn method_struct_impl_text(m: Method, class: Seq<char>, rutie_class: Seq<char>) -> Seq<
    char,
> {
    let n = m.arguments@.len() as int;
    "impl "@ + struct_name_text(rutie_class, m.fn_name@)
        + " { pub fn new(_arguments: &[rutie::AnyObject], rtself: "@ + rutie_class
        + ", default_value_map: &std::collections::HashMap<&str, rutie::AnyObject>) -> Self { Self { rtself: rtself, "@
        + field_inits(m.arguments@, n)
        + "} } fn exception(&self) -> Option<&rutie::AnyException> { "@ + failure_checks(
        m.arguments@,
        n,
    ) + "return None; } "@ + accessors(m.arguments@, n)
        + "pub fn invoke(&self) -> rutie::AnyObject { if let Some(e) = self.exception() { return e.to_any_object(); } "@
        + invoke_call_text(m, class, rutie_class) + " } }"@
}

/// The body of the boundary function: read the positional arguments, build
/// the table of defaults, bind, and invoke.
pub open spec fn fn_call_text(m: Method, rutie_class: Seq<char>) -> Seq<char> {
    "let _arguments = rutie::util::parse_arguments(argc, argv); let mut default_value_map = std::collections::HashMap::new(); "@
        + default_inserts(m.arguments@, m.arguments@.len() as int) + struct_name_text(
        rutie_class,
        m.fn_name@,
    ) + "::new(&_arguments, _rtself, &default_value_map).invoke()"@
}

fn field_decl(a: &Argument) -> (r: String)
    ensures
        r@ == a.name@ + ": "@ + struct_field_type(a.kind, a.ty@) + ", "@,
{
    let mut r = a.name.clone();
    r.append(": ");
    r.append(a.kind.type_for_struct_field(a.ty.as_str()).as_str());
    r.append(", ");
    r
}

fn failure_check(a: &Argument) -> (r: String)
    ensures
        r@ == "if let Err(e) = &self."@ + a.name@ + ".result { return Some(e); } "@,
{
    let mut r = String::from_str("if let Err(e) = &self.");
    r.append(a.name.as_str());
    r.append(".result { return Some(e); } ");
    r
}

fn accessor(a: &Argument) -> (r: String)
    ensures
        r@ == "fn "@ + a.name@ + "(&self) -> "@ + a.ty@ + " { self."@ + a.name@
            + ".result.as_ref().ok().unwrap().value().clone().into() } "@,
{
    let mut r = String::from_str("fn ");
    r.append(a.name.as_str());
    r.append("(&self) -> ");
    r.append(a.ty.as_str());
    r.append(" { self.");
    r.append(a.name.as_str());
    r.append(".result.as_ref().ok().unwrap().value().clone().into() } ");
    r
}

fn call_arg(a: &Argument) -> (r: String)
    ensures
        r@ == "self."@ + a.name@ + "(), "@,
{
    let mut r = String::from_str("self.");
    r.append(a.name.as_str());
    r.append("(), ");
    r
}

fn default_insert(a: &Argument) -> (r: String)
    ensures
        r@ == match a.default_value {
            Some(d) => "default_value_map.insert("@ + string_literal_text(a.name@) + ", "@
                + default_value_expr(d@, a.ty@) + ".to_any_object()); "@,
            None => Seq::empty(),
        },
{
    match &a.default_value {
        Some(d) => {
            let mut r = String::from_str("default_value_map.insert(");
            r.append(string_literal(a.name.as_str()).as_str());
            r.append(", ");
            r.append(d.to_default_value(a.ty.as_str()).as_str());
            r.append(".to_any_object()); ");
            r
        },
        None => String::new(),
    }
}

impl Method {
    /// The name of the method's binding structure.
    pub fn method_struct_name(&self, class_name: &str) -> (r: String)
        ensures
            r@ == struct_name_text(class_name@, self.fn_name@),
    {
        let mut r = String::from_str(class_name);
        r.append(uppercase_first_letter(self.fn_name.as_str()).as_str());
        r.append("Method");
        r
    }

    fn method_struct_fields(&self) -> (r: String)
        ensures
            r@ == field_decls(self.arguments@, self.arguments@.len() as int),
    {
        let mut r = String::new();
        let mut i: usize = 0;
        while i < self.arguments.len()
            invariant
                i <= self.arguments@.len(),
                r@ == field_decls(self.arguments@, i as int),
            decreases self.arguments@.len() - i,
        {
            r.append(field_decl(&self.arguments[i]).as_str());
            i = i + 1;
        }
        r
    }

    fn method_struct_impl_field_value_exprs(&self) -> (r: String)
        ensures
            r@ == field_inits(self.arguments@, self.arguments@.len() as int),
    {
        let orders = self.arguments_order();
        let mut r = String::new();
        let mut i: usize = 0;
        while i < self.arguments.len()
            invariant
                i <= self.arguments@.len(),
                orders@.len() == self.arguments@.len(),
                forall|k: int| 0 <= k < orders@.len() ==> orders@[k] == positional_index(self.arguments@, k),
                r@ == field_inits(self.arguments@, i as int),
            decreases self.arguments@.len() - i,
        {
            let a = &self.arguments[i];
            let mut piece = a.name.clone();
            piece.append(": ");
            piece.append(
                a.kind.expr_call_for_initialize_struct_field(orders[i], a.name.as_str()).as_str(),
            );
            piece.append(", ");
            r.append(piece.as_str());
            i = i + 1;
        }
        r
    }

    fn method_exception_block_from_arguments(&self) -> (r: String)
        ensures
            r@ == failure_checks(self.arguments@, self.arguments@.len() as int),
    {
        let mut r = String::new();
        let mut i: usize = 0;
        while i < self.arguments.len()
            invariant
                i <= self.arguments@.len(),
                r@ == failure_checks(self.arguments@, i as int),
            decreases self.arguments@.len() - i,
        {
            r.append(failure_check(&self.arguments[i]).as_str());
            i = i + 1;
        }
        r
    }

    fn method_argument_methods(&self) -> (r: String)
        ensures
            r@ == accessors(self.arguments@, self.arguments@.len() as int),
    {
        let mut r = String::new();
        let mut i: usize = 0;
        while i < self.arguments.len()
            invariant
                i <= self.arguments@.len(),
                r@ == accessors(self.arguments@, i as int),
            decreases self.arguments@.len() - i,
        {
            r.append(accessor(&self.arguments[i]).as_str());
            i = i + 1;
        }
        r
    }

    fn method_fn_call_expr(&self) -> (r: String)
        ensures
            r@ == fn_call_expr_text(*self),
    {
        let mut args = String::new();
        let mut i: usize = 0;
        while i < self.arguments.len()
            invariant
                i <= self.arguments@.len(),
                args@ == call_args(self.arguments@, i as int),
            decreases self.arguments@.len() - i,
        {
            args.append(call_arg(&self.arguments[i]).as_str());
            i = i + 1;
        }
        let mut r = self.fn_name.clone();
        r.append("(");
        r.append(args.as_str());
        r.append(")");
        r
    }

    fn method_fn_call(&self, class_name: &str, rutie_class: &str) -> (r: String)
        ensures
            r@ == invoke_call_text(*self, class_name@, rutie_class@),
    {
        let call = self.method_fn_call_expr();
        match self.kind {
            MethodKind::Instance => {
                let mut r = String::from_str("let _self = ");
                r.append(class_name);
                r.append("::try_from(");
                r.append(rutie_class);
                r.append(
                    " { value: self.rtself.value() }); if let Err(e) = _self { return e.to_any_object(); } let result = _self.unwrap().",
                );
                r.append(call.as_str());
                r.append("; result.to_any_object()");
                r
            },
            MethodKind::Static => {
                let mut r = String::from_str("let result = ");
                r.append(class_name);
                r.append("::");
                r.append(call.as_str());
                r.append("; result.to_any_object()");
                r
            },
        }
    }

    /// The declaration of the method's binding structure.
    pub fn method_struct(&self, rutie_class: &str) -> (r: String)
        ensures
            r@ == method_struct_text(*self, rutie_class@),
    {
        let mut r = String::from_str("struct ");
        r.append(self.method_struct_name(rutie_class).as_str());
        r.append(" { rtself: ");
        r.append(rutie_class);
        r.append(", ");
        r.append(self.method_struct_fields().as_str());
        r.append("}");
        r
    }

    /// The binding structure's constructor, fail-fast check, accessors and
    /// `invoke`.
    pub fn method_struct_impl(&self, class_name: &str, rutie_class: &str) -> (r: String)
        ensures
            r@ == method_struct_impl_text(*self, class_name@, rutie_class@),
    {
        let mut r = String::from_str("impl ");
        r.append(self.method_struct_name(rutie_class).as_str());
        r.append(" { pub fn new(_arguments: &[rutie::AnyObject], rtself: ");
        r.append(rutie_class);
        r.append(
            ", default_value_map: &std::collections::HashMap<&str, rutie::AnyObject>) -> Self { Self { rtself: rtself, ",
        );
        r.append(self.method_struct_impl_field_value_exprs().as_str());
        r.append("} } fn exception(&self) -> Option<&rutie::AnyException> { ");
        r.append(self.method_exception_block_from_arguments().as_str());
        r.append("return None; } ");
        r.append(self.method_argument_methods().as_str());
        r.append(
            "pub fn invoke(&self) -> rutie::AnyObject { if let Some(e) = self.exception() { return e.to_any_object(); } ",
        );
        r.append(self.method_fn_call(class_name, rutie_class).as_str());
        r.append(" } }");
        r
    }

    /// The body of the boundary function that the runtime calls with the
    /// argument count, the argument array and the receiver.
    pub fn fn_call(&self, rutie_class: &str) -> (r: String)
        ensures
            r@ == fn_call_text(*self, rutie_class@),
    {
        let mut inserts = String::new();
        let mut i: usize = 0;
        while i < self.arguments.len()
            invariant
                i <= self.arguments@.len(),
                inserts@ == default_inserts(self.arguments@, i as int),
            decreases self.arguments@.len() - i,
        {
            inserts.append(default_insert(&self.arguments[i]).as_str());
            i = i + 1;
        }
        let mut r = String::from_str(
            "let _arguments = rutie::util::parse_arguments(argc, argv); let mut default_value_map = std::collections::HashMap::new(); ",
        );
        r.append(inserts.as_str());
        r.append(self.method_struct_name(rutie_class).as_str());
        r.append("::new(&_arguments, _rtself, &default_value_map).invoke()");
        r
    }
}

} // verus!
