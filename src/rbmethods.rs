use vstd::prelude::*;
use crate::diagnostic::{combined_errors, Diagnostic, Diagnostics};
use crate::method::{external_name, method_diagnostics, Method, MethodKind};
use crate::rbdef::{is_method_info, FnInput, Rbdef};
use crate::registry::{field_names_view, ClassRegistry};
use crate::render::{string_literal, string_literal_text};
use crate::synth::{fn_call_text, method_struct_impl_text, method_struct_text};
use crate::token::{same_text, AttrTree};

verus! {

/// An attribute on a method: its name and the trees of its argument.
#[derive(Clone, Debug)]
pub struct MethodAttr {
    pub path: String,
    pub tokens: Vec<AttrTree>,
}

/// A method of the exported impl block.
#[derive(Clone, Debug)]
pub struct ImplMethod {
    pub fn_name: String,
    pub inputs: Vec<FnInput>,
    pub return_type: String,
    pub attrs: Vec<MethodAttr>,
}

/// The methods of an impl block of a class exported to the runtime.
#[derive(Debug)]
pub struct Rbmethods {
    pub class_name: String,
    pub items: Vec<ImplMethod>,
}

/// A boundary function the runtime calls: its name, the type of its
/// receiver parameter, and its body. Its other parameters are the argument
/// count `argc` and the argument array `argv`.
#[derive(Clone, Debug)]
pub struct BoundaryFn {
    pub name: String,
    pub receiver: String,
    pub body: String,
}

/// What an impl block generates: the binding structures with their impls,
/// one boundary function per method, and the class's load-time routine.
#[derive(Debug)]
pub struct Generated {
    pub items: String,
    pub boundary_fns: Vec<BoundaryFn>,
    pub init_name: String,
    pub init_body: String,
}

/// The argument of a method's first `rbdef` attribute, if it has one.
pub open spec fn rbdef_attr(attrs: Seq<MethodAttr>) -> Option<Seq<AttrTree>>
    decreases attrs.len(),
{
    if attrs.len() == 0 {
        None
    } else {
        match rbdef_attr(attrs.drop_last()) {
            Some(a) => Some(a),
            None => if attrs.last().path@ == "rbdef"@ {
                Some(attrs.last().tokens@)
            } else {
                None
            },
        }
    }
}

/// The methods marked with `rbdef`, in order, each with its attribute's
/// argument.
pub open spec fn marked_methods(items: Seq<ImplMethod>) -> Seq<(ImplMethod, Seq<AttrTree>)>
    decreases items.len(),
{
    if items.len() == 0 {
        Seq::empty()
    } else {
        match rbdef_attr(items.last().attrs@) {
            Some(a) => marked_methods(items.drop_last()).push((items.last(), a)),
            None => marked_methods(items.drop_last()),
        }
    }
}

/// `ms` models the marked methods of `items`, one for one.
pub open spec fn methods_of(items: Seq<ImplMethod>, ms: Seq<Method>) -> bool {
    &&& ms.len() == marked_methods(items).len()
    &&& forall|k: int|
        0 <= k < ms.len() ==> {
            let (item, attr) = #[trigger] marked_methods(items)[k];
            is_method_info(ms[k], item.fn_name@, item.inputs@, item.return_type@, attr)
        }
}

/// The diagnostics of all methods, method by method.
pub open spec fn all_diagnostics(ms: Seq<Method>) -> Seq<Diagnostic>
    decreases ms.len(),
{
    if ms.len() == 0 {
        Seq::empty()
    } else {
        all_diagnostics(ms.drop_last()) + method_diagnostics(ms.last())
    }
}

/// The binding structures and their impls of the first `n` methods.
pub open spec fn items_text(ms: Seq<Method>, class: Seq<char>, n: int) -> Seq<char>
    decreases n,
{
    if n <= 0 {
        Seq::empty()
    } else {
        items_text(ms, class, n - 1) + method_struct_text(ms[n - 1], rutie_name(class))
            + method_struct_impl_text(ms[n - 1], class, rutie_name(class))
    }
}

pub open spec fn rutie_name(class: Seq<char>) -> Seq<char> {
    "Rutie"@ + class
}

/// The symbol of a method's boundary function.
pub open spec fn boundary_name(class: Seq<char>, fn_name: Seq<char>) -> Seq<char> {
    "rutie_"@ + class + "_"@ + fn_name
}

/// The boundary function of a method.
pub open spec fn is_boundary_fn(f: BoundaryFn, m: Method, class: Seq<char>) -> bool {
    &&& f.name@ == boundary_name(class, m.fn_name@)
    &&& f.receiver@ == rutie_name(class)
    &&& f.body@ == fn_call_text(m, rutie_name(class))
}

/// Registrations of the first `n` attribute accessors.
pub open spec fn attribute_lines(attrs: Seq<Seq<char>>, n: int) -> Seq<char>
    decreases n,
{
    if n <= 0 {
        Seq::empty()
    } else {
        attribute_lines(attrs, n - 1) + ("klass.attr_accessor("@ + string_literal_text(attrs[n - 1])
            + "); "@)
    }
}

/// Registration of a method under its external name: on instances, or on
/// the class.
pub open spec fn def_line(m: Method, class: Seq<char>) -> Seq<char> {
    (if m.kind == MethodKind::Instance {
        "klass.def("@
    } else {
        "klass.def_self("@
    }) + string_literal_text(external_name(m.fn_name@, m.def_name@)) + ", "@ + boundary_name(
        class,
        m.fn_name@,
    ) + "); "@
}

pub open spec fn def_lines(ms: Seq<Method>, class: Seq<char>, n: int) -> Seq<char>
    decreases n,
{
    if n <= 0 {
        Seq::empty()
    } else {
        def_lines(ms, class, n - 1) + def_line(ms[n - 1], class)
    }
}

/// The body of the load-time routine: create or fetch the class, then
/// register every field's accessors and every method.
pub open spec fn init_body_text(class: Seq<char>, attrs: Seq<Seq<char>>, ms: Seq<Method>) -> Seq<
    char,
> {
    "rutie::Class::new("@ + string_literal_text(class) + ", None).define(|klass| { "@
        + attribute_lines(attrs, attrs.len() as int) + def_lines(ms, class, ms.len() as int) + "});"@
}

/// What the impl block of `class`, with methods `ms` and fields `attrs`,
/// generates.
pub open spec fn generates(g: Generated, class: Seq<char>, attrs: Seq<Seq<char>>, ms: Seq<Method>) -> bool {
    &&& g.items@ == items_text(ms, class, ms.len() as int)
    &&& g.boundary_fns@.len() == ms.len()
    &&& forall|k: int| 0 <= k < ms.len() ==> is_boundary_fn(#[trigger] g.boundary_fns@[k], ms[k], class)
    &&& g.init_name@ == "Init_"@ + class
    &&& g.init_body@ == init_body_text(class, attrs, ms)
}

/// The first `rbdef` attribute of a method.
fn find_rbdef(attrs: &Vec<MethodAttr>) -> (r: Option<&Vec<AttrTree>>)
    ensures
        match r {
            Some(t) => rbdef_attr(attrs@) == Some(t@),
            None => rbdef_attr(attrs@) is None,
        },
{
    let mut i: usize = 0;
    while i < attrs.len()
        invariant
            i <= attrs@.len(),
            rbdef_attr(attrs@.take(i as int)) is None,
        decreases attrs@.len() - i,
    {
        proof {
            assert(attrs@.take(i + 1).drop_last() =~= attrs@.take(i as int));
        }
        if same_text(attrs[i].path.as_str(), "rbdef") {
            proof {
                lemma_rbdef_attr_prefix(attrs@, i + 1);
            }
            return Some(&attrs[i].tokens);
        }
        i = i + 1;
    }
    assert(attrs@.take(i as int) =~= attrs@);
    None
}

proof fn lemma_rbdef_attr_prefix(attrs: Seq<MethodAttr>, n: int)
    requires
        0 <= n <= attrs.len(),
        rbdef_attr(attrs.take(n)) is Some,
    ensures
        rbdef_attr(attrs) == rbdef_attr(attrs.take(n)),
    decreases attrs.len() - n,
{
    if n < attrs.len() {
        assert(attrs.take(n + 1).drop_last() =~= attrs.take(n));
        lemma_rbdef_attr_prefix(attrs, n + 1);
    } else {
        assert(attrs.take(n) =~= attrs);
    }
}

impl Rbmethods {
    pub fn new(class_name: String, items: Vec<ImplMethod>) -> (r: Self)
        ensures
            r.class_name == class_name,
            r.items == items,
    {
        Rbmethods { class_name, items }
    }

    /// The model of a method, if it is marked with `rbdef`.
    pub fn parse_rbdef(item: &ImplMethod) -> (r: Option<Method>)
        ensures
            match rbdef_attr(item.attrs@) {
                Some(a) => r matches Some(m) && is_method_info(
                    m,
                    item.fn_name@,
                    item.inputs@,
                    item.return_type@,
                    a,
                ),
                None => r is None,
            },
    {
        match find_rbdef(&item.attrs) {
            Some(tokens) => {
                let d = Rbdef::new(
                    item.fn_name.as_str(),
                    item.inputs.as_slice(),
                    item.return_type.as_str(),
                    tokens.as_slice(),
                );
                Some(d.method_info())
            },
            None => None,
        }
    }

    /// The models of the marked methods, in order.
    pub fn parse_rbdefs(&self) -> (r: Vec<Method>)
        ensures
            methods_of(self.items@, r@),
    {
        let mut r: Vec<Method> = Vec::new();
        let mut i: usize = 0;
        while i < self.items.len()
            invariant
                i <= self.items@.len(),
                methods_of(self.items@.take(i as int), r@),
            decreases self.items@.len() - i,
        {
            proof {
                assert(self.items@.take(i + 1).drop_last() =~= self.items@.take(i as int));
            }
            if let Some(m) = Self::parse_rbdef(&self.items[i]) {
                r.push(m);
            }
            i = i + 1;
        }
        assert(self.items@.take(i as int) =~= self.items@);
        r
    }

    /// Checks every method and reports all failures together.
    pub fn validate(methods: &Vec<Method>) -> (r: Result<(), Diagnostics>)
        ensures
            r is Ok <==> all_diagnostics(methods@).len() == 0,
            r matches Err(d) ==> d.items@ == all_diagnostics(methods@),
    {
        let mut errors: Vec<Diagnostic> = Vec::new();
        let mut i: usize = 0;
        while i < methods.len()
            invariant
                i <= methods@.len(),
                errors@ == all_diagnostics(methods@.take(i as int)),
            decreases methods@.len() - i,
        {
            proof {
                assert(methods@.take(i + 1).drop_last() =~= methods@.take(i as int));
            }
            match methods[i].validate() {
                Err(d) => {
                    let mut items = d.items;
                    errors.append(&mut items);
                },
                Ok(()) => {
                    assert(method_diagnostics(methods@[i as int]) =~= Seq::<Diagnostic>::empty());
                },
            }
            proof {
                assert(errors@ =~= all_diagnostics(methods@.take(i + 1)));
            }
            i = i + 1;
        }
        assert(methods@.take(i as int) =~= methods@);
        match combined_errors(errors) {
            Some(d) => Err(d),
            None => Ok(()),
        }
    }

    /// The symbol of a method's boundary function.
    pub fn boundary_fn_name(&self, fn_name: &str) -> (r: String)
        ensures
            r@ == boundary_name(self.class_name@, fn_name@),
    {
        let mut r = String::from_str("rutie_");
        r.append(self.class_name.as_str());
        r.append("_");
        r.append(fn_name);
        r
    }

    fn rutie_class(&self) -> (r: String)
        ensures
            r@ == rutie_name(self.class_name@),
    {
        let mut r = String::from_str("Rutie");
        r.append(self.class_name.as_str());
        r
    }

    /// The binding structures and their impls, method by method.
    pub fn method_structs_and_impls(&self, methods: &Vec<Method>) -> (r: String)
        ensures
            r@ == items_text(methods@, self.class_name@, methods@.len() as int),
    {
        let rutie_class = self.rutie_class();
        let mut r = String::new();
        let mut i: usize = 0;
        while i < methods.len()
            invariant
                i <= methods@.len(),
                rutie_class@ == rutie_name(self.class_name@),
                r@ == items_text(methods@, self.class_name@, i as int),
            decreases methods@.len() - i,
        {
            let s = methods[i].method_struct(rutie_class.as_str());
            let t = methods[i].method_struct_impl(self.class_name.as_str(), rutie_class.as_str());
            r.append(s.as_str());
            r.append(t.as_str());
            i = i + 1;
        }
        r
    }

    /// One boundary function per method.
    pub fn boundary_fns(&self, methods: &Vec<Method>) -> (r: Vec<BoundaryFn>)
        ensures
            r@.len() == methods@.len(),
            forall|k: int| 0 <= k < r@.len() ==> is_boundary_fn(#[trigger] r@[k], methods@[k], self.class_name@),
    {
        let rutie_class = self.rutie_class();
        let mut r: Vec<BoundaryFn> = Vec::new();
        let mut i: usize = 0;
        while i < methods.len()
            invariant
                i <= methods@.len(),
                rutie_class@ == rutie_name(self.class_name@),
                r@.len() == i,
                forall|k: int| 0 <= k < i ==> is_boundary_fn(#[trigger] r@[k], methods@[k], self.class_name@),
            decreases methods@.len() - i,
        {
            let m = &methods[i];
            r.push(
                BoundaryFn {
                    name: self.boundary_fn_name(m.fn_name.as_str()),
                    receiver: rutie_class.clone(),
                    body: m.fn_call(rutie_class.as_str()),
                },
            );
            i = i + 1;
        }
        r
    }

    /// The body of the class's load-time routine.
    pub fn init_body(&self, attributes: &Vec<String>, methods: &Vec<Method>) -> (r: String)
        ensures
            r@ == init_body_text(self.class_name@, field_names_view(attributes@), methods@),
    {
        let ghost attrs = field_names_view(attributes@);
        let mut lines = String::new();
        let mut i: usize = 0;
        while i < attributes.len()
            invariant
                i <= attributes@.len(),
                attrs == field_names_view(attributes@),
                lines@ == attribute_lines(attrs, i as int),
            decreases attributes@.len() - i,
        {
            let mut piece = String::from_str("klass.attr_accessor(");
            piece.append(string_literal(attributes[i].as_str()).as_str());
            piece.append("); ");
            lines.append(piece.as_str());
            i = i + 1;
        }
        let mut defs = String::new();
        let mut j: usize = 0;
        while j < methods.len()
            invariant
                j <= methods@.len(),
                defs@ == def_lines(methods@, self.class_name@, j as int),
            decreases methods@.len() - j,
        {
            let m = &methods[j];
            let mut piece = match m.kind {
                MethodKind::Instance => String::from_str("klass.def("),
                MethodKind::Static => String::from_str("klass.def_self("),
            };
            piece.append(string_literal(m.def_name().as_str()).as_str());
            piece.append(", ");
            piece.append(self.boundary_fn_name(m.fn_name.as_str()).as_str());
            piece.append("); ");
            defs.append(piece.as_str());
            j = j + 1;
        }
        let mut r = String::from_str("rutie::Class::new(");
        r.append(string_literal(self.class_name.as_str()).as_str());
        r.append(", None).define(|klass| { ");
        r.append(lines.as_str());
        r.append(defs.as_str());
        r.append("});");
        r
    }

    /// Parses and checks every marked method; if all are valid, generates
    /// their adapters and the class's load-time routine, which registers
    /// the fields recorded for the class and every method.
    pub fn token_stream(&self, registry: &ClassRegistry) -> (r: Result<Generated, Diagnostics>)
        requires
            registry.wf(),
            registry.has_class(self.class_name@),
        ensures
            exists|ms: Seq<Method>|
                {
                    &&& methods_of(self.items@, ms)
                    &&& match r {
                        Err(d) => all_diagnostics(ms).len() > 0 && d.items@ == all_diagnostics(ms),
                        Ok(g) => all_diagnostics(ms).len() == 0 && generates(
                            g,
                            self.class_name@,
                            registry.fields_of(self.class_name@),
                            ms,
                        ),
                    }
                },
    {
        let methods = self.parse_rbdefs();
        if let Err(e) = Self::validate(&methods) {
            assert(methods_of(self.items@, methods@));
            return Err(e);
        }
        let attributes = registry.fields(self.class_name.as_str());
        let g = Generated {
            items: self.method_structs_and_impls(&methods),
            boundary_fns: self.boundary_fns(&methods),
            init_name: {
                let mut n = String::from_str("Init_");
                n.append(self.class_name.as_str());
                n
            },
            init_body: self.init_body(attributes, &methods),
        };
        assert(methods_of(self.items@, methods@));
        Ok(g)
    }
}

} // verus!
