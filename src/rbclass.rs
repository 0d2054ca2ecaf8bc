use vstd::prelude::*;
use crate::registry::{field_names_view, ClassRegistry};
use crate::render::{string_literal, string_literal_text};

verus! {

/// A named field of a class: its name, and its type as source text.
#[derive(Clone, Debug)]
pub struct ClassField {
    pub name: String,
    pub ty: String,
}

/// A native struct exported to the runtime as a class.
#[derive(Debug)]
pub struct Rbclass {
    pub ident: String,
    /// The named fields, in declaration order; none for a tuple or unit struct.
    pub fields: Vec<ClassField>,
}

pub open spec fn class_field_names(fields: Seq<ClassField>) -> Seq<Seq<char>> {
    fields.map_values(|f: ClassField| f.name@)
}

/// The runtime-side class type's name.
pub open spec fn rutie_class_text(ident: Seq<char>) -> Seq<char> {
    "Rutie"@ + ident
}

/// `name: name, ` for each of the first `n` fields.
pub open spec fn field_moves(fields: Seq<ClassField>, n: int) -> Seq<char>
    decreases n,
{
    if n <= 0 {
        Seq::empty()
    } else {
        field_moves(fields, n - 1) + (fields[n - 1].name@ + ": "@ + fields[n - 1].name@ + ", "@)
    }
}

/// The struct expression that builds the native value from locals named
/// like its fields.
pub open spec fn construct_class_text(ident: Seq<char>, fields: Seq<ClassField>) -> Seq<char> {
    ident + " { "@ + field_moves(fields, fields.len() as int) + "}"@
}

/// Reading field `f` from the runtime object `f`: a nil field is an error,
/// and so is a value that does not convert to the field's type.
pub open spec fn field_read_text(f: ClassField) -> Seq<char> {
    "let "@ + f.name@ + " = unsafe { f.send("@ + string_literal_text(f.name@) + ", &[]) }; if let Ok(_) = "@
        + f.name@
        + ".try_convert_to::<rutie::NilClass>() { return Err(rutie::AnyException::new(\"StandardError\", Some("@
        + string_literal_text(f.name@ + " field is nil."@) + "))); } let "@ + f.name@ + " = "@
        + f.name@ + ".try_convert_to::<"@ + f.ty@ + ">(); if let Err(e) = "@ + f.name@
        + " { return Err(e); } let "@ + f.name@ + " = "@ + f.name@ + ".unwrap(); "@
}

pub open spec fn field_reads(fields: Seq<ClassField>, n: int) -> Seq<char>
    decreases n,
{
    if n <= 0 {
        Seq::empty()
    } else {
        field_reads(fields, n - 1) + field_read_text(fields[n - 1])
    }
}

/// The conversion from the runtime-side object to the native struct, field
/// by field, reporting the first failure.
pub open spec fn try_from_text(ident: Seq<char>, fields: Seq<ClassField>) -> Seq<char> {
    "impl std::convert::TryFrom<"@ + rutie_class_text(ident) + "> for "@ + ident
        + " { type Error = rutie::AnyException; fn try_from(f: "@ + rutie_class_text(ident)
        + ") -> Result<Self, Self::Error> { "@ + field_reads(fields, fields.len() as int) + "Ok("@
        + construct_class_text(ident, fields) + ") } }"@
}

fn field_read(f: &ClassField) -> (r: String)
    ensures
        r@ == field_read_text(*f),
{
    let mut message = f.name.clone();
    message.append(" field is nil.");
    let mut r = String::from_str("let ");
    r.append(f.name.as_str());
    r.append(" = unsafe { f.send(");
    r.append(string_literal(f.name.as_str()).as_str());
    r.append(", &[]) }; if let Ok(_) = ");
    r.append(f.name.as_str());
    r.append(
        ".try_convert_to::<rutie::NilClass>() { return Err(rutie::AnyException::new(\"StandardError\", Some(",
    );
    r.append(string_literal(message.as_str()).as_str());
    r.append("))); } let ");
    r.append(f.name.as_str());
    r.append(" = ");
    r.append(f.name.as_str());
    r.append(".try_convert_to::<");
    r.append(f.ty.as_str());
    r.append(">(); if let Err(e) = ");
    r.append(f.name.as_str());
    r.append(" { return Err(e); } let ");
    r.append(f.name.as_str());
    r.append(" = ");
    r.append(f.name.as_str());
    r.append(".unwrap(); ");
    r
}

impl Rbclass {
    pub fn new(ident: String, fields: Vec<ClassField>) -> (r: Self)
        ensures
            r.ident == ident,
            r.fields == fields,
    {
        Rbclass { ident, fields }
    }

    /// The names of the fields, in order.
    pub fn field_names(&self) -> (r: Vec<String>)
        ensures
            field_names_view(r@) == class_field_names(self.fields@),
    {
        let mut r: Vec<String> = Vec::new();
        let mut i: usize = 0;
        while i < self.fields.len()
            invariant
                i <= self.fields@.len(),
                r@.len() == i,
                forall|k: int| 0 <= k < i ==> (#[trigger] r@[k])@ == self.fields@[k].name@,
            decreases self.fields@.len() - i,
        {
            r.push(self.fields[i].name.clone());
            i = i + 1;
        }
        assert(field_names_view(r@) =~= class_field_names(self.fields@));
        r
    }

    /// The runtime-side class type's name.
    pub fn rutie_class(&self) -> (r: String)
        ensures
            r@ == rutie_class_text(self.ident@),
    {
        let mut r = String::from_str("Rutie");
        r.append(self.ident.as_str());
        r
    }

    pub fn construct_class(&self) -> (r: String)
        ensures
            r@ == construct_class_text(self.ident@, self.fields@),
    {
        let mut moves = String::new();
        let mut i: usize = 0;
        while i < self.fields.len()
            invariant
                i <= self.fields@.len(),
                moves@ == field_moves(self.fields@, i as int),
            decreases self.fields@.len() - i,
        {
            let f = &self.fields[i];
            let mut piece = f.name.clone();
            piece.append(": ");
            piece.append(f.name.as_str());
            piece.append(", ");
            moves.append(piece.as_str());
            i = i + 1;
        }
        let mut r = self.ident.clone();
        r.append(" { ");
        r.append(moves.as_str());
        r.append("}");
        r
    }

    /// The conversion from the runtime-side object to the native struct.
    pub fn impl_try_from(&self) -> (r: String)
        ensures
            r@ == try_from_text(self.ident@, self.fields@),
    {
        let mut reads = String::new();
        let mut i: usize = 0;
        while i < self.fields.len()
            invariant
                i <= self.fields@.len(),
                reads@ == field_reads(self.fields@, i as int),
            decreases self.fields@.len() - i,
        {
            reads.append(field_read(&self.fields[i]).as_str());
            i = i + 1;
        }
        let rutie_class = self.rutie_class();
        let mut r = String::from_str("impl std::convert::TryFrom<");
        r.append(rutie_class.as_str());
        r.append("> for ");
        r.append(self.ident.as_str());
        r.append(" { type Error = rutie::AnyException; fn try_from(f: ");
        r.append(rutie_class.as_str());
        r.append(") -> Result<Self, Self::Error> { ");
        r.append(reads.as_str());
        r.append("Ok(");
        r.append(self.construct_class().as_str());
        r.append(") } }");
        r
    }

    /// Records the class and its field names, unless a class of that name
    /// was declared before, and returns the declaration of the runtime-side
    /// class type and the conversion into the native struct.
    pub fn token_stream(&self, registry: &mut ClassRegistry) -> (r: String)
        requires
            old(registry).wf(),
        ensures
            final(registry).wf(),
            final(registry).has_class(self.ident@),
            old(registry).has_class(self.ident@) ==> final(registry).fields_of(self.ident@)
                == old(registry).fields_of(self.ident@),
            !old(registry).has_class(self.ident@) ==> final(registry).fields_of(self.ident@)
                == class_field_names(self.fields@),
            forall|n: Seq<char>|
                n != self.ident@ ==> (final(registry).has_class(n) == old(registry).has_class(n)),
            forall|n: Seq<char>|
                n != self.ident@ && old(registry).has_class(n) ==> final(registry).fields_of(n)
                    == old(registry).fields_of(n),
            r@ == "rutie::class!("@ + rutie_class_text(self.ident@) + "); "@ + try_from_text(
                self.ident@,
                self.fields@,
            ),
    {
        registry.register(self.ident.as_str(), self.field_names());
        let mut r = String::from_str("rutie::class!(");
        r.append(self.rutie_class().as_str());
        r.append("); ");
        r.append(self.impl_try_from().as_str());
        r
    }
}

} // verus!
