use vstd::prelude::*;
use crate::token::same_text;

verus! {

/// A declared class: its name and the names of its fields, in order.
#[derive(Clone, Debug)]
pub struct ClassEntry {
    pub name: String,
    pub fields: Vec<String>,
}

/// The classes declared so far, each with its fields. It is filled while
/// classes are processed and read while their methods are.
#[derive(Debug)]
pub struct ClassRegistry {
    classes: Vec<ClassEntry>,
}

pub open spec fn field_names_view(fields: Seq<String>) -> Seq<Seq<char>> {
    fields.map_values(|f: String| f@)
}

impl ClassRegistry {
    pub closed spec fn entries(&self) -> Seq<ClassEntry> {
        self.classes@
    }

    /// Class names are distinct.
    pub open spec fn wf(&self) -> bool {
        forall|i: int, j: int|
            0 <= i < self.entries().len() && 0 <= j < self.entries().len() && (#[trigger] self.entries()[i]).name@
                == (#[trigger] self.entries()[j]).name@ ==> i == j
    }

    pub open spec fn has_class(&self, name: Seq<char>) -> bool {
        exists|i: int| 0 <= i < self.entries().len() && (#[trigger] self.entries()[i]).name@ == name
    }

    /// The field names recorded for a class.
    pub open spec fn fields_of(&self, name: Seq<char>) -> Seq<Seq<char>> {
        let i = choose|i: int| 0 <= i < self.entries().len() && (#[trigger] self.entries()[i]).name@ == name;
        field_names_view(self.entries()[i].fields@)
    }

    pub fn new() -> (r: Self)
        ensures
            r.wf(),
            forall|n: Seq<char>| !r.has_class(n),
    {
        ClassRegistry { classes: Vec::new() }
    }

    fn find(&self, name: &str) -> (r: Option<usize>)
        requires
            self.wf(),
        ensures
            r is None <==> !self.has_class(name@),
            r matches Some(i) ==> i < self.entries().len() && self.entries()[i as int].name@ == name@,
            r matches Some(i) ==> self.fields_of(name@) == field_names_view(self.entries()[i as int].fields@),
    {
        let mut i: usize = 0;
        while i < self.classes.len()
            invariant
                i <= self.classes@.len(),
                self.wf(),
                forall|k: int| 0 <= k < i ==> (#[trigger] self.classes@[k]).name@ != name@,
            decreases self.classes@.len() - i,
        {
            if same_text(self.classes[i].name.as_str(), name) {
                proof {
                    let c = choose|c: int|
                        0 <= c < self.entries().len() && (#[trigger] self.entries()[c]).name@ == name@;
                    assert(self.entries()[c].name@ == self.entries()[i as int].name@);
                }
                return Some(i);
            }
            i = i + 1;
        }
        None
    }

    /// Whether a class of that name was declared.
    pub fn contains(&self, name: &str) -> (r: bool)
        requires
            self.wf(),
        ensures
            r == self.has_class(name@),
    {
        self.find(name).is_some()
    }

    /// Records a class with its fields. The first declaration of a name is
    /// kept; a later one changes nothing.
    pub fn register(&mut self, name: &str, fields: Vec<String>)
        requires
            old(self).wf(),
        ensures
            final(self).wf(),
            final(self).has_class(name@),
            old(self).has_class(name@) ==> final(self).fields_of(name@) == old(self).fields_of(name@),
            !old(self).has_class(name@) ==> final(self).fields_of(name@) == field_names_view(fields@),
            forall|n: Seq<char>| n != name@ ==> (final(self).has_class(n) == old(self).has_class(n)),
            forall|n: Seq<char>|
                n != name@ && old(self).has_class(n) ==> final(self).fields_of(n) == old(self).fields_of(n),
    {
        if self.find(name).is_some() {
            return;
        }
        let ghost prev = self.classes@;
        self.classes.push(ClassEntry { name: String::from_str(name), fields });
        proof {
            let es = self.classes@;
            assert(es.len() == prev.len() + 1);
            assert(forall|k: int| 0 <= k < prev.len() ==> es[k] == prev[k]);
            assert(es[prev.len() as int].name@ == name@);
            assert forall|k: int| 0 <= k < prev.len() implies (#[trigger] prev[k]).name@ != name@ by {
                assert(old(self).entries()[k] == prev[k]);
            }
            assert(self.entries()[prev.len() as int].name@ == name@);
            assert forall|i: int, j: int|
                0 <= i < es.len() && 0 <= j < es.len() && (#[trigger] es[i]).name@ == (#[trigger] es[j]).name@
                implies i == j by {
                if i < prev.len() && j < prev.len() {
                    assert(old(self).entries()[i].name@ == old(self).entries()[j].name@);
                }
            }
            assert forall|n: Seq<char>| n != name@ implies (self.has_class(n) == old(self).has_class(n)) by {
                if self.has_class(n) {
                    let i = choose|i: int| 0 <= i < es.len() && (#[trigger] es[i]).name@ == n;
                    assert(prev[i] == es[i]);
                    assert(old(self).entries()[i].name@ == n);
                }
                if old(self).has_class(n) {
                    let i = choose|i: int| 0 <= i < prev.len() && (#[trigger] prev[i]).name@ == n;
                    assert(prev[i] == es[i]);
                    assert(self.entries()[i].name@ == n);
                }
            }
            assert forall|n: Seq<char>|
                n != name@ && old(self).has_class(n) implies self.fields_of(n) == old(self).fields_of(n) by {
                let i = choose|i: int| 0 <= i < prev.len() && (#[trigger] prev[i]).name@ == n;
                let j = choose|j: int| 0 <= j < es.len() && (#[trigger] es[j]).name@ == n;
                assert(prev[i] == es[i]);
                assert(es[i].name@ == es[j].name@);
            }
            let j = choose|j: int| 0 <= j < es.len() && (#[trigger] es[j]).name@ == name@;
            assert(es[j].name@ == es[prev.len() as int].name@);
        }
    }

    /// The field names of a declared class.
    pub fn fields(&self, name: &str) -> (r: &Vec<String>)
        requires
            self.wf(),
            self.has_class(name@),
        ensures
            field_names_view(r@) == self.fields_of(name@),
    {
        let i = self.find(name);
        match i {
            Some(i) => &self.classes[i].fields,
            None => {
                proof {
                    assert(false);
                }
                &self.classes[0].fields
            },
        }
    }
}

} // verus!
