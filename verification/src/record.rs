//! Store rows: named attributes, each a string or a boolean. This is
//! the shape in which every entity is written to and read from the
//! store; the conversions in the entity modules are its only readers.

use vstd::prelude::*;
use crate::text::str_eq;

verus! {

/// Spec-level attribute value.
pub enum AttrV {
    S(Seq<char>),
    Bool(bool),
}

/// An attribute value as stored: a string or a boolean.
pub enum Attr {
    S(String),
    Bool(bool),
}

impl View for Attr {
    type V = AttrV;

    open spec fn view(&self) -> AttrV {
        match self {
            Attr::S(s) => AttrV::S(s@),
            Attr::Bool(b) => AttrV::Bool(*b),
        }
    }
}

impl Clone for Attr {
    fn clone(&self) -> (r: Self)
        ensures
            r@ == self@,
    {
        match self {
            Attr::S(s) => Attr::S(s.clone()),
            Attr::Bool(b) => Attr::Bool(*b),
        }
    }
}

/// Spec-level named attribute.
#[verifier::ext_equal]
pub struct FieldV {
    pub name: Seq<char>,
    pub value: AttrV,
}

/// A named attribute of a row.
pub struct Field {
    pub name: String,
    pub value: Attr,
}

impl View for Field {
    type V = FieldV;

    open spec fn view(&self) -> FieldV {
        FieldV { name: self.name@, value: self.value@ }
    }
}

impl Clone for Field {
    fn clone(&self) -> (r: Self)
        ensures
            r@ == self@,
    {
        Field { name: self.name.clone(), value: self.value.clone() }
    }
}

/// A store row.
pub struct Record {
    pub fields: Vec<Field>,
}

impl View for Record {
    type V = Seq<FieldV>;

    open spec fn view(&self) -> Seq<FieldV> {
        self.fields@.map(|i: int, f: Field| f@)
    }
}

/// The value stored under `name` from position `i` on: the first match
/// wins.
pub open spec fn rec_get_from(r: Seq<FieldV>, i: nat, name: Seq<char>) -> Option<AttrV>
    decreases r.len() - i,
{
    if i >= r.len() {
        None
    } else if r[i as int].name == name {
        Some(r[i as int].value)
    } else {
        rec_get_from(r, i + 1, name)
    }
}

/// The value stored under `name`, if any.
pub open spec fn rec_get(r: Seq<FieldV>, name: Seq<char>) -> Option<AttrV> {
    rec_get_from(r, 0, name)
}

/// Scanning may skip any prefix free of the name.
pub proof fn lemma_rec_get_skip(r: Seq<FieldV>, i: nat, name: Seq<char>)
    requires
        i <= r.len(),
        forall|j: int| 0 <= j < i ==> r[j].name != name,
    ensures
        rec_get(r, name) == rec_get_from(r, i, name),
    decreases i,
{
    if i > 0 {
        lemma_rec_get_skip(r, (i - 1) as nat, name);
    }
}

impl Record {
    /// Look an attribute up by name.
    pub fn get_attr(&self, name: &str) -> (r: Option<&Attr>)
        ensures
            match r {
                Some(a) => rec_get(self@, name@) == Some(a@),
                None => rec_get(self@, name@) is None,
            },
    {
        let n = self.fields.len();
        let mut i: usize = 0;
        while i < n
            invariant
                n == self.fields.len(),
                i <= n,
                rec_get_from(self@, 0, name@) == rec_get_from(self@, i as nat, name@),
            decreases n - i,
        {
            if str_eq(self.fields[i].name.as_str(), name) {
                return Some(&self.fields[i].value);
            }
            i += 1;
        }
        None
    }
}

impl Clone for Record {
    fn clone(&self) -> (r: Self)
        ensures
            r@ == self@,
    {
        let n = self.fields.len();
        let mut fields: Vec<Field> = Vec::new();
        let mut i: usize = 0;
        while i < n
            invariant
                n == self.fields.len(),
                i <= n,
                fields@.len() == i,
                forall|j: int| 0 <= j < i ==> fields@[j]@ == self.fields@[j]@,
            decreases n - i,
        {
            let f = &self.fields[i];
            fields.push(f.clone());
            i += 1;
        }
        let r = Record { fields };
        proof {
            assert(r@ =~= self@);
        }
        r
    }
}

} // verus!
