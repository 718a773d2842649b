//! Structured values: the ordered, string-keyed mapping of primitive
//! values that travels between the store and callers.
//!
//! A float travels as its decimal text.  The verified core never computes
//! with floating point; the embedding application converts the text to
//! the store's native double exactly at the bind boundary, and back to
//! text when a row is read.

use vstd::prelude::*;

verus! {

/// One primitive value.
#[derive(Clone, PartialEq, Debug)]
pub enum Value {
    Str(String),
    Int(i64),
    /// A floating-point value, carried as its decimal text.
    Float(String),
    Bool(bool),
}

/// The mathematical view of a `Value`.
pub enum ValueV {
    Str(Seq<char>),
    Int(int),
    Float(Seq<char>),
    Bool(bool),
}

impl View for Value {
    type V = ValueV;

    open spec fn view(&self) -> ValueV {
        match self {
            Value::Str(s) => ValueV::Str(s@),
            Value::Int(i) => ValueV::Int(*i as int),
            Value::Float(s) => ValueV::Float(s@),
            Value::Bool(b) => ValueV::Bool(*b),
        }
    }
}

impl DeepView for Value {
    type V = ValueV;

    open spec fn deep_view(&self) -> ValueV {
        self.view()
    }
}

impl Value {
    /// An exact copy.  (The derived `Clone` carries no specification, so
    /// verified callers copy through this method.)
    pub fn duplicate(&self) -> (r: Value)
        ensures
            r@ == self@,
    {
        match self {
            Value::Str(s) => Value::Str(s.clone()),
            Value::Int(i) => Value::Int(*i),
            Value::Float(s) => Value::Float(s.clone()),
            Value::Bool(b) => Value::Bool(*b),
        }
    }
}

/// One named entry of a structured value or of a result row.
#[derive(Clone, PartialEq, Debug)]
pub struct Entry {
    pub name: String,
    pub value: Value,
}

/// The mathematical view of an `Entry`.
pub struct EntryV {
    pub name: Seq<char>,
    pub value: ValueV,
}

impl View for Entry {
    type V = EntryV;

    open spec fn view(&self) -> EntryV {
        EntryV { name: self.name@, value: self.value@ }
    }
}

impl DeepView for Entry {
    type V = EntryV;

    open spec fn deep_view(&self) -> EntryV {
        self.view()
    }
}

/// First-match lookup in a sequence of entries, starting at index `i`.
pub open spec fn lookup_from(s: Seq<EntryV>, i: int, name: Seq<char>) -> Option<ValueV>
    decreases s.len() - i,
{
    if i < 0 || i >= s.len() {
        Option::None
    } else if s[i].name == name {
        Option::Some(s[i].value)
    } else {
        lookup_from(s, i + 1, name)
    }
}

/// First-match lookup of `name` in a sequence of entries.
pub open spec fn lookup(s: Seq<EntryV>, name: Seq<char>) -> Option<ValueV> {
    lookup_from(s, 0, name)
}

/// An ordered mapping from field name to primitive value: the universal
/// interchange format between the store and callers.
#[derive(Clone, PartialEq, Debug)]
pub struct StructuredValue {
    pub entries: Vec<Entry>,
}

impl View for StructuredValue {
    type V = Seq<EntryV>;

    open spec fn view(&self) -> Seq<EntryV> {
        self.entries.deep_view()
    }
}

impl StructuredValue {
    pub fn new() -> (r: StructuredValue)
        ensures
            r@ == Seq::<EntryV>::empty(),
    {
        StructuredValue { entries: Vec::new() }
    }

    pub fn len(&self) -> (r: usize)
        ensures
            r == self@.len(),
    {
        self.entries.len()
    }

    /// Appends an entry.  Lookup is first-match, so an earlier entry with
    /// the same name keeps precedence.
    pub fn insert(&mut self, name: String, value: Value)
        ensures
            final(self)@ == old(self)@.push(EntryV { name: name@, value: value@ }),
    {
        self.entries.push(Entry { name, value });
    }

    /// The entry at position `i`, in insertion order.
    pub fn entry_at(&self, i: usize) -> (r: &Entry)
        requires
            i < self@.len(),
        ensures
            r@ == self@[i as int],
    {
        &self.entries[i]
    }

    /// First-match lookup by name.
    pub fn get(&self, name: &String) -> (r: Option<&Value>)
        ensures
            match r {
                Option::Some(v) => lookup(self@, name@) == Option::Some(v@),
                Option::None => lookup(self@, name@) is None,
            },
    {
        let n = self.entries.len();
        let mut i: usize = 0;
        while i < n
            invariant
                n == self.entries.len(),
                i <= n,
                lookup(self@, name@) == lookup_from(self@, i as int, name@),
            decreases n - i,
    {
            if self.entries[i].name == *name {
                return Option::Some(&self.entries[i].value);
            }
            i += 1;
        }
        Option::None
    }
}

} // verus!
