//! The attribute store of a graph node: named, tagged values that the
//! exporting format attached to the operator.

use vstd::prelude::*;

verus! {

/// A tagged attribute value. Lists are homogeneous; nothing nests.
#[derive(Debug, Clone)]
pub enum AttributeValue {
    Int64(i64),
    Int64s(Vec<i64>),
    /// A 32-bit float, held as its IEEE-754 bit pattern.
    Float32(u32),
    /// A list of 32-bit floats, each held as its IEEE-754 bit pattern.
    Float32s(Vec<u32>),
    String(String),
    Strings(Vec<String>),
}

/// One named entry of an attribute store.
#[derive(Debug, Clone)]
pub struct Attribute {
    pub name: String,
    pub value: AttributeValue,
}

/// The value stored under `name` in `entries`: a later entry under the same
/// name replaces an earlier one.
pub open spec fn lookup(entries: Seq<Attribute>, name: Seq<char>) -> Option<AttributeValue>
    decreases entries.len(),
{
    if entries.len() == 0 {
        None
    } else if entries.last().name@ == name {
        Some(entries.last().value)
    } else {
        lookup(entries.drop_last(), name)
    }
}

/// Whether two strings hold the same characters.
pub fn same_text(a: &str, b: &str) -> (r: bool)
    ensures
        r == (a@ == b@),
{
    let n = a.unicode_len();
    if n != b.unicode_len() {
        return false;
    }
    let mut i: usize = 0;
    while i < n
        invariant
            n == a@.len(),
            n == b@.len(),
            i <= n,
            forall|j: int| 0 <= j < i ==> a@[j] == b@[j],
        decreases n - i,
    {
        if a.get_char(i) != b.get_char(i) {
            return false;
        }
        i = i + 1;
    }
    assert(a@ =~= b@);
    true
}

/// A read-only mapping from attribute name to value, as a builder sees it.
#[derive(Debug, Clone)]
pub struct Attributes {
    /// The entries in the order they were added.
    pub entries: Vec<Attribute>,
}

impl Attributes {
    /// The value stored under `name`, if any.
    pub open spec fn spec_get(&self, name: Seq<char>) -> Option<AttributeValue> {
        lookup(self.entries@, name)
    }

    /// An empty store.
    pub fn new() -> (r: Attributes)
        ensures
            forall|name: Seq<char>| #[trigger] r.spec_get(name) == None::<AttributeValue>,
    {
        Attributes { entries: Vec::new() }
    }

    /// Stores `value` under `name`, replacing what was stored there before.
    pub fn insert(&mut self, name: String, value: AttributeValue)
        ensures
            final(self).spec_get(name@) == Some(value),
            forall|other: Seq<char>|
                other != name@ ==> #[trigger] final(self).spec_get(other) == old(self).spec_get(
                    other,
                ),
    {
        let ghost before = self.entries@;
        self.entries.push(Attribute { name, value });
        assert(self.entries@.drop_last() =~= before);
    }

    /// The value stored under `name`, if any.
    pub fn get(&self, name: &str) -> (r: Option<&AttributeValue>)
        ensures
            match r {
                Some(v) => self.spec_get(name@) == Some(*v),
                None => self.spec_get(name@) == None::<AttributeValue>,
            },
    {
        let mut i: usize = self.entries.len();
        assert(self.entries@.subrange(0, i as int) =~= self.entries@);
        while i > 0
            invariant
                i <= self.entries@.len(),
                lookup(self.entries@, name@) == lookup(self.entries@.subrange(0, i as int), name@),
            decreases i,
        {
            let ghost prefix = self.entries@.subrange(0, i as int);
            assert(prefix.drop_last() =~= self.entries@.subrange(0, i - 1));
            let entry = &self.entries[i - 1];
            if same_text(entry.name.as_str(), name) {
                return Some(&entry.value);
            }
            i = i - 1;
        }
        assert(self.entries@.subrange(0, 0) =~= Seq::<Attribute>::empty());
        None
    }
}

} // verus!
