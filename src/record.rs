use vstd::prelude::*;

verus! {

/// A value held by a field of a row.
#[derive(Debug, Clone)]
pub enum FieldValue {
    /// A string.
    Text(String),
    /// A number, held as its canonical decimal text (`-5`, `100`, `2.5`).
    Number(String),
    /// A boolean.
    Bool(bool),
    /// Null, or a nested array or object: nothing a cell can show.
    Other,
}

/// The value that the most recent entry gives to `key`.
pub open spec fn lookup(entries: Seq<(String, FieldValue)>, key: Seq<char>) -> Option<FieldValue>
    decreases entries.len(),
{
    if entries.len() == 0 {
        None
    } else if entries.last().0@ == key {
        Some(entries.last().1)
    } else {
        lookup(entries.drop_last(), key)
    }
}

/// The value of field `key` of a row, if it has one.
pub open spec fn field_of(row: Map<Seq<char>, FieldValue>, key: Seq<char>) -> Option<FieldValue> {
    if row.contains_key(key) {
        Some(row[key])
    } else {
        None
    }
}

/// One row of the table: values keyed by field name.
#[derive(Debug, Clone)]
pub struct Record {
    entries: Vec<(String, FieldValue)>,
}

impl View for Record {
    type V = Map<Seq<char>, FieldValue>;

    closed spec fn view(&self) -> Map<Seq<char>, FieldValue> {
        Map::new(
            |k: Seq<char>| lookup(self.entries@, k) is Some,
            |k: Seq<char>| lookup(self.entries@, k)->Some_0,
        )
    }
}

impl Record {
    /// A row without fields.
    pub fn new() -> (r: Self)
        ensures
            r@ == Map::<Seq<char>, FieldValue>::empty(),
    {
        let r = Record { entries: Vec::new() };
        assert(r@ =~= Map::<Seq<char>, FieldValue>::empty());
        r
    }

    /// Sets field `key` to `value`, replacing what it held.
    pub fn insert(&mut self, key: String, value: FieldValue)
        ensures
            final(self)@ == old(self)@.insert(key@, value),
    {
        let ghost before = self.entries@;
        self.entries.push((key, value));
        proof {
            assert(self.entries@.drop_last() =~= before);
        }
        assert(self@ =~= old(self)@.insert(key@, value));
    }

    /// The value of field `key`, if the row has it.
    pub fn get(&self, key: &String) -> (r: Option<&FieldValue>)
        ensures
            r is None <==> !self@.contains_key(key@),
            r matches Some(v) ==> self@[key@] == *v,
    {
        let mut i: usize = self.entries.len();
        assert(self.entries@.subrange(0, i as int) =~= self.entries@);
        while i > 0
            invariant
                i <= self.entries@.len(),
                lookup(self.entries@, key@) == lookup(self.entries@.subrange(0, i as int), key@),
            decreases i,
        {
            let entry = &self.entries[i - 1];
            if entry.0 == *key {
                proof {
                    let s = self.entries@.subrange(0, i as int);
                    assert(s.last() == self.entries@[i - 1]);
                }
                return Some(&entry.1);
            }
            proof {
                let s = self.entries@.subrange(0, i as int);
                assert(s.drop_last() =~= self.entries@.subrange(0, i - 1));
            }
            i = i - 1;
        }
        proof {
            assert(self.entries@.subrange(0, 0) =~= Seq::<(String, FieldValue)>::empty());
        }
        None
    }
}

} // verus!
