//! A retrieved document as the formatting and search layers read it: named
//! fields holding text, lists of text, or one level of named sub-fields.

use vstd::prelude::*;

verus! {

/// A named text entry inside a nested field.
pub struct GroupField {
    pub name: String,
    pub text: String,
}

/// The value of one document field.
pub enum FieldValue {
    Text(String),
    TextList(Vec<String>),
    Group(Vec<GroupField>),
}

/// One named field of a document.
pub struct Field {
    pub name: String,
    pub value: FieldValue,
}

/// A read-only snapshot of a document pulled from a content collection.
pub struct DocRecord {
    pub fields: Vec<Field>,
}

/// The value of the first field called `name`, if any.
pub open spec fn first_value(fields: Seq<Field>, name: Seq<char>) -> Option<FieldValue>
    decreases fields.len(),
{
    if fields.len() == 0 {
        None
    } else if fields[0].name@ == name {
        Some(fields[0].value)
    } else {
        first_value(fields.drop_first(), name)
    }
}

/// The text of field `name`, if the document has it as a text field.
pub open spec fn text_field(d: DocRecord, name: Seq<char>) -> Option<Seq<char>> {
    match first_value(d.fields@, name) {
        Some(FieldValue::Text(t)) => Some(t@),
        _ => None,
    }
}

/// The items of field `name`, if the document has it as a list field.
pub open spec fn list_field(d: DocRecord, name: Seq<char>) -> Option<Seq<Seq<char>>> {
    match first_value(d.fields@, name) {
        Some(FieldValue::TextList(v)) => Some(v@.map_values(|s: String| s@)),
        _ => None,
    }
}

/// The text of entry `name` inside a group, if present.
pub open spec fn group_text(entries: Seq<GroupField>, name: Seq<char>) -> Option<Seq<char>>
    decreases entries.len(),
{
    if entries.len() == 0 {
        None
    } else if entries[0].name@ == name {
        Some(entries[0].text@)
    } else {
        group_text(entries.drop_first(), name)
    }
}

/// The text of entry `tname` inside the group field `gname`, if the document
/// has that group and the group has that entry.
pub open spec fn group_text_field(d: DocRecord, gname: Seq<char>, tname: Seq<char>) -> Option<
    Seq<char>,
> {
    match first_value(d.fields@, gname) {
        Some(FieldValue::Group(g)) => group_text(g@, tname),
        _ => None,
    }
}

impl DocRecord {
    /// A document with no fields.
    pub fn new() -> (r: DocRecord)
        ensures
            r.fields@.len() == 0,
    {
        DocRecord { fields: Vec::new() }
    }

    fn first_match(&self, name: &str) -> (r: Option<&FieldValue>)
        ensures
            match r {
                Some(v) => first_value(self.fields@, name@) == Some(*v),
                None => first_value(self.fields@, name@) is None,
            },
    {
        let n = self.fields.len();
        let mut i: usize = 0;
        proof {
            assert(self.fields@.skip(0) =~= self.fields@);
        }
        while i < n
            invariant
                i <= n,
                n == self.fields@.len(),
                first_value(self.fields@, name@) == first_value(
                    self.fields@.skip(i as int),
                    name@,
                ),
            decreases n - i,
        {
            proof {
                let tail = self.fields@.skip(i as int);
                assert(tail[0] == self.fields@[i as int]);
                assert(tail.drop_first() =~= self.fields@.skip(i + 1));
            }
            if crate::text::str_eq(self.fields[i].name.as_str(), name) {
                return Some(&self.fields[i].value);
            }
            i = i + 1;
        }
        proof {
            assert(self.fields@.skip(n as int) =~= Seq::<Field>::empty());
        }
        None
    }

    /// The text of field `name`, if the document carries it as text.
    pub fn get_text(&self, name: &str) -> (r: Option<String>)
        ensures
            match r {
                Some(t) => text_field(*self, name@) == Some(t@),
                None => text_field(*self, name@) is None,
            },
    {
        match self.first_match(name) {
            Some(FieldValue::Text(t)) => Some(t.clone()),
            _ => None,
        }
    }

    /// The items of field `name`, if the document carries it as a list.
    pub fn get_list(&self, name: &str) -> (r: Option<Vec<String>>)
        ensures
            match r {
                Some(v) => list_field(*self, name@) == Some(v@.map_values(|s: String| s@)),
                None => list_field(*self, name@) is None,
            },
    {
        match self.first_match(name) {
            Some(FieldValue::TextList(v)) => Some(clone_strings(v)),
            _ => None,
        }
    }

    /// The text of entry `tname` inside the group field `gname`, if present.
    pub fn get_group_text(&self, gname: &str, tname: &str) -> (r: Option<String>)
        ensures
            match r {
                Some(t) => group_text_field(*self, gname@, tname@) == Some(t@),
                None => group_text_field(*self, gname@, tname@) is None,
            },
    {
        let entries = match self.first_match(gname) {
            Some(FieldValue::Group(g)) => g,
            _ => { return None },
        };
        let n = entries.len();
        let mut i: usize = 0;
        proof {
            assert(entries@.skip(0) =~= entries@);
        }
        while i < n
            invariant
                i <= n,
                n == entries@.len(),
                first_value(self.fields@, gname@) == Some(FieldValue::Group(*entries)),
                group_text(entries@, tname@) == group_text(entries@.skip(i as int), tname@),
            decreases n - i,
        {
            proof {
                let tail = entries@.skip(i as int);
                assert(tail[0] == entries@[i as int]);
                assert(tail.drop_first() =~= entries@.skip(i + 1));
            }
            if crate::text::str_eq(entries[i].name.as_str(), tname) {
                return Some(entries[i].text.clone());
            }
            i = i + 1;
        }
        proof {
            assert(entries@.skip(n as int) =~= Seq::<GroupField>::empty());
        }
        None
    }

    /// Adds a text field at the end.
    pub fn push_text(&mut self, name: String, text: String)
        ensures
            final(self).fields@ == old(self).fields@.push(
                Field { name, value: FieldValue::Text(text) },
            ),
    {
        self.fields.push(Field { name, value: FieldValue::Text(text) });
    }

    /// Adds a list field at the end.
    pub fn push_list(&mut self, name: String, items: Vec<String>)
        ensures
            final(self).fields@ == old(self).fields@.push(
                Field { name, value: FieldValue::TextList(items) },
            ),
    {
        self.fields.push(Field { name, value: FieldValue::TextList(items) });
    }

    /// Adds a group field at the end.
    pub fn push_group(&mut self, name: String, entries: Vec<GroupField>)
        ensures
            final(self).fields@ == old(self).fields@.push(
                Field { name, value: FieldValue::Group(entries) },
            ),
    {
        self.fields.push(Field { name, value: FieldValue::Group(entries) });
    }
}

/// Copies a vector of strings.
pub fn clone_strings(v: &Vec<String>) -> (r: Vec<String>)
    ensures
        r@ == v@,
{
    let mut r: Vec<String> = Vec::new();
    let mut i: usize = 0;
    while i < v.len()
        invariant
            i <= v.len(),
            r@ == v@.subrange(0, i as int),
        decreases v.len() - i,
    {
        r.push(v[i].clone());
        proof {
            assert(v@.subrange(0, i + 1) =~= v@.subrange(0, i as int).push(v@[i as int]));
        }
        i = i + 1;
    }
    proof {
        assert(v@.subrange(0, v@.len() as int) =~= v@);
    }
    r
}

} // verus!
