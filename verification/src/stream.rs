//! Entries read from a Redis stream, held as plain values, and field lookup in them.
use vstd::prelude::*;
use crate::schedule::pairs_view;
use vstd::utf8::encode_utf8;

verus! {

/// The value of a field of a stream entry: bulk data, or any other kind of reply.
#[derive(Debug, PartialEq, Eq)]
pub enum FieldValue {
    Data(Vec<u8>),
    Other,
}

/// One entry of a stream: its id and its fields in order. Lookups take the first
/// field of a name; an entry made from a Redis reply names each field once
/// (`has_distinct_names`), and then the first field is the only one.
pub struct StreamEntry {
    pub id: String,
    pub fields: Vec<(String, FieldValue)>,
}

/// A field as the logic sees it: its name, and its bytes when it holds bulk data.
pub open spec fn field_view(field: (String, FieldValue)) -> (Seq<char>, Option<Seq<u8>>) {
    (field.0@, match field.1 {
        FieldValue::Data(bytes) => Some(bytes@),
        FieldValue::Other => None,
    })
}

impl StreamEntry {
    /// The fields of the entry as names and optional bytes.
    pub open spec fn fields_view(&self) -> Seq<(Seq<char>, Option<Seq<u8>>)> {
        self.fields@.map_values(|f: (String, FieldValue)| field_view(f))
    }

    /// No two fields of the entry share a name.
    pub open spec fn has_distinct_names(&self) -> bool {
        distinct_names(self.fields_view())
    }
}

/// The fields Redis hands back for an entry written with the given name and value
/// pairs: each value as the bytes of its UTF-8 encoding.
pub open spec fn stored_fields(written: Seq<(Seq<char>, Seq<char>)>) -> Seq<(Seq<char>, Option<Seq<u8>>)> {
    written.map_values(|p: (Seq<char>, Seq<char>)| (p.0, Some(encode_utf8(p.1))))
}

/// The fields read back for an entry written from `String` pairs.
pub open spec fn stored_from(written: Seq<(String, String)>) -> Seq<(Seq<char>, Option<Seq<u8>>)> {
    stored_fields(pairs_view(written))
}

/// No two fields share a name.
pub open spec fn distinct_names(fields: Seq<(Seq<char>, Option<Seq<u8>>)>) -> bool {
    forall|i: int, j: int| 0 <= i < j < fields.len() ==> #[trigger] fields[i].0 != #[trigger] fields[j].0
}

/// The value of the first field named `name`, if any.
pub open spec fn lookup(fields: Seq<(Seq<char>, Option<Seq<u8>>)>, name: Seq<char>) -> Option<Option<Seq<u8>>>
    decreases fields.len(),
{
    if fields.len() == 0 {
        None
    } else if fields[0].0 == name {
        Some(fields[0].1)
    } else {
        lookup(fields.drop_first(), name)
    }
}

/// Looking past fields with other names does not change the answer.
pub proof fn lemma_lookup_skip(fields: Seq<(Seq<char>, Option<Seq<u8>>)>, name: Seq<char>, i: int)
    requires
        0 <= i <= fields.len(),
        forall|j: int| 0 <= j < i ==> #[trigger] fields[j].0 != name,
    ensures
        lookup(fields, name) == lookup(fields.skip(i), name),
    decreases i,
{
    if i > 0 {
        assert forall|j: int| 0 <= j < i - 1 implies #[trigger] fields.drop_first()[j].0 != name by {
            assert(fields.drop_first()[j] == fields[j + 1]);
        }
        lemma_lookup_skip(fields.drop_first(), name, i - 1);
        assert(fields.drop_first().skip(i - 1) =~= fields.skip(i));
    } else {
        assert(fields.skip(0) =~= fields);
    }
}

/// With distinct names, looking a name up gives the value of the one field that has it.
pub proof fn lemma_lookup_distinct(fields: Seq<(Seq<char>, Option<Seq<u8>>)>, i: int)
    requires
        distinct_names(fields),
        0 <= i < fields.len(),
    ensures
        lookup(fields, fields[i].0) == Some(fields[i].1),
{
    let name = fields[i].0;
    assert forall|j: int| 0 <= j < i implies #[trigger] fields[j].0 != name by {
        assert(fields[j].0 != fields[i].0);
    }
    lemma_lookup_skip(fields, name, i);
    assert(fields.skip(i)[0] == fields[i]);
}

/// The position of the first field named `name`, if any.
pub fn find_field(entry: &StreamEntry, name: &str) -> (position: Option<usize>)
    ensures
        match position {
            Some(i) => {
                &&& i < entry.fields@.len()
                &&& entry.fields_view()[i as int].0 == name@
                &&& forall|j: int| 0 <= j < i ==> #[trigger] entry.fields_view()[j].0 != name@
                &&& lookup(entry.fields_view(), name@) == Some(entry.fields_view()[i as int].1)
            },
            None => lookup(entry.fields_view(), name@) is None,
        },
{
    let ghost fields = entry.fields_view();
    let mut i: usize = 0;
    while i < entry.fields.len()
        invariant
            fields == entry.fields_view(),
            i <= entry.fields@.len(),
            forall|j: int| 0 <= j < i ==> #[trigger] fields[j].0 != name@,
        decreases entry.fields@.len() - i,
    {
        if crate::text::text_eq(entry.fields[i].0.as_str(), name) {
            proof {
                lemma_lookup_skip(fields, name@, i as int);
                assert(fields.skip(i as int)[0] == fields[i as int]);
            }
            return Some(i);
        }
        i = i + 1;
    }
    proof {
        lemma_lookup_skip(fields, name@, i as int);
        assert(fields.skip(i as int).len() == 0);
    }
    None
}

} // verus!
