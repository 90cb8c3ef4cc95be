//! The fields of a record that is to be created.

use crate::json::{json_doc, json_render, render_json, JsonDoc};
use serde_json::Value;
use vstd::prelude::*;
use vstd::string::*;

verus! {

/// No key stands twice in the list.
pub open spec fn keys_distinct(fields: Seq<(String, Value)>) -> bool {
    forall|i: int, j: int| 0 <= i < j < fields.len() ==> fields[i].0@ != fields[j].0@
}

/// The members that a list of fields stands for: each key with the
/// document of its value, a later pair replacing an earlier one.
pub open spec fn members_of(fields: Seq<(String, Value)>) -> Map<Seq<char>, JsonDoc>
    decreases fields.len(),
{
    if fields.len() == 0 {
        Map::empty()
    } else {
        members_of(fields.drop_last()).insert(fields.last().0@, json_doc(fields.last().1))
    }
}

/// Collects pairs into a `serde_json::Value` (its `FromIterator` for pairs),
/// which makes an object of them.
///
/// Trusted: the object has exactly the given keys, each with the value given
/// for it. No key may stand twice.
#[verifier::external_body]
pub(crate) fn json_object(fields: &Vec<(String, Value)>) -> (object: Value)
    requires
        keys_distinct(fields@),
    ensures
        json_doc(object) == JsonDoc::Object(members_of(fields@)),
{
    fields.iter().cloned().collect::<Value>()
}

/// Where the keys are distinct, the members are the pairs of the list.
pub proof fn lemma_members_of(fields: Seq<(String, Value)>)
    requires
        keys_distinct(fields),
    ensures
        forall|i: int|
            0 <= i < fields.len() ==> #[trigger] members_of(fields).contains_key(fields[i].0@)
                && members_of(fields)[fields[i].0@] == json_doc(fields[i].1),
        forall|key: Seq<char>| #[trigger]
            members_of(fields).contains_key(key) ==> exists|i: int|
                0 <= i < fields.len() && #[trigger] fields[i].0@ == key,
    decreases fields.len(),
{
    if fields.len() > 0 {
        let front = fields.drop_last();
        lemma_members_of(front);
        assert forall|i: int| 0 <= i < fields.len() implies #[trigger] members_of(
            fields,
        ).contains_key(fields[i].0@) && members_of(fields)[fields[i].0@] == json_doc(
            fields[i].1,
        ) by {
            if i < fields.len() - 1 {
                assert(front[i] == fields[i]);
                assert(members_of(front).contains_key(front[i].0@));
            }
        }
        assert forall|key: Seq<char>| #[trigger]
            members_of(fields).contains_key(key) implies exists|i: int|
            0 <= i < fields.len() && #[trigger] fields[i].0@ == key by {
            if key == fields.last().0@ {
                assert(fields[fields.len() - 1].0@ == key);
            } else {
                assert(members_of(front).contains_key(key));
                let i = choose|i: int| 0 <= i < front.len() && #[trigger] front[i].0@ == key;
                assert(fields[i].0@ == key);
            }
        }
    }
}

/// Replacing the value of a key that the list holds replaces that member.
proof fn lemma_members_of_update(fields: Seq<(String, Value)>, at: int, pair: (String, Value))
    requires
        keys_distinct(fields),
        0 <= at < fields.len(),
        fields[at].0@ == pair.0@,
    ensures
        keys_distinct(fields.update(at, pair)),
        members_of(fields.update(at, pair)) == members_of(fields).insert(
            pair.0@,
            json_doc(pair.1),
        ),
    decreases fields.len(),
{
    let updated = fields.update(at, pair);
    assert(keys_distinct(updated)) by {
        assert forall|i: int, j: int| 0 <= i < j < updated.len() implies updated[i].0@
            != updated[j].0@ by {
            assert(updated[i].0@ == fields[i].0@);
            assert(updated[j].0@ == fields[j].0@);
        }
    }
    if at == fields.len() - 1 {
        assert(updated.drop_last() =~= fields.drop_last());
        assert(members_of(updated) =~= members_of(fields).insert(pair.0@, json_doc(pair.1)));
    } else {
        let front = fields.drop_last();
        lemma_members_of_update(front, at, pair);
        assert(updated.drop_last() =~= front.update(at, pair));
        assert(updated.last() == fields.last());
        assert(fields[at].0@ != fields[fields.len() - 1].0@);
        assert(members_of(updated) =~= members_of(fields).insert(pair.0@, json_doc(pair.1)));
    }
}

/// The object of a record holds each field of the record under its name,
/// with the document of its value, and holds nothing else.
pub proof fn lemma_document_holds_the_fields(fields: Map<Seq<char>, JsonDoc>, name: Seq<char>)
    ensures
        fields.contains_key(name) ==> JsonDoc::Object(fields).member(name) == fields[name],
        !fields.contains_key(name) ==> JsonDoc::Object(fields).member(name) == JsonDoc::Null,
{
}

/// Setting a field loses none of the others: every other name keeps its
/// value, and no other name appears.
pub proof fn lemma_insert_keeps_other_fields(
    fields: Map<Seq<char>, JsonDoc>,
    name: Seq<char>,
    doc: JsonDoc,
    other: Seq<char>,
)
    requires
        other != name,
    ensures
        fields.insert(name, doc).contains_key(name),
        fields.insert(name, doc)[name] == doc,
        fields.insert(name, doc).contains_key(other) == fields.contains_key(other),
        fields.contains_key(other) ==> fields.insert(name, doc)[other] == fields[other],
{
}

/// The order in which two fields of different names are set does not show:
/// either way the record is the same mapping, and so is written as the same
/// JSON text.
pub proof fn lemma_insert_order_does_not_show(
    fields: Map<Seq<char>, JsonDoc>,
    first: Seq<char>,
    first_doc: JsonDoc,
    second: Seq<char>,
    second_doc: JsonDoc,
)
    requires
        first != second,
    ensures
        fields.insert(first, first_doc).insert(second, second_doc) == fields.insert(
            second,
            second_doc,
        ).insert(first, first_doc),
        json_render(JsonDoc::Object(fields.insert(first, first_doc).insert(second, second_doc)))
            == json_render(
            JsonDoc::Object(fields.insert(second, second_doc).insert(first, first_doc)),
        ),
{
    assert(fields.insert(first, first_doc).insert(second, second_doc) =~= fields.insert(
        second,
        second_doc,
    ).insert(first, first_doc));
}

/// The fields of a record: a mapping from field names to JSON values.
///
/// Each name occurs once, and the order in which the fields were given
/// means nothing.
#[derive(Debug)]
pub struct Record {
    fields: Vec<(String, Value)>,
}

impl View for Record {
    type V = Map<Seq<char>, JsonDoc>;

    closed spec fn view(&self) -> Map<Seq<char>, JsonDoc> {
        members_of(self.fields@)
    }
}

impl Record {
    #[verifier::type_invariant]
    spec fn names_occur_once(self) -> bool {
        keys_distinct(self.fields@)
    }

    /// The JSON object that holds exactly the fields.
    pub open spec fn document(self) -> JsonDoc {
        JsonDoc::Object(self@)
    }

    /// A record without fields.
    pub fn new() -> (record: Record)
        ensures
            record@ == Map::<Seq<char>, JsonDoc>::empty(),
    {
        Record { fields: Vec::new() }
    }

    /// Sets the field `key` to `value`, in place of the value that the key
    /// had, if it had one.
    pub fn insert(&mut self, key: String, value: Value)
        ensures
            final(self)@ == old(self)@.insert(key@, json_doc(value)),
    {
        proof {
            use_type_invariant(&*self);
        }
        let mut fields: Vec<(String, Value)> = Vec::new();
        std::mem::swap(&mut self.fields, &mut fields);
        let mut i: usize = 0;
        while i < fields.len()
            invariant
                i <= fields.len(),
                fields@ == old(self).fields@,
                keys_distinct(fields@),
                forall|j: int| 0 <= j < i ==> fields@[j].0@ != key@,
            decreases fields.len() - i,
        {
            if fields[i].0 == key {
                proof {
                    lemma_members_of_update(fields@, i as int, (key, value));
                }
                fields.set(i, (key, value));
                self.fields = fields;
                return ;
            }
            i += 1;
        }
        proof {
            let pushed = fields@.push((key, value));
            assert(pushed.drop_last() =~= fields@);
            assert(keys_distinct(pushed));
        }
        fields.push((key, value));
        self.fields = fields;
    }

    /// The value of the field `key`, if the record has that field.
    pub fn get(&self, key: &str) -> (found: Option<&Value>)
        ensures
            match found {
                Some(value) => self@.contains_key(key@) && self@[key@] == json_doc(*value),
                None => !self@.contains_key(key@),
            },
    {
        proof {
            use_type_invariant(self);
        }
        let wanted = String::from_str(key);
        let mut i: usize = 0;
        while i < self.fields.len()
            invariant
                i <= self.fields.len(),
                wanted@ == key@,
                keys_distinct(self.fields@),
                forall|j: int| 0 <= j < i ==> self.fields@[j].0@ != key@,
            decreases self.fields.len() - i,
        {
            if self.fields[i].0 == wanted {
                proof {
                    lemma_members_of(self.fields@);
                    assert(members_of(self.fields@).contains_key(self.fields@[i as int].0@));
                }
                return Some(&self.fields[i].1);
            }
            i += 1;
        }
        proof {
            lemma_members_of(self.fields@);
        }
        None
    }

    /// The record as the compact JSON text of an object.
    pub fn to_json(&self) -> (text: String)
        ensures
            text@ == json_render(self.document()),
    {
        proof {
            use_type_invariant(self);
        }
        let object = json_object(&self.fields);
        render_json(&object)
    }
}

} // verus!
