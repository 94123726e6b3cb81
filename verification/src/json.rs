//! A JSON document type for request bodies and responses, with its
//! mathematical model and the lookups the library performs on it.
use vstd::prelude::*;

verus! {

/// The mathematical model of a JSON document: strings as character
/// sequences, objects as ordered key/value lists.
pub enum JsonValue {
    Null,
    Bool(bool),
    /// A number, kept in its textual form.
    Number(Seq<char>),
    Str(Seq<char>),
    Array(Seq<JsonValue>),
    Object(Seq<(Seq<char>, JsonValue)>),
}

/// A JSON document.
pub enum Json {
    Null,
    Bool(bool),
    /// A number, kept in its textual form.
    Number(String),
    Str(String),
    Array(Vec<Json>),
    Object(Vec<(String, Json)>),
}

/// The model of a document.
pub open spec fn model_of(j: Json) -> JsonValue
    decreases j,
{
    match j {
        Json::Null => JsonValue::Null,
        Json::Bool(b) => JsonValue::Bool(b),
        Json::Number(n) => JsonValue::Number(n@),
        Json::Str(s) => JsonValue::Str(s@),
        Json::Array(items) => JsonValue::Array(models_of(items@)),
        Json::Object(entries) => JsonValue::Object(entry_models_of(entries@)),
    }
}

/// The models of a list of documents.
pub open spec fn models_of(items: Seq<Json>) -> Seq<JsonValue>
    decreases items,
{
    if items.len() == 0 {
        Seq::empty()
    } else {
        models_of(items.drop_last()).push(model_of(items.last()))
    }
}

/// The models of a list of object entries.
pub open spec fn entry_models_of(entries: Seq<(String, Json)>) -> Seq<(Seq<char>, JsonValue)>
    decreases entries,
{
    if entries.len() == 0 {
        Seq::empty()
    } else {
        entry_models_of(entries.drop_last()).push((entries.last().0@, model_of(entries.last().1)))
    }
}

/// The model of an optional reference to a document.
pub open spec fn opt_model(o: Option<&Json>) -> Option<JsonValue> {
    match o {
        Some(j) => Some(model_of(*j)),
        None => None,
    }
}

/// The value of the first entry whose key is `key`.
pub open spec fn find_field(entries: Seq<(Seq<char>, JsonValue)>, key: Seq<char>) -> Option<
    JsonValue,
>
    decreases entries.len(),
{
    if entries.len() == 0 {
        None
    } else if entries[0].0 == key {
        Some(entries[0].1)
    } else {
        find_field(entries.drop_first(), key)
    }
}

impl JsonValue {
    /// The member `key` of an object; nothing for any other value.
    pub open spec fn field(self, key: Seq<char>) -> Option<JsonValue> {
        match self {
            JsonValue::Object(entries) => find_field(entries, key),
            _ => None,
        }
    }

    /// The element at position `i` of an array; nothing for any other value.
    pub open spec fn item(self, i: int) -> Option<JsonValue> {
        match self {
            JsonValue::Array(items) => if 0 <= i < items.len() {
                Some(items[i])
            } else {
                None
            },
            _ => None,
        }
    }

    /// The contents of a string; nothing for any other value.
    pub open spec fn text(self) -> Option<Seq<char>> {
        match self {
            JsonValue::Str(s) => Some(s),
            _ => None,
        }
    }
}

/// Follows `field(key)` from an optional value.
pub open spec fn then_field(v: Option<JsonValue>, key: Seq<char>) -> Option<JsonValue> {
    match v {
        Some(j) => j.field(key),
        None => None,
    }
}

/// Follows `item(i)` from an optional value.
pub open spec fn then_item(v: Option<JsonValue>, i: int) -> Option<JsonValue> {
    match v {
        Some(j) => j.item(i),
        None => None,
    }
}

/// Follows `text()` from an optional value.
pub open spec fn then_text(v: Option<JsonValue>) -> Option<Seq<char>> {
    match v {
        Some(j) => j.text(),
        None => None,
    }
}

pub proof fn lemma_models_index(items: Seq<Json>)
    ensures
        models_of(items).len() == items.len(),
        forall|i: int| 0 <= i < items.len() ==> #[trigger] models_of(items)[i] == model_of(items[i]),
    decreases items.len(),
{
    if items.len() > 0 {
        lemma_models_index(items.drop_last());
    }
}

pub proof fn lemma_entry_models_index(entries: Seq<(String, Json)>)
    ensures
        entry_models_of(entries).len() == entries.len(),
        forall|i: int|
            0 <= i < entries.len() ==> #[trigger] entry_models_of(entries)[i] == (
                entries[i].0@,
                model_of(entries[i].1),
            ),
    decreases entries.len(),
{
    if entries.len() > 0 {
        lemma_entry_models_index(entries.drop_last());
    }
}

proof fn lemma_find_field_at(entries: Seq<(Seq<char>, JsonValue)>, key: Seq<char>, i: int)
    requires
        0 <= i <= entries.len(),
        forall|j: int| 0 <= j < i ==> #[trigger] entries[j].0 != key,
    ensures
        i == entries.len() ==> find_field(entries, key) is None,
        i < entries.len() && entries[i].0 == key ==> find_field(entries, key) == Some(
            entries[i].1,
        ),
    decreases i,
{
    if i > 0 {
        let t = entries.drop_first();
        assert forall|j: int| 0 <= j < i - 1 implies #[trigger] t[j].0 != key by {
            assert(t[j] == entries[j + 1]);
        }
        lemma_find_field_at(t, key, i - 1);
        assert(entries[0].0 != key);
        if i < entries.len() {
            assert(t[i - 1] == entries[i]);
        }
    }
}

pub proof fn lemma_entries_push(s: Seq<(String, Json)>, e: (String, Json))
    ensures
        entry_models_of(s.push(e)) == entry_models_of(s).push((e.0@, model_of(e.1))),
{
    assert(s.push(e).drop_last() =~= s);
}

pub proof fn lemma_items_push(s: Seq<Json>, e: Json)
    ensures
        models_of(s.push(e)) == models_of(s).push(model_of(e)),
{
    assert(s.push(e).drop_last() =~= s);
}

/// A string document.
pub fn json_str(s: &str) -> (res: Json)
    ensures
        model_of(res) == JsonValue::Str(s@),
{
    Json::Str(s.to_owned())
}

/// An object entry named `key`.
pub fn entry(key: &str, value: Json) -> (res: (String, Json))
    ensures
        res.0@ == key@,
        res.1 == value,
{
    (key.to_owned(), value)
}

/// Appends an entry to an object under construction.
pub fn push_entry(entries: &mut Vec<(String, Json)>, key: &str, value: Json)
    ensures
        entry_models_of(final(entries)@) == entry_models_of(old(entries)@).push(
            (key@, model_of(value)),
        ),
{
    let e = entry(key, value);
    proof {
        lemma_entries_push(entries@, e);
    }
    entries.push(e);
}

/// Appends an element to an array under construction.
pub fn push_item(items: &mut Vec<Json>, value: Json)
    ensures
        models_of(final(items)@) == models_of(old(items)@).push(model_of(value)),
{
    proof {
        lemma_items_push(items@, value);
    }
    items.push(value);
}

impl Json {
    /// The member `key` of an object (as `serde_json::Value::get` with a key).
    pub fn get(&self, key: &str) -> (res: Option<&Json>)
        ensures
            opt_model(res) == model_of(*self).field(key@),
    {
        match self {
            Json::Object(entries) => {
                let k = key.to_owned();
                proof {
                    lemma_entry_models_index(entries@);
                }
                let ghost em = entry_models_of(entries@);
                let mut i: usize = 0;
                while i < entries.len()
                    invariant
                        i <= entries@.len(),
                        k@ == key@,
                        em == entry_models_of(entries@),
                        model_of(*self) == JsonValue::Object(em),
                        em.len() == entries@.len(),
                        forall|j: int|
                            0 <= j < entries@.len() ==> #[trigger] em[j] == (
                                entries@[j].0@,
                                model_of(entries@[j].1),
                            ),
                        forall|j: int| 0 <= j < i ==> #[trigger] em[j].0 != key@,
                    decreases entries@.len() - i,
                {
                    if entries[i].0 == k {
                        proof {
                            assert(em[i as int] == (
                                entries@[i as int].0@,
                                model_of(entries@[i as int].1),
                            ));
                            lemma_find_field_at(em, key@, i as int);
                        }
                        return Some(&entries[i].1);
                    }
                    assert(em[i as int].0 != key@);
                    i = i + 1;
                }
                proof {
                    lemma_find_field_at(em, key@, i as int);
                }
                None
            },
            _ => None,
        }
    }

    /// The element at position `i` of an array (as `serde_json::Value::get`
    /// with an index).
    pub fn at(&self, i: usize) -> (res: Option<&Json>)
        ensures
            opt_model(res) == model_of(*self).item(i as int),
    {
        match self {
            Json::Array(items) => {
                proof {
                    lemma_models_index(items@);
                }
                if i < items.len() {
                    Some(&items[i])
                } else {
                    None
                }
            },
            _ => None,
        }
    }

    /// The contents of a string (as `serde_json::Value::as_str`).
    pub fn as_str(&self) -> (res: Option<&str>)
        ensures
            match res {
                Some(s) => model_of(*self).text() == Some(s@),
                None => model_of(*self).text() is None,
            },
    {
        match self {
            Json::Str(s) => Some(s.as_str()),
            _ => None,
        }
    }
}

} // verus!
