//! A structured JSON value and its mathematical model.

use vstd::prelude::*;

verus! {

/// A JSON number: a non-negative integer, a negative integer, or a binary64
/// value held by its bit pattern.
#[derive(Debug, Clone, Copy, PartialEq, Eq)]
pub enum JsonNumber {
    PosInt(u64),
    NegInt(i64),
    Float(u64),
}

impl JsonNumber {
    /// A number is canonical when an integer stands in the variant of its
    /// sign and a bit pattern stands for a finite value.
    pub open spec fn canonical(self) -> bool {
        match self {
            JsonNumber::PosInt(_) => true,
            JsonNumber::NegInt(i) => i < 0,
            JsonNumber::Float(bits) => (bits >> 52) & 0x7ff != 0x7ff,
        }
    }

    /// The canonical number of a signed integer.
    pub fn from_i64(i: i64) -> (n: JsonNumber)
        ensures
            n.canonical(),
            i < 0 ==> n == JsonNumber::NegInt(i),
            i >= 0 ==> n == JsonNumber::PosInt(i as u64),
    {
        if i < 0 {
            JsonNumber::NegInt(i)
        } else {
            JsonNumber::PosInt(i as u64)
        }
    }
}

/// The model of a [`JsonValue`]: the same tree over sequences.
pub enum JsonModel {
    Null,
    Bool(bool),
    Number(JsonNumber),
    String(Seq<char>),
    Array(Seq<JsonModel>),
    Object(Seq<(Seq<char>, JsonModel)>),
}

/// Whether `fields[i]` is the first field of `fields` named `key`.
pub open spec fn first_named(fields: Seq<(Seq<char>, JsonModel)>, key: Seq<char>, i: int) -> bool {
    &&& 0 <= i < fields.len()
    &&& fields[i].0 == key
    &&& forall|j: int| 0 <= j < i ==> (#[trigger] fields[j]).0 != key
}

impl JsonModel {
    /// The elements, where the value is an array.
    pub open spec fn elements(self) -> Option<Seq<JsonModel>> {
        match self {
            JsonModel::Array(items) => Some(items),
            _ => None,
        }
    }

    /// The text, where the value is a string.
    pub open spec fn text(self) -> Option<Seq<char>> {
        match self {
            JsonModel::String(s) => Some(s),
            _ => None,
        }
    }

    /// The first field named `key`, where the value is an object that has one.
    pub open spec fn field(self, key: Seq<char>) -> Option<JsonModel> {
        match self {
            JsonModel::Object(fields) => if exists|i: int| first_named(fields, key, i) {
                Some(fields[choose|i: int| first_named(fields, key, i)].1)
            } else {
                None
            },
            _ => None,
        }
    }

    /// An array of strings, one for each text of `texts`, in order.
    pub open spec fn strings(texts: Seq<Seq<char>>) -> JsonModel {
        JsonModel::Array(Seq::new(texts.len(), |i: int| JsonModel::String(texts[i])))
    }
}

/// Two indices that are both the first of a name are one index.
pub proof fn lemma_first_named_unique(
    fields: Seq<(Seq<char>, JsonModel)>,
    key: Seq<char>,
    i: int,
    j: int,
)
    requires
        first_named(fields, key, i),
        first_named(fields, key, j),
    ensures
        i == j,
{
    if i < j {
        assert(fields[i].0 != key);
    } else if j < i {
        assert(fields[j].0 != key);
    }
}

/// An arbitrary tree of untyped values, as a remote peer returns it.
#[derive(Debug, PartialEq, Eq)]
pub enum JsonValue {
    Null,
    Bool(bool),
    Number(JsonNumber),
    String(String),
    Array(Vec<JsonValue>),
    Object(Vec<(String, JsonValue)>),
}

impl View for JsonValue {
    type V = JsonModel;

    open spec fn view(&self) -> JsonModel {
        self.model()
    }
}

impl JsonValue {
    /// The tree that this value stands for.
    pub open spec fn model(&self) -> JsonModel
        decreases self,
    {
        match self {
            JsonValue::Null => JsonModel::Null,
            JsonValue::Bool(b) => JsonModel::Bool(*b),
            JsonValue::Number(n) => JsonModel::Number(*n),
            JsonValue::String(s) => JsonModel::String(s@),
            JsonValue::Array(items) => JsonModel::Array(
                Seq::new(
                    items.len() as nat,
                    |i: int|
                        if 0 <= i < items.len() {
                            items[i].model()
                        } else {
                            JsonModel::Null
                        },
                ),
            ),
            JsonValue::Object(fields) => JsonModel::Object(
                Seq::new(
                    fields.len() as nat,
                    |i: int|
                        if 0 <= i < fields.len() {
                            (fields[i].0@, fields[i].1.model())
                        } else {
                            (Seq::empty(), JsonModel::Null)
                        },
                ),
            ),
        }
    }
}

impl JsonValue {
    /// The elements, where the value is an array.
    pub fn as_array(&self) -> (items: Option<&Vec<JsonValue>>)
        ensures
            items matches Some(v) ==> *self == JsonValue::Array(*v),
            items is None ==> self@.elements() is None,
    {
        match self {
            JsonValue::Array(items) => Some(items),
            _ => None,
        }
    }

    /// The text, where the value is a string.
    pub fn as_str(&self) -> (text: Option<&str>)
        ensures
            text matches Some(s) ==> self@ == JsonModel::String(s@),
            text is None ==> self@.text() is None,
    {
        match self {
            JsonValue::String(s) => Some(s.as_str()),
            _ => None,
        }
    }

    /// The first field named `key`, where the value is an object that has
    /// one; nothing for any other value.
    pub fn get(&self, key: &str) -> (found: Option<&JsonValue>)
        ensures
            found matches Some(v) ==> self@.field(key@) == Some(v@),
            found is None ==> self@.field(key@) is None,
    {
        match self {
            JsonValue::Object(fields) => {
                let wanted = key.to_owned();
                let mut i: usize = 0;
                while i < fields.len()
                    invariant
                        i <= fields.len(),
                        wanted@ == key@,
                        *self == JsonValue::Object(*fields),
                        forall|j: int| 0 <= j < i ==> (#[trigger] fields[j]).0@ != key@,
                    decreases fields.len() - i,
                {
                    if fields[i].0 == wanted {
                        proof {
                            let model = self@->Object_0;
                            assert(first_named(model, key@, i as int)) by {
                                assert forall|j: int| 0 <= j < i implies (#[trigger] model[j]).0
                                    != key@ by {
                                    assert(fields[j].0@ != key@);
                                }
                            }
                            let c = choose|c: int| first_named(model, key@, c);
                            lemma_first_named_unique(model, key@, i as int, c);
                        }
                        return Some(&fields[i].1);
                    }
                    i += 1;
                }
                proof {
                    let model = self@->Object_0;
                    assert forall|c: int| !first_named(model, key@, c) by {
                        if 0 <= c < model.len() {
                            assert(fields[c].0@ != key@);
                        }
                    }
                }
                None
            },
            _ => None,
        }
    }

    /// An array of strings, one for each text of `texts`, in order.
    pub fn from_strings(texts: Vec<String>) -> (value: JsonValue)
        ensures
            value@ == JsonModel::strings(texts.deep_view()),
    {
        let mut items: Vec<JsonValue> = Vec::new();
        let mut texts = texts;
        let ghost all = texts.deep_view();
        let mut i: usize = 0;
        let n = texts.len();
        while i < n
            invariant
                i <= n,
                n == texts.len(),
                items.len() == i,
                forall|j: int| i <= j < n ==> (#[trigger] texts[j])@ == all[j],
                all.len() == n,
                forall|j: int| 0 <= j < i ==> (#[trigger] items[j])@ == JsonModel::String(all[j]),
            decreases n - i,
        {
            let mut text = String::new();
            core::mem::swap(&mut text, &mut texts[i]);
            items.push(JsonValue::String(text));
            i += 1;
        }
        let value = JsonValue::Array(items);
        assert(value@->Array_0 =~= JsonModel::strings(all)->Array_0);
        value
    }
}

impl Clone for JsonValue {
    /// A copy of the whole tree.
    fn clone(&self) -> (copy: JsonValue)
        ensures
            copy@ == self@,
        decreases self,
    {
        match self {
            JsonValue::Null => JsonValue::Null,
            JsonValue::Bool(b) => JsonValue::Bool(*b),
            JsonValue::Number(n) => JsonValue::Number(*n),
            JsonValue::String(s) => JsonValue::String(s.clone()),
            JsonValue::Array(items) => {
                let mut copies: Vec<JsonValue> = Vec::new();
                let mut i: usize = 0;
                while i < items.len()
                    invariant
                        i <= items.len(),
                        copies.len() == i,
                        *self == JsonValue::Array(*items),
                        forall|j: int| 0 <= j < i ==> (#[trigger] copies[j])@ == items[j]@,
                    decreases items.len() - i,
                {
                    assert(decreases_to!(*self => self->Array_0));
                    assert(decreases_to!(*items => items[i as int]));
                    copies.push(items[i].clone());
                    i += 1;
                }
                let copy = JsonValue::Array(copies);
                assert(copy@->Array_0 =~= self@->Array_0);
                copy
            },
            JsonValue::Object(fields) => {
                let mut copies: Vec<(String, JsonValue)> = Vec::new();
                let mut i: usize = 0;
                while i < fields.len()
                    invariant
                        i <= fields.len(),
                        copies.len() == i,
                        *self == JsonValue::Object(*fields),
                        forall|j: int|
                            0 <= j < i ==> (#[trigger] copies[j]).0@ == fields[j].0@ && copies[j].1@
                                == fields[j].1@,
                    decreases fields.len() - i,
                {
                    assert(decreases_to!(*self => self->Object_0));
                    assert(decreases_to!(*fields => fields[i as int]));
                    assert(decreases_to!(fields[i as int] => fields[i as int].1));
                    copies.push((fields[i].0.clone(), fields[i].1.clone()));
                    i += 1;
                }
                let copy = JsonValue::Object(copies);
                assert(copy@->Object_0 =~= self@->Object_0);
                copy
            },
        }
    }
}

/// A value on its way to being shown as indented text.
#[derive(Debug, PartialEq, Eq)]
pub struct PrettyJsonValue(pub JsonValue);

impl PrettyJsonValue {
    /// The value that is shown, given back unchanged.
    pub fn into_inner(self) -> (value: JsonValue)
        ensures
            value == self.0,
    {
        self.0
    }
}

impl From<JsonValue> for PrettyJsonValue {
    fn from(value: JsonValue) -> (pretty: PrettyJsonValue)
    {
        PrettyJsonValue(value)
    }
}

impl vstd::std_specs::convert::FromSpecImpl<JsonValue> for PrettyJsonValue {
    open spec fn obeys_from_spec() -> bool {
        true
    }

    open spec fn from_spec(value: JsonValue) -> PrettyJsonValue {
        PrettyJsonValue(value)
    }
}

} // verus!
