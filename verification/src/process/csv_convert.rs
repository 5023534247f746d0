//! CSV records as JSON values, and JSON values as TOML values.
//!
//! The values are this library's own: what a serializer needs to know of
//! them, and no more. Numbers that are no integers are carried, not
//! computed with.

use vstd::prelude::*;

verus! {

/// A JSON number.
#[derive(Debug, Clone, Copy, PartialEq, Eq)]
pub enum JsonNumber {
    /// An integer that is not negative.
    PosInt(u64),
    /// A negative integer.
    NegInt(i64),
    /// Any other number, as the bits of its double-precision form.
    Float(u64),
}

/// A JSON value. An object holds its members in the order in which they
/// were given; a serializer decides what becomes of a repeated key.
#[derive(Debug, PartialEq, Eq)]
pub enum JsonValue {
    /// `null`.
    Null,
    /// `true` or `false`.
    Bool(bool),
    /// A number.
    Number(JsonNumber),
    /// A text.
    String(String),
    /// A list of values.
    Array(Vec<JsonValue>),
    /// Keys with their values.
    Object(Vec<(String, JsonValue)>),
}

/// A TOML number that is no integer.
#[derive(Debug, Clone, Copy, PartialEq, Eq)]
pub enum TomlFloat {
    /// The double-precision number with these bits.
    Bits(u64),
    /// The double-precision number that is nearest to this integer.
    Nearest(u64),
}

/// A TOML value. A table holds its entries in the order in which they were
/// given.
#[derive(Debug, PartialEq, Eq)]
pub enum TomlValue {
    /// A text.
    String(String),
    /// An integer.
    Integer(i64),
    /// A number that is no integer.
    Float(TomlFloat),
    /// `true` or `false`.
    Boolean(bool),
    /// A list of values.
    Array(Vec<TomlValue>),
    /// Keys with their values.
    Table(Vec<(String, TomlValue)>),
}

/// A JSON value as mathematics sees it.
#[verifier::ext_equal]
pub enum JsonModel {
    Null,
    Bool(bool),
    Number(JsonNumber),
    String(Seq<char>),
    Array(Seq<JsonModel>),
    Object(Seq<(Seq<char>, JsonModel)>),
}

/// A TOML value as mathematics sees it.
#[verifier::ext_equal]
pub enum TomlModel {
    String(Seq<char>),
    Integer(i64),
    Float(TomlFloat),
    Boolean(bool),
    Array(Seq<TomlModel>),
    Table(Seq<(Seq<char>, TomlModel)>),
}

impl JsonValue {
    /// The value as mathematics sees it.
    pub open spec fn model(self) -> JsonModel
        decreases self,
    {
        match self {
            JsonValue::Null => JsonModel::Null,
            JsonValue::Bool(b) => JsonModel::Bool(b),
            JsonValue::Number(n) => JsonModel::Number(n),
            JsonValue::String(s) => JsonModel::String(s@),
            JsonValue::Array(items) => JsonModel::Array(
                Seq::new(
                    items@.len(),
                    |i: int|
                        if 0 <= i < items@.len() {
                            items@[i].model()
                        } else {
                            JsonModel::Null
                        },
                ),
            ),
            JsonValue::Object(members) => JsonModel::Object(
                Seq::new(
                    members@.len(),
                    |i: int|
                        if 0 <= i < members@.len() {
                            (members@[i].0@, members@[i].1.model())
                        } else {
                            (Seq::empty(), JsonModel::Null)
                        },
                ),
            ),
        }
    }
}

impl View for JsonValue {
    type V = JsonModel;

    open spec fn view(&self) -> JsonModel {
        self.model()
    }
}

impl TomlValue {
    /// The value as mathematics sees it.
    pub open spec fn model(self) -> TomlModel
        decreases self,
    {
        match self {
            TomlValue::String(s) => TomlModel::String(s@),
            TomlValue::Integer(i) => TomlModel::Integer(i),
            TomlValue::Float(f) => TomlModel::Float(f),
            TomlValue::Boolean(b) => TomlModel::Boolean(b),
            TomlValue::Array(items) => TomlModel::Array(
                Seq::new(
                    items@.len(),
                    |i: int|
                        if 0 <= i < items@.len() {
                            items@[i].model()
                        } else {
                            TomlModel::Boolean(false)
                        },
                ),
            ),
            TomlValue::Table(entries) => TomlModel::Table(
                Seq::new(
                    entries@.len(),
                    |i: int|
                        if 0 <= i < entries@.len() {
                            (entries@[i].0@, entries@[i].1.model())
                        } else {
                            (Seq::empty(), TomlModel::Boolean(false))
                        },
                ),
            ),
        }
    }
}

impl View for TomlValue {
    type V = TomlModel;

    open spec fn view(&self) -> TomlModel {
        self.model()
    }
}

/// The TOML number that stands for a JSON number: the integer, where it is
/// one that TOML can hold, else the number in double precision.
pub open spec fn toml_number(number: JsonNumber) -> TomlModel {
    match number {
        JsonNumber::PosInt(n) => if n <= i64::MAX {
            TomlModel::Integer(n as i64)
        } else {
            TomlModel::Float(TomlFloat::Nearest(n))
        },
        JsonNumber::NegInt(i) => TomlModel::Integer(i),
        JsonNumber::Float(bits) => TomlModel::Float(TomlFloat::Bits(bits)),
    }
}

/// The TOML value that stands for a JSON value. TOML has no `null`: it
/// becomes the text `null`. Lists and objects keep their order, and their
/// parts are treated alike.
pub open spec fn toml_of(json: JsonModel) -> TomlModel
    decreases json,
{
    match json {
        JsonModel::Null => TomlModel::String("null"@),
        JsonModel::Bool(b) => TomlModel::Boolean(b),
        JsonModel::Number(n) => toml_number(n),
        JsonModel::String(s) => TomlModel::String(s),
        JsonModel::Array(items) => TomlModel::Array(
            Seq::new(
                items.len(),
                |i: int|
                    if 0 <= i < items.len() {
                        toml_of(items[i])
                    } else {
                        TomlModel::Boolean(false)
                    },
            ),
        ),
        JsonModel::Object(members) => TomlModel::Table(
            Seq::new(
                members.len(),
                |i: int|
                    if 0 <= i < members.len() {
                        (members[i].0, toml_of(members[i].1))
                    } else {
                        (Seq::empty(), TomlModel::Boolean(false))
                    },
            ),
        ),
    }
}

/// Turns a JSON value into the TOML value that stands for it.
#[verifier::loop_isolation(false)]
pub fn json_to_toml(json: &JsonValue) -> (toml: TomlValue)
    ensures
        toml@ == toml_of(json@),
    decreases json,
{
    match json {
        JsonValue::Null => TomlValue::String("null".to_owned()),
        JsonValue::Bool(b) => TomlValue::Boolean(*b),
        JsonValue::Number(n) => match n {
            JsonNumber::PosInt(n) => if *n <= i64::MAX as u64 {
                TomlValue::Integer(*n as i64)
            } else {
                TomlValue::Float(TomlFloat::Nearest(*n))
            },
            JsonNumber::NegInt(i) => TomlValue::Integer(*i),
            JsonNumber::Float(bits) => TomlValue::Float(TomlFloat::Bits(*bits)),
        },
        JsonValue::String(s) => TomlValue::String(s.clone()),
        JsonValue::Array(items) => {
            let mut converted: Vec<TomlValue> = Vec::new();
            let mut i: usize = 0;
            while i < items.len()
                invariant
                    i <= items@.len(),
                    converted@.len() == i,
                    forall|j: int| 0 <= j < i ==> (#[trigger] converted@[j])@ == toml_of(items@[j]@),
                decreases items@.len() - i,
            {
                proof {
                    assert(decreases_to!(*json => *items));
                    assert(decreases_to!(*items => items@));
                    assert(decreases_to!(items@ => items@[i as int]));
                }
                converted.push(json_to_toml(&items[i]));
                i = i + 1;
            }
            let toml = TomlValue::Array(converted);
            assert(toml@->Array_0 =~= toml_of(json@)->Array_0);
            toml
        },
        JsonValue::Object(members) => {
            let mut converted: Vec<(String, TomlValue)> = Vec::new();
            let mut i: usize = 0;
            while i < members.len()
                invariant
                    i <= members@.len(),
                    converted@.len() == i,
                    forall|j: int|
                        0 <= j < i ==> (#[trigger] converted@[j]).0@ == members@[j].0@
                            && converted@[j].1@ == toml_of(members@[j].1@),
                decreases members@.len() - i,
            {
                proof {
                    assert(decreases_to!(*json => *members));
                    assert(decreases_to!(*members => members@));
                    assert(decreases_to!(members@ => members@[i as int]));
                    assert(decreases_to!(members@[i as int] => members@[i as int].1));
                }
                let key = members[i].0.clone();
                let value = json_to_toml(&members[i].1);
                converted.push((key, value));
                i = i + 1;
            }
            let toml = TomlValue::Table(converted);
            assert(toml@->Table_0 =~= toml_of(json@)->Table_0);
            toml
        },
    }
}

/// The JSON object of one record: each column's name with the record's
/// field in that column, as a text. Where the record and the names differ in
/// number, what has no partner is left out.
pub open spec fn record_object(headers: Seq<Seq<char>>, record: Seq<Seq<char>>) -> JsonModel {
    JsonModel::Object(
        Seq::new(
            if headers.len() <= record.len() {
                headers.len()
            } else {
                record.len()
            },
            |i: int| (headers[i], JsonModel::String(record[i])),
        ),
    )
}

/// The texts of a list of strings.
pub open spec fn texts(strings: Seq<String>) -> Seq<Seq<char>> {
    Seq::new(strings.len(), |i: int| strings[i]@)
}

/// Makes the JSON object of one record.
pub fn record_to_json(headers: &Vec<String>, record: &Vec<String>) -> (object: JsonValue)
    ensures
        object@ == record_object(texts(headers@), texts(record@)),
{
    let mut members: Vec<(String, JsonValue)> = Vec::new();
    let mut i: usize = 0;
    while i < headers.len() && i < record.len()
        invariant
            i <= headers@.len(),
            i <= record@.len(),
            members@.len() == i,
            forall|j: int|
                0 <= j < i ==> (#[trigger] members@[j]).0@ == headers@[j]@ && members@[j].1@
                    == JsonModel::String(record@[j]@),
        decreases headers@.len() - i,
    {
        members.push((headers[i].clone(), JsonValue::String(record[i].clone())));
        i = i + 1;
    }
    let object = JsonValue::Object(members);
    assert(object@->Object_0 =~= record_object(texts(headers@), texts(record@))->Object_0);
    object
}

/// Makes the JSON objects of all records, in their order.
pub fn records_to_json(headers: &Vec<String>, records: &Vec<Vec<String>>) -> (objects: Vec<
    JsonValue,
>)
    ensures
        objects@.len() == records@.len(),
        forall|i: int|
            0 <= i < records@.len() ==> (#[trigger] objects@[i])@ == record_object(
                texts(headers@),
                texts(records@[i]@),
            ),
{
    let mut objects: Vec<JsonValue> = Vec::new();
    let mut i: usize = 0;
    while i < records.len()
        invariant
            i <= records@.len(),
            objects@.len() == i,
            forall|j: int|
                0 <= j < i ==> (#[trigger] objects@[j])@ == record_object(
                    texts(headers@),
                    texts(records@[j]@),
                ),
        decreases records@.len() - i,
    {
        objects.push(record_to_json(headers, &records[i]));
        i = i + 1;
    }
    objects
}

/// A list of JSON values as mathematics sees it.
pub open spec fn models(values: Seq<JsonValue>) -> Seq<JsonModel> {
    Seq::new(values.len(), |i: int| values[i]@)
}

/// The TOML document of a list of JSON values. TOML has no list at its top,
/// so the list stands in a table, under the key `data`.
pub open spec fn toml_document_of(values: Seq<JsonModel>) -> TomlModel {
    TomlModel::Table(seq![("data"@, toml_of(JsonModel::Array(values)))])
}

/// Makes the TOML document of a list of JSON values.
pub fn toml_document(values: Vec<JsonValue>) -> (document: TomlValue)
    ensures
        document@ == toml_document_of(models(values@)),
{
    let ghost wanted = toml_document_of(models(values@));
    let list = JsonValue::Array(values);
    proof {
        assert(list@->Array_0 =~= models(values@));
    }
    let data = json_to_toml(&list);
    let mut entries: Vec<(String, TomlValue)> = Vec::new();
    entries.push(("data".to_owned(), data));
    let document = TomlValue::Table(entries);
    proof {
        assert(document@->Table_0 =~= wanted->Table_0);
    }
    document
}

} // verus!
