//! JSON values as the stream of the service carries them.

use crate::text;
use crate::text::equals;
use vstd::prelude::*;

verus! {

/// A JSON value. What a number is worth is not kept: nothing reads it.
#[derive(Debug)]
pub enum Json {
    Null,
    Bool(bool),
    Number,
    Text(String),
    Array(Vec<Json>),
    Object(Vec<(String, Json)>),
}

/// The model of a [`Json`].
pub enum JsonView {
    Null,
    Bool(bool),
    Number,
    Text(Seq<char>),
    Array(Seq<JsonView>),
    Object(Seq<(Seq<char>, JsonView)>),
}

impl Json {
    /// The model of the value.
    pub open spec fn model(self) -> JsonView
        decreases self,
    {
        match self {
            Json::Null => JsonView::Null,
            Json::Bool(b) => JsonView::Bool(b),
            Json::Number => JsonView::Number,
            Json::Text(s) => JsonView::Text(s@),
            Json::Array(items) => JsonView::Array(
                Seq::new(
                    items@.len(),
                    |i: int|
                        if 0 <= i < items@.len() {
                            items@[i].model()
                        } else {
                            JsonView::Null
                        },
                ),
            ),
            Json::Object(fields) => JsonView::Object(
                Seq::new(
                    fields@.len(),
                    |i: int|
                        if 0 <= i < fields@.len() {
                            (fields@[i].0@, fields@[i].1.model())
                        } else {
                            (Seq::empty(), JsonView::Null)
                        },
                ),
            ),
        }
    }
}

/// The first field of that name.
pub open spec fn first_field(fields: Seq<(Seq<char>, JsonView)>, name: Seq<char>) -> Option<
    JsonView,
>
    decreases fields.len(),
{
    if fields.len() == 0 {
        None
    } else if fields[0].0 == name {
        Some(fields[0].1)
    } else {
        first_field(fields.drop_first(), name)
    }
}

/// The field of an object.
pub open spec fn field_of(value: JsonView, name: Seq<char>) -> Option<JsonView> {
    match value {
        JsonView::Object(fields) => first_field(fields, name),
        _ => None,
    }
}

/// The element of an array.
pub open spec fn element_of(value: JsonView, index: nat) -> Option<JsonView> {
    match value {
        JsonView::Array(items) => if index < items.len() {
            Some(items[index as int])
        } else {
            None
        },
        _ => None,
    }
}

/// The text of a JSON string.
pub open spec fn text_of(value: JsonView) -> Option<Seq<char>> {
    match value {
        JsonView::Text(s) => Some(s),
        _ => None,
    }
}

/// The model of a borrowed value that may be missing.
pub open spec fn opt_ref_model(value: Option<&Json>) -> Option<JsonView> {
    match value {
        Some(json) => Some(json.model()),
        None => None,
    }
}

impl Json {
    /// The field of an object; nothing of any other value.
    pub fn field(&self, name: &str) -> (r: Option<&Json>)
        ensures
            opt_ref_model(r) == field_of(self.model(), name@),
    {
        match self {
            Json::Object(fields) => {
                let ghost all = self.model()->Object_0;
                let mut i: usize = 0;
                assert(all.skip(0) =~= all);
                while i < fields.len()
                    invariant
                        i <= fields@.len(),
                        self.model() == JsonView::Object(all),
                        *self == Json::Object(*fields),
                        all.len() == fields@.len(),
                        first_field(all, name@) == first_field(all.skip(i as int), name@),
                    decreases fields@.len() - i,
                {
                    assert(all[i as int] == (fields@[i as int].0@, fields@[i as int].1.model()));
                    assert(all.skip(i as int).drop_first() =~= all.skip(i + 1));
                    if equals(fields[i].0.as_str(), name) {
                        return Some(&fields[i].1);
                    }
                    i = i + 1;
                }
                None
            },
            _ => None,
        }
    }

    /// The element of an array; nothing of any other value.
    pub fn element(&self, index: usize) -> (r: Option<&Json>)
        ensures
            opt_ref_model(r) == element_of(self.model(), index as nat),
    {
        match self {
            Json::Array(items) => {
                if index < items.len() {
                    assert(self.model()->Array_0[index as int] == items@[index as int].model());
                    Some(&items[index])
                } else {
                    None
                }
            },
            _ => None,
        }
    }

    /// The text of a string; nothing of any other value.
    pub fn as_text(&self) -> (r: Option<&str>)
        ensures
            text::opt_view(r) == text_of(self.model()),
    {
        match self {
            Json::Text(s) => Some(s.as_str()),
            _ => None,
        }
    }
}

/// A value of `serde_json`.
#[verifier::external_type_specification]
#[verifier::external_body]
pub struct ExValue(serde_json::Value);

/// What a value of `serde_json` holds.
pub uninterp spec fn value_model(value: serde_json::Value) -> JsonView;

/// What `serde_json` reads in a text, if the text is JSON.
pub uninterp spec fn parsed_json(text: Seq<char>) -> Option<JsonView>;

/// One level of a value of `serde_json`.
enum Level {
    Null,
    Bool(bool),
    Number,
    Text(String),
    Array(Vec<serde_json::Value>),
    Object(Vec<(String, serde_json::Value)>),
}

/// `serde_json::from_str` reads a text as JSON. What it accepts and what the value holds depend on
/// the text alone; what they are is not stated.
#[verifier::external_body]
fn read_value(text: &str) -> (r: Option<serde_json::Value>)
    ensures
        match r {
            Some(value) => parsed_json(text@) == Some(value_model(value)),
            None => parsed_json(text@) is None,
        },
{
    serde_json::from_str(text).ok()
}

/// The variants of `serde_json::Value`, with what each holds: the elements of a `Value::Array` in
/// their order, and the entries of a `Value::Object` in the order in which `serde_json::Map` hands
/// them out. What a number is worth is left out.
#[verifier::external_body]
fn open_value(value: serde_json::Value) -> (r: Level)
    ensures
        value_model(value) == (match r {
            Level::Null => JsonView::Null,
            Level::Bool(b) => JsonView::Bool(b),
            Level::Number => JsonView::Number,
            Level::Text(s) => JsonView::Text(s@),
            Level::Array(items) => JsonView::Array(
                items@.map_values(|item: serde_json::Value| value_model(item)),
            ),
            Level::Object(fields) => JsonView::Object(
                fields@.map_values(
                    |field: (String, serde_json::Value)| (field.0@, value_model(field.1)),
                ),
            ),
        }),
{
    match value {
        serde_json::Value::Null => Level::Null,
        serde_json::Value::Bool(b) => Level::Bool(b),
        serde_json::Value::Number(_) => Level::Number,
        serde_json::Value::String(s) => Level::Text(s),
        serde_json::Value::Array(items) => Level::Array(items),
        serde_json::Value::Object(fields) => Level::Object(fields.into_iter().collect()),
    }
}

/// The value in the library's own type.
fn from_value(value: serde_json::Value) -> (r: Json)
    ensures
        r.model() == value_model(value),
    decreases value_model(value),
{
    let ghost whole = value_model(value);
    match open_value(value) {
        Level::Null => Json::Null,
        Level::Bool(b) => Json::Bool(b),
        Level::Number => Json::Number,
        Level::Text(s) => Json::Text(s),
        Level::Array(items) => {
            let mut items = items;
            let ghost all = items@;
            let mut out: Vec<Json> = Vec::new();
            while items.len() > 0
                invariant
                    whole == JsonView::Array(
                        all.map_values(|item: serde_json::Value| value_model(item)),
                    ),
                    whole == value_model(value),
                    items@ == all.skip(out@.len() as int),
                    out@.len() + items@.len() == all.len(),
                    forall|i: int|
                        0 <= i < out@.len() ==> (#[trigger] out@[i]).model() == value_model(all[i]),
                decreases items@.len(),
            {
                let ghost k = out@.len() as int;
                let item = items.remove(0);
                assert(item == all[k]);
                assert(whole->Array_0[k] == value_model(item));
                out.push(from_value(item));
                assert(items@ =~= all.skip(k + 1));
            }
            let r = Json::Array(out);
            assert(r.model()->Array_0 =~= whole->Array_0);
            r
        },
        Level::Object(fields) => {
            let mut fields = fields;
            let ghost all = fields@;
            let mut out: Vec<(String, Json)> = Vec::new();
            while fields.len() > 0
                invariant
                    whole == JsonView::Object(
                        all.map_values(
                            |field: (String, serde_json::Value)| (field.0@, value_model(field.1)),
                        ),
                    ),
                    whole == value_model(value),
                    fields@ == all.skip(out@.len() as int),
                    out@.len() + fields@.len() == all.len(),
                    forall|i: int|
                        0 <= i < out@.len() ==> (#[trigger] out@[i]).0@ == all[i].0@
                            && out@[i].1.model() == value_model(all[i].1),
                decreases fields@.len(),
            {
                let ghost k = out@.len() as int;
                let field = fields.remove(0);
                assert(field == all[k]);
                assert(whole->Object_0[k] == (field.0@, value_model(field.1)));
                assert(decreases_to!(whole => whole->Object_0[k].1));
                let (name, item) = field;
                out.push((name, from_value(item)));
                assert(fields@ =~= all.skip(k + 1));
            }
            let r = Json::Object(out);
            assert(r.model()->Object_0 =~= whole->Object_0);
            r
        },
    }
}

/// The model of a value that may be missing.
pub open spec fn opt_model(value: Option<Json>) -> Option<JsonView> {
    match value {
        Some(json) => Some(json.model()),
        None => None,
    }
}

/// Reads a text as JSON.
pub fn parse(text: &str) -> (r: Option<Json>)
    ensures
        opt_model(r) == parsed_json(text@),
{
    match read_value(text) {
        Some(value) => Some(from_value(value)),
        None => None,
    }
}

/// Of several fields with one name the first counts; a name that no field has gives nothing, and so
/// does every value that is no object.
pub proof fn field_is_the_first_of_its_name(
    before: Seq<(Seq<char>, JsonView)>,
    name: Seq<char>,
    value: JsonView,
    after: Seq<(Seq<char>, JsonView)>,
)
    requires
        forall|i: int| 0 <= i < before.len() ==> (#[trigger] before[i]).0 != name,
    ensures
        field_of(JsonView::Object(before + seq![(name, value)] + after), name) == Some(value),
        field_of(JsonView::Object(before), name) is None,
        value !is Object ==> field_of(value, name) is None,
    decreases before.len(),
{
    let all = before + seq![(name, value)] + after;
    if before.len() > 0 {
        let rest = before.drop_first();
        assert forall|i: int| 0 <= i < rest.len() implies (#[trigger] rest[i]).0 != name by {
            assert(rest[i] == before[i + 1]);
        }
        field_is_the_first_of_its_name(rest, name, value, after);
        assert(all[0] == before[0]);
        assert(before[0].0 != name);
        assert(all.drop_first() =~= rest + seq![(name, value)] + after);
    } else {
        assert(all[0] == (name, value));
    }
}

/// An array gives its elements by their place, and any other value gives none; only a string has a
/// text, which is the whole of it.
pub proof fn elements_and_texts(items: Seq<JsonView>, index: nat, value: JsonView, s: Seq<char>)
    ensures
        index < items.len() ==> element_of(JsonView::Array(items), index) == Some(
            items[index as int],
        ),
        index >= items.len() ==> element_of(JsonView::Array(items), index) is None,
        value !is Array ==> element_of(value, index) is None,
        text_of(JsonView::Text(s)) == Some(s),
        value !is Text ==> text_of(value) is None,
{
}

} // verus!
