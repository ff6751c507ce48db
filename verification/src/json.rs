//! JSON values as plain data, and the readers the gateway protocol uses on
//! them.
//!
//! Parsing and printing are done by `serde_json`; a value is held here as a
//! tree of plain Rust values. A number that fits an `i64` is held as one; any
//! other number is held by its text.
use vstd::prelude::*;

use crate::keyed::{key_index_unique, lookup};
use crate::text::{same, signed_decimal, text_before};

verus! {

/// One member of a JSON object.
#[derive(Debug, PartialEq)]
pub struct JsonField {
    pub key: String,
    pub value: Json,
}

/// A JSON value.
#[derive(Debug, PartialEq)]
pub enum Json {
    Null,
    Bool(bool),
    /// A number that is an integer and fits.
    Int(i64),
    /// Any other number, by its text.
    Num(String),
    Str(String),
    Array(Vec<Json>),
    Object(Vec<JsonField>),
}

/// What [`Json`] holds, as mathematical values. An object is the sequence of
/// its members.
#[verifier::ext_equal]
pub enum JsonView {
    Null,
    Bool(bool),
    Int(i64),
    Num(Seq<char>),
    Str(Seq<char>),
    Array(Seq<JsonView>),
    Object(Seq<(Seq<char>, JsonView)>),
}

impl Json {
    /// The value as a tree of mathematical values.
    pub open spec fn tree(self) -> JsonView
        decreases self,
    {
        match self {
            Json::Null => JsonView::Null,
            Json::Bool(b) => JsonView::Bool(b),
            Json::Int(i) => JsonView::Int(i),
            Json::Num(t) => JsonView::Num(t@),
            Json::Str(s) => JsonView::Str(s@),
            Json::Array(v) => JsonView::Array(
                Seq::new(
                    v@.len(),
                    |i: int|
                        if 0 <= i < v@.len() {
                            v@[i].tree()
                        } else {
                            JsonView::Null
                        },
                ),
            ),
            Json::Object(v) => JsonView::Object(
                Seq::new(
                    v@.len(),
                    |i: int|
                        if 0 <= i < v@.len() {
                            (v@[i].key@, v@[i].value.tree())
                        } else {
                            (Seq::<char>::empty(), JsonView::Null)
                        },
                ),
            ),
        }
    }
}

impl DeepView for Json {
    type V = JsonView;

    open spec fn deep_view(&self) -> JsonView {
        (*self).tree()
    }
}

impl DeepView for JsonField {
    type V = (Seq<char>, JsonView);

    open spec fn deep_view(&self) -> (Seq<char>, JsonView) {
        (self.key@, self.value.deep_view())
    }
}

// ---------------------------------------------------------------------
// Reading a value
// ---------------------------------------------------------------------

impl JsonView {
    /// The member of an object under `k`.
    pub open spec fn field(self, k: Seq<char>) -> Option<JsonView> {
        match self {
            JsonView::Object(fs) => lookup(fs, k),
            _ => None,
        }
    }

    pub open spec fn as_text(self) -> Option<Seq<char>> {
        match self {
            JsonView::Str(s) => Some(s),
            _ => None,
        }
    }

    pub open spec fn as_flag(self) -> Option<bool> {
        match self {
            JsonView::Bool(b) => Some(b),
            _ => None,
        }
    }

    pub open spec fn as_items(self) -> Option<Seq<JsonView>> {
        match self {
            JsonView::Array(a) => Some(a),
            _ => None,
        }
    }

    pub open spec fn is_number(self) -> bool {
        self is Int || self is Num
    }
}

/// The member under `k` of what may be an object.
pub open spec fn member(o: Option<JsonView>, k: Seq<char>) -> Option<JsonView> {
    match o {
        Some(v) => v.field(k),
        None => None,
    }
}

/// The text of what may be a string.
pub open spec fn text_in(o: Option<JsonView>) -> Option<Seq<char>> {
    match o {
        Some(v) => v.as_text(),
        None => None,
    }
}

/// The flag in what may be a boolean.
pub open spec fn flag_in(o: Option<JsonView>) -> Option<bool> {
    match o {
        Some(v) => v.as_flag(),
        None => None,
    }
}

/// The items of what may be an array.
pub open spec fn items_in(o: Option<JsonView>) -> Option<Seq<JsonView>> {
    match o {
        Some(v) => v.as_items(),
        None => None,
    }
}

/// The elements of an array as trees.
pub proof fn array_tree(v: Vec<Json>)
    ensures
        Json::Array(v).tree() == JsonView::Array(v.deep_view()),
{
    let t = Json::Array(v).tree();
    assert(t->Array_0 =~= v.deep_view());
}

/// The members of an object as pairs.
pub proof fn object_tree(v: Vec<JsonField>)
    ensures
        Json::Object(v).tree() == JsonView::Object(v.deep_view()),
{
    let t = Json::Object(v).tree();
    assert(t->Object_0 =~= v.deep_view());
}

impl Json {
    /// The member of an object under `k`; `None` when there is none, or when
    /// this is no object.
    pub fn get(&self, k: &str) -> (r: Option<&Json>)
        ensures
            r.deep_view() == self.deep_view().field(k@),
    {
        match self {
            Json::Object(fs) => {
                proof {
                    object_tree(*fs);
                }
                let ghost m = fs.deep_view();
                let mut i: usize = 0;
                while i < fs.len()
                    invariant
                        m == fs.deep_view(),
                        self.deep_view() == JsonView::Object(m),
                        i <= fs@.len(),
                        forall|j: int| 0 <= j < i ==> m[j].0 != k@,
                    decreases fs@.len() - i,
                {
                    assert(m[i as int] == fs@[i as int].deep_view());
                    if same(fs[i].key.as_str(), k) {
                        proof {
                            key_index_unique(m, k@, i as int);
                        }
                        return Some(&fs[i].value);
                    }
                    i = i + 1;
                }
                proof {
                    key_index_unique(m, k@, i as int);
                }
                None
            },
            _ => None,
        }
    }

    pub fn as_str(&self) -> (r: Option<&String>)
        ensures
            r.deep_view() == self.deep_view().as_text(),
    {
        match self {
            Json::Str(s) => Some(s),
            _ => None,
        }
    }

    pub fn as_bool(&self) -> (r: Option<bool>)
        ensures
            r == self.deep_view().as_flag(),
    {
        match self {
            Json::Bool(b) => Some(*b),
            _ => None,
        }
    }

    pub fn as_array(&self) -> (r: Option<&Vec<Json>>)
        ensures
            r.deep_view() == self.deep_view().as_items(),
    {
        match self {
            Json::Array(a) => {
                proof {
                    array_tree(*a);
                }
                Some(a)
            },
            _ => None,
        }
    }

    pub fn is_number(&self) -> (r: bool)
        ensures
            r == self.deep_view().is_number(),
    {
        match self {
            Json::Int(_) => true,
            Json::Num(_) => true,
            _ => false,
        }
    }

    pub fn is_array(&self) -> (r: bool)
        ensures
            r == (self.deep_view() is Array),
    {
        match self {
            Json::Array(_) => true,
            _ => false,
        }
    }

    /// A string value.
    pub fn text(s: &str) -> (r: Json)
        ensures
            r.deep_view() == JsonView::Str(s@),
    {
        Json::Str(s.to_owned())
    }

    /// An array value.
    pub fn array(v: Vec<Json>) -> (r: Json)
        ensures
            r.deep_view() == JsonView::Array(v.deep_view()),
    {
        proof {
            array_tree(v);
        }
        Json::Array(v)
    }

    /// An object value.
    pub fn object(v: Vec<JsonField>) -> (r: Json)
        ensures
            r.deep_view() == JsonView::Object(v.deep_view()),
    {
        proof {
            object_tree(v);
        }
        Json::Object(v)
    }
}

/// The member under `k` of what may be an object.
pub fn get_in<'a>(o: Option<&'a Json>, k: &str) -> (r: Option<&'a Json>)
    ensures
        r.deep_view() == member(o.deep_view(), k@),
{
    match o {
        Some(v) => v.get(k),
        None => None,
    }
}

/// The text of what may be a string.
pub fn str_in<'a>(o: Option<&'a Json>) -> (r: Option<&'a String>)
    ensures
        r.deep_view() == text_in(o.deep_view()),
{
    match o {
        Some(v) => v.as_str(),
        None => None,
    }
}

/// The flag in what may be a boolean.
pub fn bool_in(o: Option<&Json>) -> (r: Option<bool>)
    ensures
        r == flag_in(o.deep_view()),
{
    match o {
        Some(v) => v.as_bool(),
        None => None,
    }
}

/// The items of what may be an array.
pub fn array_in<'a>(o: Option<&'a Json>) -> (r: Option<&'a Vec<Json>>)
    ensures
        r.deep_view() == items_in(o.deep_view()),
{
    match o {
        Some(v) => v.as_array(),
        None => None,
    }
}

/// Whether what may be a string is there and spells `s`.
pub fn str_is(o: Option<&Json>, s: &str) -> (r: bool)
    ensures
        r == (text_in(o.deep_view()) == Some(s@)),
{
    match str_in(o) {
        Some(t) => same(t.as_str(), s),
        None => false,
    }
}

/// Adds a member to the end of a list of members.
pub fn add_field(fs: &mut Vec<JsonField>, key: &str, value: Json)
    ensures
        final(fs).deep_view() == old(fs).deep_view().push((key@, value.deep_view())),
{
    let ghost before = fs.deep_view();
    fs.push(JsonField { key: key.to_owned(), value });
    assert(fs.deep_view() =~= before.push((key@, value.deep_view())));
}

// ---------------------------------------------------------------------
// Parsing and printing
// ---------------------------------------------------------------------

/// `serde_json`'s own value type.
#[verifier::external_type_specification]
#[verifier::external_body]
pub struct ExValue(serde_json::Value);

/// What `serde_json::from_str` makes of a text: the value, or the error's
/// text.
pub uninterp spec fn parsed(text: Seq<char>) -> Result<JsonView, Seq<char>>;

/// What `serde_json::from_slice` makes of some bytes: the value, or the error's
/// text.
pub uninterp spec fn parsed_bytes(raw: Seq<u8>) -> Result<JsonView, Seq<char>>;

/// What `serde_json` prints for a value.
pub uninterp spec fn printed(v: JsonView) -> Seq<char>;

/// What `serde_json` prints for a value with line breaks and indentation.
pub uninterp spec fn pretty_printed(v: JsonView) -> Seq<char>;

/// Whether the members of an object stand in the order of their keys, no key
/// twice.
pub open spec fn keys_ascend(fs: Seq<(Seq<char>, JsonView)>) -> bool {
    forall|i: int, j: int| 0 <= i < j < fs.len() ==> text_before(#[trigger] fs[i].0, #[trigger] fs[j].0)
}

/// Whether a text is that of a whole number, up to a thousand million, with
/// the one decimal 0, such as `1280.0`.
pub open spec fn is_whole_decimal(t: Seq<char>) -> bool {
    exists|n: i64|
        -1_000_000_000 <= n <= 1_000_000_000 && (#[trigger] signed_decimal(n as int)) + ".0"@ == t
}

/// Whether printing `v` and reading it back gives `v` again: it is nested at
/// most `depth` deep, members stand in the order of their keys, and each number
/// that is held by its text is a whole one with the decimal 0, or reads as
/// itself.
pub open spec fn readable(v: JsonView, depth: nat) -> bool
    decreases depth,
{
    match v {
        JsonView::Num(t) => is_whole_decimal(t) || parsed(t) == Ok::<JsonView, Seq<char>>(
            JsonView::Num(t),
        ),
        JsonView::Array(a) => depth > 0 && forall|i: int|
            0 <= i < a.len() ==> readable(#[trigger] a[i], (depth - 1) as nat),
        JsonView::Object(fs) => depth > 0 && keys_ascend(fs) && forall|i: int|
            0 <= i < fs.len() ==> readable((#[trigger] fs[i]).1, (depth - 1) as nat),
        _ => true,
    }
}

/// A `serde_json::Value`, one variant after the other, as a [`Json`]. An
/// object's members come in the order in which `serde_json` holds them.
#[verifier::external_body]
fn json_of(v: serde_json::Value) -> Json {
    match v {
        serde_json::Value::Null => Json::Null,
        serde_json::Value::Bool(b) => Json::Bool(b),
        serde_json::Value::Number(n) => match n.as_i64() {
            Some(i) => Json::Int(i),
            None => Json::Num(n.to_string()),
        },
        serde_json::Value::String(s) => Json::Str(s),
        serde_json::Value::Array(a) => Json::Array(a.into_iter().map(json_of).collect()),
        serde_json::Value::Object(m) => Json::Object(
            m.into_iter().map(|(key, v)| JsonField { key, value: json_of(v) }).collect(),
        ),
    }
}

/// A [`Json`], one variant after the other, as a `serde_json::Value`. The
/// text of a number is read back by `serde_json`; one that it refuses becomes
/// `null`, as `serde_json` itself does with a number that JSON cannot hold.
#[verifier::external_body]
fn value_of(j: &Json) -> serde_json::Value {
    match j {
        Json::Null => serde_json::Value::Null,
        Json::Bool(b) => serde_json::Value::Bool(*b),
        Json::Int(i) => serde_json::Value::from(*i),
        Json::Num(t) => serde_json::from_str(t).unwrap_or(serde_json::Value::Null),
        Json::Str(s) => serde_json::Value::String(s.clone()),
        Json::Array(a) => serde_json::Value::Array(a.iter().map(value_of).collect()),
        Json::Object(fs) => serde_json::Value::Object(
            fs.iter().map(|f| (f.key.clone(), value_of(&f.value))).collect(),
        ),
    }
}

/// Calls `serde_json::from_str`. The result is a function of the text alone:
/// the value, or the text of the error.
#[verifier::external_body]
pub(crate) fn parse(text: &str) -> (r: Result<Json, String>)
    ensures
        match r {
            Ok(j) => parsed(text@) == Ok::<JsonView, Seq<char>>(j.deep_view()),
            Err(e) => parsed(text@) == Err::<JsonView, Seq<char>>(e@),
        },
{
    serde_json::from_str(text).map(json_of).map_err(|e| e.to_string())
}

/// Calls `serde_json::from_slice`. The result is a function of the bytes alone:
/// the value, or the text of the error.
#[verifier::external_body]
pub(crate) fn parse_bytes(raw: &[u8]) -> (r: Result<Json, String>)
    ensures
        match r {
            Ok(j) => parsed_bytes(raw@) == Ok::<JsonView, Seq<char>>(j.deep_view()),
            Err(e) => parsed_bytes(raw@) == Err::<JsonView, Seq<char>>(e@),
        },
{
    serde_json::from_slice(raw).map(json_of).map_err(|e| e.to_string())
}

/// Prints a value with `serde_json`, on one line. The result is a function of
/// the value alone.
#[verifier::external_body]
pub(crate) fn print(j: &Json) -> (r: String)
    ensures
        r@ == printed(j.deep_view()),
{
    value_of(j).to_string()
}

/// Prints a value with `serde_json`, with line breaks and indentation. The
/// result is a function of the value alone. Reading it back with [`parse`]
/// gives the value again, for a value that is nested at most a hundred deep,
/// has its members in the order of their keys, and numbers that are whole ones
/// with the decimal 0 or whose text reads as itself: `serde_json` keeps members
/// in that order, refuses text nested 128 deep, and prints a number in one way,
/// a whole double of this size as its digits with `.0` behind them.
#[verifier::external_body]
pub(crate) fn print_pretty(j: &Json) -> (r: String)
    ensures
        r@ == pretty_printed(j.deep_view()),
        readable(j.deep_view(), 100) ==> parsed(r@) is Ok && parsed(r@)->Ok_0 == j.deep_view(),
{
    format!("{:#}", value_of(j))
}

impl Json {
    /// Reads a value from its text; else the error's text.
    pub fn from_text(text: &str) -> (r: Result<Json, String>)
        ensures
            match r {
                Ok(j) => parsed(text@) == Ok::<JsonView, Seq<char>>(j.deep_view()),
                Err(e) => parsed(text@) == Err::<JsonView, Seq<char>>(e@),
            },
    {
        parse(text)
    }
}

} // verus!
