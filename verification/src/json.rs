//! A model of JSON values as the runtime reads and builds them, with the
//! accessors of `serde_json::Value` that the operators use. Parsing and
//! printing are done by `serde_json`.

use vstd::prelude::*;

verus! {

/// A JSON number: a non-negative integer, a negative integer, or a floating
/// point number held by its decimal text.
#[derive(Debug)]
pub enum JsonNumber {
    PosInt(u64),
    NegInt(i64),
    Float(String),
}

/// A JSON value. Object members are kept in order; a lookup finds the first
/// member of that name.
#[derive(Debug)]
pub enum Json {
    Null,
    Bool(bool),
    Number(JsonNumber),
    Str(String),
    Array(Vec<Json>),
    Object(Vec<(String, Json)>),
}


/// The mathematical value of a JSON document.
pub enum JsonView {
    Null,
    Bool(bool),
    Num(NumberView),
    Str(Seq<char>),
    Array(Seq<JsonView>),
    Object(Seq<(Seq<char>, JsonView)>),
}

/// The mathematical value of a JSON number.
pub enum NumberView {
    PosInt(u64),
    NegInt(i64),
    Float(Seq<char>),
}

/// The value a document stands for.
pub open spec fn jview(j: Json) -> JsonView
    decreases j,
{
    match j {
        Json::Null => JsonView::Null,
        Json::Bool(b) => JsonView::Bool(b),
        Json::Number(JsonNumber::PosInt(n)) => JsonView::Num(NumberView::PosInt(n)),
        Json::Number(JsonNumber::NegInt(n)) => JsonView::Num(NumberView::NegInt(n)),
        Json::Number(JsonNumber::Float(t)) => JsonView::Num(NumberView::Float(t@)),
        Json::Str(s) => JsonView::Str(s@),
        Json::Array(v) => JsonView::Array(Seq::new(v@.len(), |i: int| if 0 <= i < v@.len() { jview(v@[i]) } else { JsonView::Null })),
        Json::Object(f) => JsonView::Object(Seq::new(f@.len(), |i: int| if 0 <= i < f@.len() { (f@[i].0@, jview(f@[i].1)) } else { (Seq::empty(), JsonView::Null) })),
    }
}

/// The members of an object value as name and value.
pub open spec fn members_view(f: Seq<(String, Json)>) -> Seq<(Seq<char>, JsonView)> {
    Seq::new(f.len(), |i: int| (f[i].0@, jview(f[i].1)))
}

proof fn lemma_object_view(f: Vec<(String, Json)>)
    ensures
        jview(Json::Object(f)) == JsonView::Object(members_view(f@)),
{
    let a = jview(Json::Object(f))->Object_0;
    assert(a =~= members_view(f@));
}

/// The array value of a list of documents.
pub open spec fn elements_view(v: Seq<Json>) -> Seq<JsonView> {
    Seq::new(v.len(), |i: int| jview(v[i]))
}

proof fn lemma_array_view(v: Vec<Json>)
    ensures
        jview(Json::Array(v)) == JsonView::Array(elements_view(v@)),
{
    let a = jview(Json::Array(v))->Array_0;
    assert(a =~= elements_view(v@));
}

/// Position of the first name equal to `key`, if any.
pub open spec fn first_index(names: Seq<Seq<char>>, key: Seq<char>) -> Option<int>
    decreases names.len(),
{
    if names.len() == 0 {
        None
    } else {
        match first_index(names.drop_last(), key) {
            Some(i) => Some(i),
            None => if names.last() == key { Some((names.len() - 1) as int) } else { None },
        }
    }
}

/// The names of an object's members.
pub open spec fn names_of(fs: Seq<(Seq<char>, JsonView)>) -> Seq<Seq<char>> {
    fs.map_values(|p: (Seq<char>, JsonView)| p.0)
}

pub proof fn lemma_first_index(names: Seq<Seq<char>>, key: Seq<char>)
    ensures
        match first_index(names, key) {
            Some(i) => 0 <= i < names.len() && names[i] == key
                && forall|j: int| 0 <= j < i ==> names[j] != key,
            None => forall|j: int| 0 <= j < names.len() ==> names[j] != key,
        },
    decreases names.len(),
{
    if names.len() > 0 {
        let init = names.drop_last();
        lemma_first_index(init, key);
        assert forall|j: int| 0 <= j < init.len() implies init[j] == names[j] by {}
    }
}

/// The member named `key` of an object (`Value::get` with a string key);
/// `None` for a missing member and for values that are not objects.
pub open spec fn member(v: JsonView, key: Seq<char>) -> Option<JsonView> {
    match v {
        JsonView::Object(fs) => match first_index(names_of(fs), key) {
            Some(i) => Some(fs[i].1),
            None => None,
        },
        _ => None,
    }
}

/// The text of a string value (`Value::as_str`).
pub open spec fn str_of(v: Option<JsonView>) -> Option<Seq<char>> {
    match v {
        Some(JsonView::Str(s)) => Some(s),
        _ => None,
    }
}

/// The value of a non-negative integer (`Value::as_u64`).
pub open spec fn u64_of(v: Option<JsonView>) -> Option<u64> {
    match v {
        Some(JsonView::Num(NumberView::PosInt(n))) => Some(n),
        _ => None,
    }
}

/// The value of a boolean (`Value::as_bool`).
pub open spec fn bool_of(v: Option<JsonView>) -> Option<bool> {
    match v {
        Some(JsonView::Bool(b)) => Some(b),
        _ => None,
    }
}

/// The elements of an array value (`Value::as_array`).
pub open spec fn array_of(v: Option<JsonView>) -> Option<Seq<JsonView>> {
    match v {
        Some(JsonView::Array(a)) => Some(a),
        _ => None,
    }
}

/// Members `fs` with `key` set to `value`: an existing member of that name is
/// replaced in place, otherwise the member is appended.
pub open spec fn put_member(fs: Seq<(Seq<char>, JsonView)>, key: Seq<char>, value: JsonView) -> Seq<(Seq<char>, JsonView)> {
    match first_index(names_of(fs), key) {
        Some(i) => fs.update(i, (key, value)),
        None => fs.push((key, value)),
    }
}

/// What `serde_json::from_slice::<Value>` gives for these bytes, as a model
/// value; `None` when the bytes are not JSON.
pub uninterp spec fn json_parse(bytes: Seq<u8>) -> Option<JsonView>;

/// The bytes `serde_json::to_vec` prints for a value.
pub uninterp spec fn json_print(v: JsonView) -> Seq<u8>;

impl Json {
    /// The member named `key` (`Value::get`).
    #[verifier::loop_isolation(false)]
    pub fn get(&self, key: &str) -> (res: Option<&Json>)
        ensures
            match res {
                Some(r) => member(jview(*self), key@) == Some(jview(*r)),
                None => member(jview(*self), key@) is None,
            },
    {
        match self {
            Json::Object(fields) => {
                proof {
                    lemma_object_view(*fields);
                    lemma_first_index(names_of(members_view(fields@)), key@);
                }
                let k = String::from_str(key);
                let mut i: usize = 0;
                while i < fields.len()
                    invariant
                        i <= fields.len(),
                        k@ == key@,
                        forall|j: int| 0 <= j < i ==> fields@[j].0@ != key@,
                    decreases fields.len() - i,
                {
                    if fields[i].0 == k {
                        proof {
                            let names = names_of(members_view(fields@));
                            assert(names[i as int] == key@);
                            match first_index(names, key@) {
                                Some(f) => {
                                    if f < i { assert(names[f] == fields@[f].0@); }
                                },
                                None => {},
                            }
                        }
                        return Some(&fields[i].1);
                    }
                    i = i + 1;
                }
                proof {
                    let names = names_of(members_view(fields@));
                    match first_index(names, key@) {
                        Some(f) => { assert(names[f] == fields@[f].0@); },
                        None => {},
                    }
                }
                None
            },
            _ => None,
        }
    }

    /// The text of a string value (`Value::as_str`).
    pub fn as_str(&self) -> (res: Option<&String>)
        ensures
            match res {
                Some(s) => str_of(Some(jview(*self))) == Some(s@),
                None => str_of(Some(jview(*self))) is None,
            },
    {
        match self {
            Json::Str(s) => Some(s),
            _ => None,
        }
    }

    /// The value of a non-negative integer (`Value::as_u64`).
    pub fn as_u64(&self) -> (res: Option<u64>)
        ensures
            res == u64_of(Some(jview(*self))),
    {
        match self {
            Json::Number(JsonNumber::PosInt(n)) => Some(*n),
            _ => None,
        }
    }

    /// The value of a boolean (`Value::as_bool`).
    pub fn as_bool(&self) -> (res: Option<bool>)
        ensures
            res == bool_of(Some(jview(*self))),
    {
        match self {
            Json::Bool(b) => Some(*b),
            _ => None,
        }
    }

    /// The elements of an array (`Value::as_array`).
    pub fn as_array(&self) -> (res: Option<&Vec<Json>>)
        ensures
            match res {
                Some(a) => array_of(Some(jview(*self))) == Some(elements_view(a@)),
                None => array_of(Some(jview(*self))) is None,
            },
    {
        match self {
            Json::Array(a) => {
                proof { lemma_array_view(*a); }
                Some(a)
            },
            _ => None,
        }
    }

    /// Whether the value is an object.
    pub fn is_object(&self) -> (res: bool)
        ensures
            res == (jview(*self) is Object),
    {
        match self {
            Json::Object(_) => true,
            _ => false,
        }
    }

    /// Sets member `key` of an object to `value` (`Map::insert`); other values
    /// are left unchanged.
    #[verifier::loop_isolation(false)]
    pub fn insert(&mut self, key: String, value: Json)
        ensures
            jview(*final(self)) == match jview(*old(self)) {
                JsonView::Object(fs) => JsonView::Object(put_member(fs, key@, jview(value))),
                other => other,
            },
    {
        match self {
            Json::Object(fields) => {
                let ghost old_fields = *fields;
                proof {
                    lemma_object_view(old_fields);
                    lemma_first_index(names_of(members_view(old_fields@)), key@);
                }
                let k = key.clone();
                let mut i: usize = 0;
                while i < fields.len()
                    invariant
                        i <= fields.len(),
                        *fields == old_fields,
                        k@ == key@,
                        forall|j: int| 0 <= j < i ==> fields@[j].0@ != key@,
                    decreases fields.len() - i,
                {
                    if fields[i].0 == k {
                        proof {
                            let names = names_of(members_view(old_fields@));
                            assert(names[i as int] == key@);
                            match first_index(names, key@) {
                                Some(f) => {
                                    if f < i { assert(names[f] == fields@[f].0@); }
                                },
                                None => {},
                            }
                        }
                        let ghost vv = value;
                        fields.remove(i);
                        fields.insert(i, (key, value));
                        proof {
                            lemma_object_view(*fields);
                            assert(members_view(fields@) =~= members_view(old_fields@).update(i as int, (key@, jview(vv))));
                        }
                        return;
                    }
                    i = i + 1;
                }
                proof {
                    let names = names_of(members_view(old_fields@));
                    match first_index(names, key@) {
                        Some(f) => { assert(names[f] == fields@[f].0@); },
                        None => {},
                    }
                }
                let ghost vv = value;
                fields.push((key, value));
                proof {
                    lemma_object_view(*fields);
                    assert(members_view(fields@) =~= members_view(old_fields@).push((key@, jview(vv))));
                }
            },
            _ => {},
        }
    }

    /// A copy of the value.
    #[verifier::loop_isolation(false)]
    pub fn deep_clone(&self) -> (res: Json)
        ensures
            jview(res) == jview(*self),
        decreases *self,
    {
        match self {
            Json::Null => Json::Null,
            Json::Bool(b) => Json::Bool(*b),
            Json::Number(JsonNumber::PosInt(n)) => Json::Number(JsonNumber::PosInt(*n)),
            Json::Number(JsonNumber::NegInt(n)) => Json::Number(JsonNumber::NegInt(*n)),
            Json::Number(JsonNumber::Float(t)) => Json::Number(JsonNumber::Float(t.clone())),
            Json::Str(s) => Json::Str(s.clone()),
            Json::Array(a) => {
                let mut out: Vec<Json> = Vec::new();
                let mut i: usize = 0;
                while i < a.len()
                    invariant
                        i <= a.len(),
                        out@.len() == i,
                        forall|j: int| 0 <= j < i ==> jview(#[trigger] out@[j]) == jview(a@[j]),
                    decreases a.len() - i,
                {
                    proof {
                        assert(decreases_to!(*self => *a));
                        assert(decreases_to!(*a => a@));
                        assert(decreases_to!(a@ => a@[i as int]));
                        assert(decreases_to!(*self => a@[i as int]));
                    }
                    out.push(a[i].deep_clone());
                    i = i + 1;
                }
                proof {
                    lemma_array_view(*a);
                    lemma_array_view(out);
                    assert(elements_view(out@) =~= elements_view(a@));
                }
                Json::Array(out)
            },
            Json::Object(f) => {
                let mut out: Vec<(String, Json)> = Vec::new();
                let mut i: usize = 0;
                while i < f.len()
                    invariant
                        i <= f.len(),
                        out@.len() == i,
                        forall|j: int| 0 <= j < i ==> (#[trigger] out@[j]).0@ == f@[j].0@ && jview(out@[j].1) == jview(f@[j].1),
                    decreases f.len() - i,
                {
                    proof {
                        assert(decreases_to!(*self => *f));
                        assert(decreases_to!(*f => f@));
                        assert(decreases_to!(f@ => f@[i as int]));
                        assert(decreases_to!(f@[i as int] => f@[i as int].1));
                        assert(decreases_to!(*self => f@[i as int].1));
                    }
                    out.push((f[i].0.clone(), f[i].1.deep_clone()));
                    i = i + 1;
                }
                proof {
                    lemma_object_view(*f);
                    lemma_object_view(out);
                    assert(members_view(out@) =~= members_view(f@));
                }
                Json::Object(out)
            },
        }
    }
}

/// An object with the given members (in order).
pub fn object(fields: Vec<(String, Json)>) -> (res: Json)
    ensures
        jview(res) == JsonView::Object(members_view(fields@)),
{
    proof { lemma_object_view(fields); }
    Json::Object(fields)
}

/// An array with the given elements.
pub fn array(items: Vec<Json>) -> (res: Json)
    ensures
        jview(res) == JsonView::Array(elements_view(items@)),
{
    proof { lemma_array_view(items); }
    Json::Array(items)
}

/// A string value.
pub fn string(s: &str) -> (res: Json)
    ensures
        jview(res) == JsonView::Str(s@),
{
    Json::Str(String::from_str(s))
}

/// The `serde_json` value type, held opaquely by the conversions below.
#[verifier::external_type_specification]
#[verifier::external_body]
pub struct ExJsonValue(serde_json::Value);

/// Converts a `serde_json` value into the model, members in the order of
/// the value's map (by name, as `serde_json` keeps them).
#[verifier::external_body]
fn from_serde(v: serde_json::Value) -> Json {
    match v {
        serde_json::Value::Null => Json::Null,
        serde_json::Value::Bool(b) => Json::Bool(b),
        serde_json::Value::Number(n) => Json::Number(match (n.as_u64(), n.as_i64()) {
            (Some(u), _) => JsonNumber::PosInt(u),
            (None, Some(i)) => JsonNumber::NegInt(i),
            (None, None) => JsonNumber::Float(n.to_string()),
        }),
        serde_json::Value::String(s) => Json::Str(s),
        serde_json::Value::Array(a) => Json::Array(a.into_iter().map(from_serde).collect()),
        serde_json::Value::Object(m) => Json::Object(m.into_iter().map(|(k, v)| (k, from_serde(v))).collect()),
    }
}

/// Converts a model value into a `serde_json` value.
#[verifier::external_body]
fn to_serde(v: &Json) -> serde_json::Value {
    match v {
        Json::Null => serde_json::Value::Null,
        Json::Bool(b) => serde_json::Value::Bool(*b),
        Json::Number(JsonNumber::PosInt(u)) => serde_json::Value::from(*u),
        Json::Number(JsonNumber::NegInt(i)) => serde_json::Value::from(*i),
        Json::Number(JsonNumber::Float(t)) => serde_json::from_str(t).unwrap_or(serde_json::Value::Null),
        Json::Str(s) => serde_json::Value::String(s.clone()),
        Json::Array(a) => serde_json::Value::Array(a.iter().map(to_serde).collect()),
        Json::Object(m) => serde_json::Value::Object(m.iter().map(|(k, v)| (k.clone(), to_serde(v))).collect()),
    }
}

/// Parses bytes as JSON with `serde_json::from_slice`; the result is named
/// `json_parse` of the bytes (`None` when they are not JSON).
#[verifier::external_body]
pub fn parse_json(bytes: &[u8]) -> (res: Option<Json>)
    ensures
        match res {
            Some(v) => json_parse(bytes@) == Some(jview(v)),
            None => json_parse(bytes@) is None,
        },
{
    serde_json::from_slice::<serde_json::Value>(bytes).ok().map(from_serde)
}

/// What `serde_json::from_str::<Value>` gives for this text, as a model value;
/// `None` when the text is not JSON.
pub uninterp spec fn json_parse_text(text: Seq<char>) -> Option<JsonView>;

/// Parses text as JSON with `serde_json::from_str`; the result is named
/// `json_parse_text` of the text (`None` when it is not JSON).
#[verifier::external_body]
pub fn parse_json_text(text: &str) -> (res: Option<Json>)
    ensures
        match res {
            Some(v) => json_parse_text(text@) == Some(jview(v)),
            None => json_parse_text(text@) is None,
        },
{
    serde_json::from_str::<serde_json::Value>(text).ok().map(from_serde)
}

/// Whether name `a` comes before name `b` in the order of Rust's `str`
/// comparison (byte order of UTF-8, which is the order of the characters'
/// code points, a proper prefix first).
pub open spec fn name_less(a: Seq<char>, b: Seq<char>) -> bool
    decreases a.len(),
{
    if a.len() == 0 {
        b.len() > 0
    } else if b.len() == 0 {
        false
    } else if a[0] != b[0] {
        (a[0] as u32) < (b[0] as u32)
    } else {
        name_less(a.drop_first(), b.drop_first())
    }
}

/// The nesting depth up to which printed JSON parses back: `serde_json`'s
/// parser refuses documents nested 128 levels deep.
pub open spec fn read_back_depth() -> nat {
    127
}

/// The value of an integer number; `None` for a floating-point number.
pub open spec fn int_value(n: NumberView) -> Option<int> {
    match n {
        NumberView::PosInt(u) => Some(u as int),
        NumberView::NegInt(i) => Some(i as int),
        NumberView::Float(_) => None,
    }
}

/// Position of the last name equal to `key`, if any.
pub open spec fn last_index(names: Seq<Seq<char>>, key: Seq<char>) -> Option<int>
    decreases names.len(),
{
    if names.len() == 0 {
        None
    } else if names.last() == key {
        Some((names.len() - 1) as int)
    } else {
        last_index(names.drop_last(), key)
    }
}

/// The value an object keeps under `key` when it is turned into a map: that
/// of the last member of that name (a later member replaces an earlier one).
pub open spec fn last_member(fs: Seq<(Seq<char>, JsonView)>, key: Seq<char>) -> Option<JsonView> {
    match last_index(names_of(fs), key) {
        Some(i) => Some(fs[i].1),
        None => None,
    }
}

/// Whether a value can be printed and read back, nested at most `depth`
/// levels: it holds no floating-point number.
pub open spec fn printable(v: JsonView, depth: nat) -> bool
    decreases depth,
{
    match v {
        JsonView::Num(n) => int_value(n) is Some,
        JsonView::Array(a) => depth > 0
            && forall|i: int| 0 <= i < a.len() ==> printable(#[trigger] a[i], (depth - 1) as nat),
        JsonView::Object(fs) => depth > 0
            && forall|i: int| 0 <= i < fs.len() ==> printable(#[trigger] fs[i].1, (depth - 1) as nat),
        _ => true,
    }
}

/// Whether `b` is what `a` is read back as after printing, nested at most
/// `depth` levels: null, booleans and strings are the same; a number is an
/// integer of the same value; an array has the same length and each element
/// is read back as the element at its position; an object has each of `a`'s
/// member names once and no other, and under each name what `a`'s last
/// member of that name is read back as.
pub open spec fn reads_back_as(a: JsonView, b: JsonView, depth: nat) -> bool
    decreases depth,
{
    match (a, b) {
        (JsonView::Null, JsonView::Null) => true,
        (JsonView::Bool(x), JsonView::Bool(y)) => x == y,
        (JsonView::Str(x), JsonView::Str(y)) => x == y,
        (JsonView::Num(x), JsonView::Num(y)) => int_value(x) is Some && int_value(x) == int_value(y),
        (JsonView::Array(x), JsonView::Array(y)) => depth > 0 && x.len() == y.len()
            && forall|i: int| #![trigger x[i]] 0 <= i < x.len() ==> reads_back_as(x[i], y[i], (depth - 1) as nat),
        (JsonView::Object(x), JsonView::Object(y)) => depth > 0 && names_of(y).no_duplicates()
            && (forall|k: Seq<char>| #[trigger] names_of(y).contains(k) <==> names_of(x).contains(k))
            && forall|k: Seq<char>| #[trigger] names_of(x).contains(k) ==> reads_back_as(
                last_member(x, k)->0,
                member(JsonView::Object(y), k)->0,
                (depth - 1) as nat,
            ),
        _ => false,
    }
}

/// Whether a value is read back as itself after printing, nested at most
/// `depth` levels: it holds no floating-point number, a negative-integer
/// number is below zero, and the member names of each object are in
/// strictly increasing order (the order in which `serde_json` keeps them).
pub open spec fn reads_back(v: JsonView, depth: nat) -> bool
    decreases depth,
{
    match v {
        JsonView::Num(NumberView::Float(_)) => false,
        JsonView::Num(NumberView::NegInt(i)) => i < 0,
        JsonView::Array(a) => depth > 0
            && forall|i: int| 0 <= i < a.len() ==> reads_back(#[trigger] a[i], (depth - 1) as nat),
        JsonView::Object(fs) => depth > 0
            && (forall|i: int| 0 <= i < fs.len() ==> reads_back(#[trigger] fs[i].1, (depth - 1) as nat))
            && forall|i: int, j: int| 0 <= i < j < fs.len() ==> name_less(#[trigger] fs[i].0, #[trigger] fs[j].0),
        _ => true,
    }
}

/// What `serde_yaml::from_str::<serde_json::Value>` gives for this text, as
/// a model value; `None` when the text is not YAML, or is YAML without a
/// JSON form.
pub uninterp spec fn yaml_parse_text(text: Seq<char>) -> Option<JsonView>;

/// Parses YAML text into a JSON value with `serde_yaml::from_str`; the
/// result is named `yaml_parse_text` of the text (`None` when it fails).
#[verifier::external_body]
pub fn parse_yaml_text(text: &str) -> (res: Option<Json>)
    ensures
        match res {
            Some(v) => yaml_parse_text(text@) == Some(jview(v)),
            None => yaml_parse_text(text@) is None,
        },
{
    serde_yaml::from_str::<serde_json::Value>(text).ok().map(from_serde)
}

/// Prints a value as JSON bytes with `serde_json::to_vec`; the result is named
/// `json_print` of the value. The bytes are never empty. What
/// `serde_json::from_slice` parses from them, for a value without
/// floating-point numbers nested at most `read_back_depth` levels, is what
/// the value reads back as (`reads_back_as`): integers, strings, booleans
/// and null are printed and read exactly, and an object becomes a map, one
/// member per name. A value whose object member names are moreover in
/// increasing order (see `reads_back`) is parsed back as itself.
#[verifier::external_body]
pub fn print_json(v: &Json) -> (res: Vec<u8>)
    ensures
        res@ == json_print(jview(*v)),
        res@.len() > 0,
        reads_back(jview(*v), read_back_depth()) ==> json_parse(res@) == Some(jview(*v)),
        printable(jview(*v), read_back_depth()) ==> json_parse(res@) is Some && reads_back_as(jview(*v), json_parse(res@)->0, read_back_depth()),
{
    serde_json::to_vec(&to_serde(v)).unwrap_or_default()
}

/// The text `serde_json::to_string` prints for a value.
pub uninterp spec fn json_print_text(v: JsonView) -> Seq<char>;

/// Prints a value as JSON text with `serde_json::to_string`; the result is
/// named `json_print_text` of the value.
#[verifier::external_body]
pub fn print_json_text(v: &Json) -> (res: String)
    ensures
        res@ == json_print_text(jview(*v)),
{
    serde_json::to_string(&to_serde(v)).unwrap_or_default()
}

proof fn lemma_first_index_push(names: Seq<Seq<char>>, x: Seq<char>, k: Seq<char>)
    ensures
        first_index(names.push(x), k) == match first_index(names, k) {
            Some(i) => Some(i),
            None => if x == k { Some(names.len() as int) } else { None },
        },
{
    assert(names.push(x).drop_last() =~= names);
}

/// Reading a member back after setting it gives the value set, and every
/// other member reads as before (what `Json::get` returns after
/// `Json::insert`).
pub proof fn put_then_member(fs: Seq<(Seq<char>, JsonView)>, key: Seq<char>, value: JsonView, other: Seq<char>)
    ensures
        member(JsonView::Object(put_member(fs, key, value)), key) == Some(value),
        other != key ==> member(JsonView::Object(put_member(fs, key, value)), other) == member(JsonView::Object(fs), other),
{
    let names = names_of(fs);
    lemma_first_index(names, key);
    lemma_first_index(names, other);
    match first_index(names, key) {
        Some(i) => {
            let fs2 = fs.update(i, (key, value));
            assert(names_of(fs2) =~= names);
        },
        None => {
            let fs2 = fs.push((key, value));
            assert(names_of(fs2) =~= names.push(key));
            lemma_first_index_push(names, key, key);
            lemma_first_index_push(names, key, other);
        },
    }
}

} // verus!
