//! JSON documents as the adapters read and write them, with the lookups
//! that the API payloads are read through: a field of an object, an element
//! of an array, and the string, integer, boolean and array readings of a
//! value. A missing field reads as `null`, as indexing does in `serde_json`.

use vstd::prelude::*;

verus! {

/// A JSON number, in the form it was read in.
#[derive(Debug, Clone)]
pub enum JsonNumber {
    /// A non-negative integer.
    UInt(u64),
    /// A negative integer.
    NegInt(i64),
    /// Any other number, by its decimal text.
    Float(String),
}

/// A JSON value. An object keeps its entries in order; its keys are
/// distinct when it comes from a parsed document.
#[derive(Debug)]
pub enum Json {
    Null,
    Bool(bool),
    Number(JsonNumber),
    Str(String),
    Array(Vec<Json>),
    Object(Vec<(String, Json)>),
}

/// The mathematical form of a JSON number.
pub enum NumberView {
    UInt(u64),
    NegInt(i64),
    Float(Seq<char>),
}

/// The mathematical form of a JSON value.
pub enum JsonView {
    Null,
    Bool(bool),
    Number(NumberView),
    Str(Seq<char>),
    Array(Seq<JsonView>),
    Object(Seq<(Seq<char>, JsonView)>),
}

pub open spec fn number_view(n: JsonNumber) -> NumberView {
    match n {
        JsonNumber::UInt(u) => NumberView::UInt(u),
        JsonNumber::NegInt(i) => NumberView::NegInt(i),
        JsonNumber::Float(s) => NumberView::Float(s@),
    }
}

pub open spec fn json_view(j: Json) -> JsonView
    decreases j,
{
    match j {
        Json::Null => JsonView::Null,
        Json::Bool(b) => JsonView::Bool(b),
        Json::Number(n) => JsonView::Number(number_view(n)),
        Json::Str(s) => JsonView::Str(s@),
        Json::Array(a) => JsonView::Array(
            Seq::new(
                a@.len(),
                |i: int|
                    if 0 <= i < a@.len() {
                        json_view(a@[i])
                    } else {
                        JsonView::Null
                    },
            ),
        ),
        Json::Object(e) => JsonView::Object(
            Seq::new(
                e@.len(),
                |i: int|
                    if 0 <= i < e@.len() {
                        (e@[i].0@, json_view(e@[i].1))
                    } else {
                        (Seq::empty(), JsonView::Null)
                    },
            ),
        ),
    }
}

/// A copy of `j`, value for value.
pub fn deep_copy(j: &Json) -> (r: Json)
    ensures
        r@ == j@,
    decreases j,
{
    match j {
        Json::Null => Json::Null,
        Json::Bool(b) => Json::Bool(*b),
        Json::Number(n) => Json::Number(
            match n {
                JsonNumber::UInt(u) => JsonNumber::UInt(*u),
                JsonNumber::NegInt(v) => JsonNumber::NegInt(*v),
                JsonNumber::Float(t) => JsonNumber::Float(t.clone()),
            },
        ),
        Json::Str(s) => Json::Str(s.clone()),
        Json::Array(a) => {
            let mut out: Vec<Json> = Vec::new();
            let mut i: usize = 0;
            while i < a.len()
                invariant
                    *j == Json::Array(*a),
                    i <= a.len(),
                    out@.len() == i,
                    forall|k: int| 0 <= k < i ==> out@[k]@ == a@[k]@,
                decreases a.len() - i,
            {
                proof {
                    assert(decreases_to!(*j => (*j)->Array_0));
                    assert(decreases_to!(*a => a@));
                    assert(decreases_to!(a@ => a@[i as int]));
                }
                let c = deep_copy(&a[i]);
                out.push(c);
                i = i + 1;
            }
            proof {
                lemma_array_view(*a);
                lemma_array_view(out);
                assert(views(out@) =~= views(a@));
            }
            Json::Array(out)
        },
        Json::Object(e) => {
            let mut out: Vec<(String, Json)> = Vec::new();
            let mut i: usize = 0;
            while i < e.len()
                invariant
                    *j == Json::Object(*e),
                    i <= e.len(),
                    out@.len() == i,
                    forall|k: int| 0 <= k < i ==> out@[k].0@ == e@[k].0@ && out@[k].1@ == e@[k].1@,
                decreases e.len() - i,
            {
                proof {
                    assert(decreases_to!(*j => (*j)->Object_0));
                    assert(decreases_to!(*e => e@));
                    assert(decreases_to!(e@ => e@[i as int]));
                    assert(decreases_to!(e@[i as int] => e@[i as int].1));
                }
                let c = deep_copy(&e[i].1);
                out.push((e[i].0.clone(), c));
                i = i + 1;
            }
            proof {
                lemma_object_view(*e);
                lemma_object_view(out);
                assert(entry_views(out@) =~= entry_views(e@));
            }
            Json::Object(out)
        },
    }
}

impl Clone for Json {
    fn clone(&self) -> (r: Self)
        ensures
            r@ == self@,
    {
        deep_copy(self)
    }
}

impl View for Json {
    type V = JsonView;

    open spec fn view(&self) -> JsonView {
        json_view(*self)
    }
}

/// The views of the values of a sequence.
pub open spec fn views(a: Seq<Json>) -> Seq<JsonView> {
    Seq::new(a.len(), |i: int| a[i]@)
}

/// The views of the entries of an object.
pub open spec fn entry_views(e: Seq<(String, Json)>) -> Seq<(Seq<char>, JsonView)> {
    Seq::new(e.len(), |i: int| (e[i].0@, e[i].1@))
}

/// The value of the first entry with key `key`.
pub open spec fn entry_value(e: Seq<(Seq<char>, JsonView)>, key: Seq<char>) -> Option<JsonView>
    decreases e.len(),
{
    if e.len() == 0 {
        None
    } else if e[0].0 == key {
        Some(e[0].1)
    } else {
        entry_value(e.drop_first(), key)
    }
}

impl JsonView {
    /// `Value::get` with a key: the field of an object.
    pub open spec fn get(self, key: Seq<char>) -> Option<JsonView> {
        match self {
            JsonView::Object(e) => entry_value(e, key),
            _ => None,
        }
    }

    /// `v[key]`: the field of an object, `null` where there is none.
    pub open spec fn at(self, key: Seq<char>) -> JsonView {
        match self.get(key) {
            Some(v) => v,
            None => JsonView::Null,
        }
    }

    /// `v[i]`: the element of an array, `null` where there is none.
    pub open spec fn at_index(self, i: int) -> JsonView {
        match self {
            JsonView::Array(a) => if 0 <= i < a.len() {
                a[i]
            } else {
                JsonView::Null
            },
            _ => JsonView::Null,
        }
    }

    /// `Value::as_str`.
    pub open spec fn as_str(self) -> Option<Seq<char>> {
        match self {
            JsonView::Str(s) => Some(s),
            _ => None,
        }
    }

    /// `Value::as_u64`.
    pub open spec fn as_u64(self) -> Option<u64> {
        match self {
            JsonView::Number(NumberView::UInt(u)) => Some(u),
            _ => None,
        }
    }

    /// `Value::as_bool`.
    pub open spec fn as_bool(self) -> Option<bool> {
        match self {
            JsonView::Bool(b) => Some(b),
            _ => None,
        }
    }

    /// `Value::as_array`.
    pub open spec fn as_array(self) -> Option<Seq<JsonView>> {
        match self {
            JsonView::Array(a) => Some(a),
            _ => None,
        }
    }

    /// The elements of an array; none for any other value.
    pub open spec fn elements(self) -> Seq<JsonView> {
        match self {
            JsonView::Array(a) => a,
            _ => Seq::empty(),
        }
    }

    /// `v[key].as_str().unwrap_or_default()`.
    pub open spec fn text_at(self, key: Seq<char>) -> Seq<char> {
        match self.at(key).as_str() {
            Some(s) => s,
            None => Seq::empty(),
        }
    }
}

/// The value that a reference stands for, `null` for none.
pub open spec fn or_null(v: Option<&Json>) -> JsonView {
    match v {
        Some(j) => j@,
        None => JsonView::Null,
    }
}

/// The view of an optional value.
pub open spec fn opt_view(v: Option<&Json>) -> Option<JsonView> {
    match v {
        Some(j) => Some(j@),
        None => None,
    }
}

/// An object's view is the sequence of its entries' views.
pub proof fn lemma_object_view(e: Vec<(String, Json)>)
    ensures
        Json::Object(e)@ == JsonView::Object(entry_views(e@)),
{
    let v = json_view(Json::Object(e));
    assert(entry_views(e@) =~= v->Object_0);
}

/// An array's view is the sequence of its elements' views.
pub proof fn lemma_array_view(a: Vec<Json>)
    ensures
        Json::Array(a)@ == JsonView::Array(views(a@)),
{
    let v = json_view(Json::Array(a));
    assert(views(a@) =~= v->Array_0);
}

/// Skipping entries whose key differs leaves the first match unchanged.
proof fn lemma_entry_value_skip(e: Seq<(Seq<char>, JsonView)>, i: int, key: Seq<char>)
    requires
        0 <= i < e.len(),
        e[i].0 != key,
    ensures
        entry_value(e.subrange(i, e.len() as int), key) == entry_value(
            e.subrange(i + 1, e.len() as int),
            key,
        ),
{
    assert(e.subrange(i, e.len() as int).drop_first() =~= e.subrange(i + 1, e.len() as int));
}

impl Json {
    /// The position of the first entry with key `key`, for an object.
    fn find_key(entries: &Vec<(String, Json)>, key: &str) -> (r: Option<usize>)
        ensures
            match r {
                Some(i) => i < entries@.len() && entry_value(entry_views(entries@), key@) == Some(
                    entries@[i as int].1@,
                ),
                None => entry_value(entry_views(entries@), key@) is None,
            },
    {
        let ghost ev = entry_views(entries@);
        let mut i: usize = 0;
        assert(ev.subrange(0, ev.len() as int) =~= ev);
        while i < entries.len()
            invariant
                ev == entry_views(entries@),
                i <= entries.len(),
                entry_value(ev, key@) == entry_value(ev.subrange(i as int, ev.len() as int), key@),
            decreases entries.len() - i,
        {
            if crate::text::str_equal(entries[i].0.as_str(), key) {
                return Some(i);
            }
            proof {
                lemma_entry_value_skip(ev, i as int, key@);
            }
            i = i + 1;
        }
        None
    }

    /// `Value::get` with a key: the field `key` of an object.
    pub fn get<'a>(&'a self, key: &str) -> (r: Option<&'a Json>)
        ensures
            opt_view(r) == self@.get(key@),
    {
        match self {
            Json::Object(entries) => {
                proof {
                    lemma_object_view(*entries);
                }
                match Self::find_key(entries, key) {
                    Some(i) => Some(&entries[i].1),
                    None => None,
                }
            },
            _ => None,
        }
    }

    /// Moves the field `key` out of an object.
    pub fn take(self, key: &str) -> (r: Option<Json>)
        ensures
            match r {
                Some(v) => self@.get(key@) == Some(v@),
                None => self@.get(key@) is None,
            },
    {
        match self {
            Json::Object(entries) => {
                proof {
                    lemma_object_view(entries);
                }
                match Self::find_key(&entries, key) {
                    Some(i) => {
                        let mut entries = entries;
                        let (_, v) = entries.remove(i);
                        Some(v)
                    },
                    None => None,
                }
            },
            _ => None,
        }
    }
}

/// `v[key]`, where `None` stands for `null`.
pub fn field<'a>(v: Option<&'a Json>, key: &str) -> (r: Option<&'a Json>)
    ensures
        or_null(r) == or_null(v).at(key@),
{
    match v {
        Some(j) => j.get(key),
        None => None,
    }
}

/// `v[i]`, where `None` stands for `null`.
pub fn element<'a>(v: Option<&'a Json>, i: usize) -> (r: Option<&'a Json>)
    ensures
        or_null(r) == or_null(v).at_index(i as int),
{
    match v {
        Some(Json::Array(a)) => {
            proof {
                lemma_array_view(*a);
            }
            if i < a.len() {
                Some(&a[i])
            } else {
                None
            }
        },
        _ => None,
    }
}

/// `v.as_str().map(String::from)`.
pub fn text(v: Option<&Json>) -> (r: Option<String>)
    ensures
        r.deep_view() == or_null(v).as_str(),
{
    match v {
        Some(Json::Str(s)) => Some(s.clone()),
        _ => None,
    }
}

/// `v.as_u64()`.
pub fn uint(v: Option<&Json>) -> (r: Option<u64>)
    ensures
        r == or_null(v).as_u64(),
{
    match v {
        Some(Json::Number(JsonNumber::UInt(u))) => Some(*u),
        _ => None,
    }
}

/// `v.as_bool()`.
pub fn boolean(v: Option<&Json>) -> (r: Option<bool>)
    ensures
        r == or_null(v).as_bool(),
{
    match v {
        Some(Json::Bool(b)) => Some(*b),
        _ => None,
    }
}

/// `v.as_array()`.
pub fn array<'a>(v: Option<&'a Json>) -> (r: Option<&'a Vec<Json>>)
    ensures
        match r {
            Some(a) => or_null(v).as_array() == Some(views(a@)),
            None => or_null(v).as_array() is None,
        },
{
    match v {
        Some(Json::Array(a)) => {
            proof {
                lemma_array_view(*a);
            }
            Some(a)
        },
        _ => None,
    }
}

/// `v[key].as_str().unwrap_or_default().to_string()`.
pub fn str_field(v: Option<&Json>, key: &str) -> (r: String)
    ensures
        r@ == or_null(v).text_at(key@),
{
    match text(field(v, key)) {
        Some(s) => s,
        None => String::new(),
    }
}

/// A string value.
pub fn string(s: &str) -> (r: Json)
    ensures
        r@ == JsonView::Str(s@),
{
    Json::Str(crate::text::owned(s))
}

/// An optional string: the string, or `null`.
pub fn string_or_null(s: &Option<String>) -> (r: Json)
    ensures
        r@ == str_or_null(s.deep_view()),
{
    match s {
        Some(t) => Json::Str(t.clone()),
        None => Json::Null,
    }
}

/// An unsigned integer value.
pub fn uint_value(n: u64) -> (r: Json)
    ensures
        r@ == JsonView::Number(NumberView::UInt(n)),
{
    Json::Number(JsonNumber::UInt(n))
}

/// Builds an object entry by entry.
pub struct ObjectBuilder {
    pub entries: Vec<(String, Json)>,
}

impl ObjectBuilder {
    /// An object without entries.
    pub fn new() -> (r: ObjectBuilder)
        ensures
            entry_views(r.entries@) == Seq::<(Seq<char>, JsonView)>::empty(),
    {
        let r = ObjectBuilder { entries: Vec::new() };
        assert(entry_views(r.entries@) =~= Seq::<(Seq<char>, JsonView)>::empty());
        r
    }

    /// Adds the entry `key: value` at the end.
    pub fn insert(&mut self, key: &str, value: Json)
        ensures
            entry_views(final(self).entries@) == entry_views(old(self).entries@).push(
                (key@, value@),
            ),
    {
        let ghost before = entry_views(self.entries@);
        self.entries.push((crate::text::owned(key), value));
        assert(entry_views(self.entries@) =~= before.push((key@, value@)));
    }

    /// The object.
    pub fn build(self) -> (r: Json)
        ensures
            r@ == JsonView::Object(entry_views(self.entries@)),
    {
        proof {
            lemma_object_view(self.entries);
        }
        Json::Object(self.entries)
    }
}

/// The object with the single entry `key: value`.
pub fn object1(key: &str, value: Json) -> (r: Json)
    ensures
        r@ == JsonView::Object(seq![(key@, value@)]),
{
    let mut b = ObjectBuilder::new();
    b.insert(key, value);
    let r = b.build();
    assert(seq![(key@, value@)] =~= Seq::<(Seq<char>, JsonView)>::empty().push((key@, value@)));
    r
}

/// The object with the two entries `k1: v1` and `k2: v2`.
pub fn object2(k1: &str, v1: Json, k2: &str, v2: Json) -> (r: Json)
    ensures
        r@ == JsonView::Object(seq![(k1@, v1@), (k2@, v2@)]),
{
    let mut b = ObjectBuilder::new();
    b.insert(k1, v1);
    b.insert(k2, v2);
    let r = b.build();
    assert(seq![(k1@, v1@), (k2@, v2@)] =~= Seq::<(Seq<char>, JsonView)>::empty().push(
        (k1@, v1@),
    ).push((k2@, v2@)));
    r
}

/// The texts found at field `key` of the values that hold a string there,
/// in order (`filter_map(|x| x[key].as_str())`).
pub open spec fn field_texts(items: Seq<JsonView>, key: Seq<char>) -> Seq<Seq<char>>
    decreases items.len(),
{
    if items.len() == 0 {
        Seq::empty()
    } else {
        let rest = field_texts(items.drop_last(), key);
        match items.last().at(key).as_str() {
            Some(t) => rest.push(t),
            None => rest,
        }
    }
}

/// The texts found at field `key` of the values of `items`.
pub fn texts_of(items: &Vec<Json>, key: &str) -> (r: Vec<String>)
    ensures
        r.deep_view() == field_texts(views(items@), key@),
{
    let ghost all = views(items@);
    let mut out: Vec<String> = Vec::new();
    let mut i: usize = 0;
    assert(out.deep_view() =~= field_texts(all.take(0), key@));
    while i < items.len()
        invariant
            all == views(items@),
            i <= items.len(),
            out.deep_view() == field_texts(all.take(i as int), key@),
        decreases items.len() - i,
    {
        let ghost before = out.deep_view();
        assert(all.take(i + 1).drop_last() =~= all.take(i as int));
        assert(all.take(i + 1).last() == items@[i as int]@);
        let t = text(field(Some(&items[i]), key));
        match t {
            Some(s) => {
                out.push(s);
                assert(out.deep_view() =~= before.push(items@[i as int]@.at(key@).as_str()->0));
            },
            None => {},
        }
        i = i + 1;
    }
    assert(all.take(items.len() as int) =~= all);
    out
}

/// The texts found at field `key` of the elements of `v`, when it is an
/// array; none otherwise.
pub fn texts_in(v: Option<&Json>, key: &str) -> (r: Vec<String>)
    ensures
        r.deep_view() == field_texts(or_null(v).elements(), key@),
{
    match array(v) {
        Some(a) => texts_of(a, key),
        None => {
            let r: Vec<String> = Vec::new();
            assert(r.deep_view() =~= field_texts(Seq::empty(), key@));
            r
        },
    }
}

/// The text under `key`, when `v` is an object whose field `key` is a
/// JSON string; nothing otherwise.
pub open spec fn string_field(v: JsonView, key: Seq<char>) -> Option<Seq<char>> {
    match v.get(key) {
        Some(JsonView::Str(t)) => Some(t),
        _ => None,
    }
}

/// The text under `key` as [`string_field`] finds it, or an empty text.
pub open spec fn string_field_or_empty(v: JsonView, key: Seq<char>) -> Seq<char> {
    match string_field(v, key) {
        Some(t) => t,
        None => Seq::empty(),
    }
}

/// When every item holds a string under `key`, the texts read are those
/// strings, one per item, in order.
pub proof fn lemma_field_texts_all_named(items: Seq<JsonView>, key: Seq<char>)
    requires
        forall|i: int| 0 <= i < items.len() ==> (#[trigger] string_field(items[i], key)) is Some,
    ensures
        field_texts(items, key).len() == items.len(),
        forall|i: int|
            0 <= i < items.len() ==> Some(#[trigger] field_texts(items, key)[i]) == string_field(
                items[i],
                key,
            ),
    decreases items.len(),
{
    if items.len() > 0 {
        let init = items.drop_last();
        assert forall|i: int| 0 <= i < init.len() implies (#[trigger] string_field(init[i], key)) is Some by {
            assert(init[i] == items[i]);
        }
        lemma_field_texts_all_named(init, key);
        assert(string_field(items[items.len() - 1], key) is Some);
        let all = field_texts(items, key);
        assert forall|i: int| 0 <= i < items.len() implies Some(#[trigger] all[i]) == string_field(
            items[i],
            key,
        ) by {
            if i < init.len() {
                assert(init[i] == items[i]);
                assert(all[i] == field_texts(init, key)[i]);
            }
        }
    }
}

/// The text `s`, when present, as a JSON string.
pub open spec fn string_json(s: Option<Seq<char>>) -> Option<JsonView> {
    match s {
        Some(t) => Some(JsonView::Str(t)),
        None => None,
    }
}

/// Looking a key up in entries laid end to end finds it in the first part
/// when it is there, in the second part otherwise.
pub proof fn lemma_entry_value_concat(
    a: Seq<(Seq<char>, JsonView)>,
    b: Seq<(Seq<char>, JsonView)>,
    key: Seq<char>,
)
    ensures
        entry_value(a + b, key) == match entry_value(a, key) {
            Some(x) => Some(x),
            None => entry_value(b, key),
        },
    decreases a.len(),
{
    if a.len() == 0 {
        assert(a + b =~= b);
    } else {
        assert((a + b)[0] == a[0]);
        if a[0].0 != key {
            assert((a + b).drop_first() =~= a.drop_first() + b);
            lemma_entry_value_concat(a.drop_first(), b, key);
        }
    }
}

/// The entry `key: value` when the text is present; no entry otherwise.
pub open spec fn opt_entry(key: Seq<char>, value: Option<Seq<char>>) -> Seq<(Seq<char>, JsonView)> {
    match value {
        Some(v) => seq![(key, JsonView::Str(v))],
        None => Seq::empty(),
    }
}

/// A single entry holds its value under its key, and nothing else.
pub proof fn lemma_single_entry_value(k: Seq<char>, v: JsonView, key: Seq<char>)
    ensures
        entry_value(seq![(k, v)], key) == if k == key {
            Some(v)
        } else {
            None
        },
{
    let e = seq![(k, v)];
    assert(e.drop_first() =~= Seq::<(Seq<char>, JsonView)>::empty());
    assert(entry_value(e.drop_first(), key) is None);
}

/// The optional entry holds the key's text when it is present and the key
/// is the one looked up, and nothing else.
pub proof fn lemma_opt_entry_value(k: Seq<char>, value: Option<Seq<char>>, key: Seq<char>)
    ensures
        entry_value(opt_entry(k, value), key) == if k == key {
            string_json(value)
        } else {
            None
        },
{
    if let Some(v) = value {
        assert(opt_entry(k, value).drop_first() =~= Seq::<(Seq<char>, JsonView)>::empty());
        assert(entry_value(opt_entry(k, value).drop_first(), key) is None);
    } else {
        assert(entry_value(Seq::<(Seq<char>, JsonView)>::empty(), key) is None);
    }
}

impl ObjectBuilder {
    /// Adds the entry `key: value` when `value` is present.
    pub fn insert_opt(&mut self, key: &str, value: &Option<String>)
        ensures
            entry_views(final(self).entries@) == entry_views(old(self).entries@) + opt_entry(
                key@,
                value.deep_view(),
            ),
    {
        let ghost before = entry_views(self.entries@);
        match value {
            Some(v) => {
                self.insert(key, Json::Str(v.clone()));
                assert(entry_views(self.entries@) =~= before + opt_entry(key@, value.deep_view()));
            },
            None => {
                assert(entry_views(self.entries@) =~= before + opt_entry(key@, value.deep_view()));
            },
        }
    }
}

/// A text, or `null` when there is none.
pub open spec fn str_or_null(s: Option<Seq<char>>) -> JsonView {
    match s {
        Some(t) => JsonView::Str(t),
        None => JsonView::Null,
    }
}

/// The view of an optional value.
pub open spec fn opt_json_view(v: Option<Json>) -> Option<JsonView> {
    match v {
        Some(j) => Some(j@),
        None => None,
    }
}

} // verus!
