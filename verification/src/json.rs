//! JSON documents as the stream decoders read them.
//!
//! `Json` holds a parsed document as plain values; `JsonView` is its
//! mathematical model. Numbers keep the three shapes the parser tells apart:
//! non-negative integers, negative integers, and other numbers (kept as text).
use vstd::prelude::*;

verus! {

/// A JSON number: a non-negative integer, a negative integer, or any other
/// number, kept as its decimal text.
pub enum JsonNumber {
    PosInt(u64),
    NegInt(i64),
    Float(String),
}

/// A parsed JSON value. Object members keep the order the parser gave them.
pub enum Json {
    Null,
    Bool(bool),
    Number(JsonNumber),
    Str(String),
    Array(Vec<Json>),
    Object(Vec<(String, Json)>),
}

/// Model of a JSON number.
pub enum NumberView {
    PosInt(u64),
    NegInt(i64),
    Float(Seq<char>),
}

/// Model of a JSON value.
pub enum JsonView {
    Null,
    Bool(bool),
    Number(NumberView),
    Str(Seq<char>),
    Array(Seq<JsonView>),
    Object(Seq<(Seq<char>, JsonView)>),
}

pub open spec fn number_view(n: JsonNumber) -> NumberView {
    match n {
        JsonNumber::PosInt(u) => NumberView::PosInt(u),
        JsonNumber::NegInt(i) => NumberView::NegInt(i),
        JsonNumber::Float(s) => NumberView::Float(s@),
    }
}

pub open spec fn json_view(j: Json) -> JsonView
    decreases j, 0nat,
{
    match j {
        Json::Null => JsonView::Null,
        Json::Bool(b) => JsonView::Bool(b),
        Json::Number(n) => JsonView::Number(number_view(n)),
        Json::Str(s) => JsonView::Str(s@),
        Json::Array(items) => JsonView::Array(items_view(items@)),
        Json::Object(entries) => JsonView::Object(entries_view(entries@)),
    }
}

pub open spec fn items_view(s: Seq<Json>) -> Seq<JsonView>
    decreases s, s.len(),
{
    if s.len() == 0 {
        Seq::empty()
    } else {
        seq![json_view(s[0])] + items_view(s.subrange(1, s.len() as int))
    }
}

pub open spec fn entries_view(s: Seq<(String, Json)>) -> Seq<(Seq<char>, JsonView)>
    decreases s, s.len(),
{
    if s.len() == 0 {
        Seq::empty()
    } else {
        seq![(s[0].0@, json_view(s[0].1))] + entries_view(s.subrange(1, s.len() as int))
    }
}

impl View for Json {
    type V = JsonView;

    open spec fn view(&self) -> JsonView {
        json_view(*self)
    }
}

impl DeepView for Json {
    type V = JsonView;

    open spec fn deep_view(&self) -> JsonView {
        json_view(*self)
    }
}

/// First value stored under `key` in a sequence of object members.
pub open spec fn lookup(entries: Seq<(Seq<char>, JsonView)>, key: Seq<char>) -> Option<JsonView>
    decreases entries.len(),
{
    if entries.len() == 0 {
        None
    } else if entries[0].0 == key {
        Some(entries[0].1)
    } else {
        lookup(entries.subrange(1, entries.len() as int), key)
    }
}

impl JsonView {
    /// The member `key` of an object; `None` for a missing member or a non-object.
    pub open spec fn field(self, key: Seq<char>) -> Option<JsonView> {
        match self {
            JsonView::Object(m) => lookup(m, key),
            _ => None,
        }
    }

    pub open spec fn as_str(self) -> Option<Seq<char>> {
        match self {
            JsonView::Str(s) => Some(s),
            _ => None,
        }
    }

    pub open spec fn as_u64(self) -> Option<u64> {
        match self {
            JsonView::Number(NumberView::PosInt(u)) => Some(u),
            _ => None,
        }
    }

    pub open spec fn as_i64(self) -> Option<i64> {
        match self {
            JsonView::Number(NumberView::PosInt(u)) => if u <= i64::MAX {
                Some(u as i64)
            } else {
                None
            },
            JsonView::Number(NumberView::NegInt(i)) => Some(i),
            _ => None,
        }
    }

    pub open spec fn as_array(self) -> Option<Seq<JsonView>> {
        match self {
            JsonView::Array(items) => Some(items),
            _ => None,
        }
    }

    pub open spec fn is_null(self) -> bool {
        self is Null
    }

    pub open spec fn is_object(self) -> bool {
        self is Object
    }

    /// An object without members.
    pub open spec fn is_empty_object(self) -> bool {
        match self {
            JsonView::Object(m) => m.len() == 0,
            _ => false,
        }
    }

    /// The string member `key`, if the member exists and is a string.
    pub open spec fn str_field(self, key: Seq<char>) -> Option<Seq<char>> {
        match self.field(key) {
            Some(v) => v.as_str(),
            None => None,
        }
    }

    /// The non-negative integer member `key`.
    pub open spec fn u64_field(self, key: Seq<char>) -> Option<u64> {
        match self.field(key) {
            Some(v) => v.as_u64(),
            None => None,
        }
    }

    /// The array member `key`.
    pub open spec fn array_field(self, key: Seq<char>) -> Option<Seq<JsonView>> {
        match self.field(key) {
            Some(v) => v.as_array(),
            None => None,
        }
    }

    /// The member `b` of the member `a`.
    pub open spec fn field2(self, a: Seq<char>, b: Seq<char>) -> Option<JsonView> {
        match self.field(a) {
            Some(v) => v.field(b),
            None => None,
        }
    }

    /// The member `c` of the member `b` of the member `a`.
    pub open spec fn field3(self, a: Seq<char>, b: Seq<char>, c: Seq<char>) -> Option<JsonView> {
        match self.field2(a, b) {
            Some(v) => v.field(c),
            None => None,
        }
    }
}

pub proof fn lemma_items_view(s: Seq<Json>)
    ensures
        items_view(s).len() == s.len(),
        forall|i: int| 0 <= i < s.len() ==> #[trigger] items_view(s)[i] == json_view(s[i]),
    decreases s.len(),
{
    if s.len() > 0 {
        let t = s.subrange(1, s.len() as int);
        lemma_items_view(t);
        assert forall|i: int| 0 <= i < s.len() implies #[trigger] items_view(s)[i] == json_view(
            s[i],
        ) by {
            if i > 0 {
                assert(items_view(s)[i] == items_view(t)[i - 1]);
                assert(t[i - 1] == s[i]);
            }
        }
    }
}

pub proof fn lemma_entries_view(s: Seq<(String, Json)>)
    ensures
        entries_view(s).len() == s.len(),
        forall|i: int|
            0 <= i < s.len() ==> #[trigger] entries_view(s)[i] == (s[i].0@, json_view(s[i].1)),
    decreases s.len(),
{
    if s.len() > 0 {
        let t = s.subrange(1, s.len() as int);
        lemma_entries_view(t);
        assert forall|i: int| 0 <= i < s.len() implies #[trigger] entries_view(s)[i] == (
            s[i].0@,
            json_view(s[i].1),
        ) by {
            if i > 0 {
                assert(entries_view(s)[i] == entries_view(t)[i - 1]);
                assert(t[i - 1] == s[i]);
            }
        }
    }
}

/// Skipping members whose key differs does not change a lookup.
pub proof fn lemma_lookup_skip(s: Seq<(Seq<char>, JsonView)>, key: Seq<char>, i: int)
    requires
        0 <= i <= s.len(),
        forall|j: int| 0 <= j < i ==> s[j].0 != key,
    ensures
        lookup(s, key) == lookup(s.subrange(i, s.len() as int), key),
    decreases i,
{
    if i == 0 {
        assert(s.subrange(0, s.len() as int) =~= s);
    } else {
        let t = s.subrange(1, s.len() as int);
        lemma_lookup_skip(t, key, i - 1);
        assert(t.subrange(i - 1, t.len() as int) =~= s.subrange(i, s.len() as int));
    }
}

impl Json {
    /// The member `key` of an object.
    pub fn get(&self, key: &str) -> (r: Option<&Json>)
        ensures
            r.deep_view() == self@.field(key@),
    {
        match self {
            Json::Object(entries) => {
                let k = key.to_owned();
                let ghost ev = entries_view(entries@);
                proof {
                    lemma_entries_view(entries@);
                }
                let mut i: usize = 0;
                while i < entries.len()
                    invariant
                        0 <= i <= entries.len(),
                        k@ == key@,
                        ev == entries_view(entries@),
                        self@.field(key@) == lookup(ev, key@),
                        ev.len() == entries@.len(),
                        forall|j: int|
                            0 <= j < entries@.len() ==> #[trigger] ev[j] == (
                                entries@[j].0@,
                                json_view(entries@[j].1),
                            ),
                        forall|j: int| 0 <= j < i ==> ev[j].0 != key@,
                    decreases entries.len() - i,
                {
                    if entries[i].0 == k {
                        proof {
                            lemma_lookup_skip(ev, key@, i as int);
                            let rest = ev.subrange(i as int, ev.len() as int);
                            assert(rest[0] == ev[i as int]);
                            assert(lookup(rest, key@) == Some(json_view(entries@[i as int].1)));
                        }
                        let r = Some(&entries[i].1);
                        assert(r.deep_view() == Some(json_view(entries@[i as int].1)));
                        return r;
                    }
                    i = i + 1;
                }
                proof {
                    lemma_lookup_skip(ev, key@, i as int);
                }
                None
            },
            _ => None,
        }
    }

    /// A copy of this value.
    pub fn copy(&self) -> (r: Json)
        ensures
            r@ == self@,
        decreases self,
    {
        match self {
            Json::Null => Json::Null,
            Json::Bool(b) => Json::Bool(*b),
            Json::Number(n) => Json::Number(
                match n {
                    JsonNumber::PosInt(u) => JsonNumber::PosInt(*u),
                    JsonNumber::NegInt(i) => JsonNumber::NegInt(*i),
                    JsonNumber::Float(t) => JsonNumber::Float(t.clone()),
                },
            ),
            Json::Str(t) => Json::Str(t.clone()),
            Json::Array(items) => {
                let mut out: Vec<Json> = Vec::new();
                let mut i: usize = 0;
                while i < items.len()
                    invariant
                        0 <= i <= items.len(),
                        *self == Json::Array(*items),
                        out@.len() == i,
                        forall|j: int| 0 <= j < i ==> #[trigger] json_view(out@[j]) == json_view(items@[j]),
                    decreases items.len() - i,
                {
                    assert(decreases_to!(*self => (*self)->Array_0));
                    assert(decreases_to!(*items => items@));
                    assert(decreases_to!(items@ => items@[i as int]));
                    let c = items[i].copy();
                    out.push(c);
                    i = i + 1;
                }
                proof {
                    lemma_items_view(out@);
                    lemma_items_view(items@);
                    assert(items_view(out@) =~= items_view(items@));
                }
                Json::Array(out)
            },
            Json::Object(entries) => {
                let mut out: Vec<(String, Json)> = Vec::new();
                let mut i: usize = 0;
                while i < entries.len()
                    invariant
                        0 <= i <= entries.len(),
                        *self == Json::Object(*entries),
                        out@.len() == i,
                        forall|j: int| 0 <= j < i ==> (#[trigger] out@[j]).0@ == entries@[j].0@ && json_view(out@[j].1) == json_view(entries@[j].1),
                    decreases entries.len() - i,
                {
                    assert(decreases_to!(*self => (*self)->Object_0));
                    assert(decreases_to!(*entries => entries@));
                    assert(decreases_to!(entries@ => entries@[i as int]));
                    assert(decreases_to!(entries@[i as int] => entries@[i as int].1));
                    let k = entries[i].0.clone();
                    let c = entries[i].1.copy();
                    out.push((k, c));
                    i = i + 1;
                }
                proof {
                    lemma_entries_view(out@);
                    lemma_entries_view(entries@);
                    assert(entries_view(out@) =~= entries_view(entries@));
                }
                Json::Object(out)
            },
        }
    }

    pub fn as_str(&self) -> (r: Option<&String>)
        ensures
            r.deep_view() == self@.as_str(),
    {
        match self {
            Json::Str(s) => Some(s),
            _ => None,
        }
    }

    pub fn as_u64(&self) -> (r: Option<u64>)
        ensures
            r == self@.as_u64(),
    {
        match self {
            Json::Number(JsonNumber::PosInt(u)) => Some(*u),
            _ => None,
        }
    }

    pub fn as_i64(&self) -> (r: Option<i64>)
        ensures
            r == self@.as_i64(),
    {
        match self {
            Json::Number(JsonNumber::PosInt(u)) => {
                if *u <= 9223372036854775807u64 {
                    Some(*u as i64)
                } else {
                    None
                }
            },
            Json::Number(JsonNumber::NegInt(i)) => Some(*i),
            _ => None,
        }
    }

    pub fn as_array(&self) -> (r: Option<&Vec<Json>>)
        ensures
            r is Some <==> self@.as_array() is Some,
            r matches Some(v) ==> items_view(v@) == self@.as_array()->0,
    {
        match self {
            Json::Array(items) => Some(items),
            _ => None,
        }
    }

    pub fn is_null(&self) -> (r: bool)
        ensures
            r == self@.is_null(),
    {
        match self {
            Json::Null => true,
            _ => false,
        }
    }

    pub fn is_object(&self) -> (r: bool)
        ensures
            r == self@.is_object(),
    {
        match self {
            Json::Object(_) => true,
            _ => false,
        }
    }

    pub fn is_empty_object(&self) -> (r: bool)
        ensures
            r == self@.is_empty_object(),
    {
        match self {
            Json::Object(m) => {
                proof {
                    lemma_entries_view(m@);
                }
                m.len() == 0
            },
            _ => false,
        }
    }
}

/// The string held by an optional value.
pub open spec fn str_of(v: Option<JsonView>) -> Option<Seq<char>> {
    match v {
        Some(x) => x.as_str(),
        None => None,
    }
}

/// The non-negative integer held by an optional value.
pub open spec fn u64_of(v: Option<JsonView>) -> Option<u64> {
    match v {
        Some(x) => x.as_u64(),
        None => None,
    }
}

/// The array held by an optional value.
pub open spec fn array_of(v: Option<JsonView>) -> Option<Seq<JsonView>> {
    match v {
        Some(x) => x.as_array(),
        None => None,
    }
}

/// The member `b` of the member `a`.
pub fn get2<'a>(v: &'a Json, a: &str, b: &str) -> (r: Option<&'a Json>)
    ensures
        r.deep_view() == v@.field2(a@, b@),
{
    match v.get(a) {
        Some(x) => x.get(b),
        None => None,
    }
}

/// The member `c` of the member `b` of the member `a`.
pub fn get3<'a>(v: &'a Json, a: &str, b: &str, c: &str) -> (r: Option<&'a Json>)
    ensures
        r.deep_view() == v@.field3(a@, b@, c@),
{
    match get2(v, a, b) {
        Some(x) => x.get(c),
        None => None,
    }
}

/// The string held by an optional value, copied.
pub fn string_of(v: Option<&Json>) -> (r: Option<String>)
    ensures
        r.deep_view() == str_of(v.deep_view()),
{
    match v {
        Some(x) => match x.as_str() {
            Some(s) => Some(s.clone()),
            None => None,
        },
        None => None,
    }
}

/// The non-negative integer held by an optional value.
pub fn as_u64_of(v: Option<&Json>) -> (r: Option<u64>)
    ensures
        r == u64_of(v.deep_view()),
{
    match v {
        Some(x) => x.as_u64(),
        None => None,
    }
}

/// An optional string member as a typed decoder reads it: `Some(None)` when
/// the member is missing or null, `Some(Some(s))` for a string, and `None`
/// (a decoding failure) for any other value.
pub open spec fn opt_string_member(v: JsonView, key: Seq<char>) -> Option<Option<Seq<char>>> {
    match v.field(key) {
        None => Some(None),
        Some(JsonView::Null) => Some(None),
        Some(JsonView::Str(s)) => Some(Some(s)),
        _ => None,
    }
}

/// Decodes an optional string member (see `opt_string_member`).
pub fn decode_opt_string(v: &Json, key: &str) -> (r: Option<Option<String>>)
    ensures
        r.deep_view() == opt_string_member(v@, key@),
{
    match v.get(key) {
        None => Some(None),
        Some(Json::Null) => Some(None),
        Some(Json::Str(s)) => Some(Some(s.clone())),
        Some(_) => None,
    }
}

/// An optional `u32` member as a typed decoder reads it: `Some(None)` when
/// missing or null, `Some(Some(n))` for a non-negative integer that fits,
/// `None` for any other value.
pub open spec fn opt_u32_member(v: JsonView, key: Seq<char>) -> Option<Option<u32>> {
    match v.field(key) {
        None => Some(None),
        Some(JsonView::Null) => Some(None),
        Some(JsonView::Number(NumberView::PosInt(n))) => if n <= u32::MAX {
            Some(Some(n as u32))
        } else {
            None
        },
        _ => None,
    }
}

/// A required `u32` member.
pub open spec fn u32_member(v: JsonView, key: Seq<char>) -> Option<u32> {
    match v.u64_field(key) {
        Some(n) => if n <= u32::MAX {
            Some(n as u32)
        } else {
            None
        },
        None => None,
    }
}

/// Decodes an optional `u32` member (see `opt_u32_member`).
pub fn decode_opt_u32(v: &Json, key: &str) -> (r: Option<Option<u32>>)
    ensures
        r == opt_u32_member(v@, key@),
{
    match v.get(key) {
        None => Some(None),
        Some(Json::Null) => Some(None),
        Some(Json::Number(JsonNumber::PosInt(n))) => if *n <= 4294967295u64 {
            Some(Some(*n as u32))
        } else {
            None
        },
        Some(_) => None,
    }
}

/// Decodes a required `u32` member.
pub fn decode_u32(v: &Json, key: &str) -> (r: Option<u32>)
    ensures
        r == u32_member(v@, key@),
{
    match u64_member(v, key) {
        Some(n) => if n <= 4294967295u64 {
            Some(n as u32)
        } else {
            None
        },
        None => None,
    }
}

/// Three required `u32` members of an optional object: `Some(None)` when the
/// object is missing or null, `Some(Some(..))` when it holds all three, `None`
/// otherwise.
pub open spec fn u32_triple(u: Option<JsonView>, a: Seq<char>, b: Seq<char>, c: Seq<char>) -> Option<
    Option<(u32, u32, u32)>,
> {
    match u {
        None => Some(None),
        Some(JsonView::Null) => Some(None),
        Some(x) => match (u32_member(x, a), u32_member(x, b), u32_member(x, c)) {
            (Some(p), Some(q), Some(r)) => if x.is_object() {
                Some(Some((p, q, r)))
            } else {
                None
            },
            _ => None,
        },
    }
}

/// Decodes three required `u32` members of an optional object (see `u32_triple`).
pub fn decode_u32_triple(u: Option<&Json>, a: &str, b: &str, c: &str) -> (r: Option<
    Option<(u32, u32, u32)>,
>)
    ensures
        r == u32_triple(u.deep_view(), a@, b@, c@),
{
    match u {
        None => Some(None),
        Some(Json::Null) => Some(None),
        Some(x) => match (decode_u32(x, a), decode_u32(x, b), decode_u32(x, c)) {
            (Some(p), Some(q), Some(r)) => if x.is_object() {
                Some(Some((p, q, r)))
            } else {
                None
            },
            _ => None,
        },
    }
}

/// The string member `key`, copied.
pub fn string_member(v: &Json, key: &str) -> (r: Option<String>)
    ensures
        r.deep_view() == v@.str_field(key@),
{
    match v.get(key) {
        Some(x) => match x.as_str() {
            Some(s) => Some(s.clone()),
            None => None,
        },
        None => None,
    }
}

/// The non-negative integer member `key`.
pub fn u64_member(v: &Json, key: &str) -> (r: Option<u64>)
    ensures
        r == v@.u64_field(key@),
{
    match v.get(key) {
        Some(x) => x.as_u64(),
        None => None,
    }
}

#[verifier::external_type_specification]
#[verifier::external_body]
pub struct ExSerdeValue(serde_json::Value);

/// What `serde_json::from_str::<serde_json::Value>` yields for a text: the
/// document, or the text of the error it reports.
pub uninterp spec fn json_parse_outcome(text: Seq<char>) -> Result<JsonView, Seq<char>>;

/// The document a text holds, if it holds one.
pub open spec fn parsed_json(text: Seq<char>) -> Option<JsonView> {
    match json_parse_outcome(text) {
        Ok(v) => Some(v),
        Err(_) => None,
    }
}

#[verifier::external_type_specification]
#[verifier::external_body]
pub struct ExSerdeNumber(serde_json::Number);

/// Moves a `serde_json::Number` into a `JsonNumber`: told apart by
/// `as_u64` and `as_i64`; other numbers keep their text.
#[verifier::external_body]
fn number_from_serde(n: serde_json::Number) -> JsonNumber {
    match (n.as_u64(), n.as_i64()) {
        (Some(u), _) => JsonNumber::PosInt(u),
        (None, Some(i)) => JsonNumber::NegInt(i),
        _ => JsonNumber::Float(n.to_string()),
    }
}

/// Moves a `serde_json::Value` into a `Json`, variant for variant.
#[verifier::external_body]
fn json_from_serde(v: serde_json::Value) -> Json {
    match v {
        serde_json::Value::Null => Json::Null,
        serde_json::Value::Bool(b) => Json::Bool(b),
        serde_json::Value::Number(n) => Json::Number(number_from_serde(n)),
        serde_json::Value::String(s) => Json::Str(s),
        serde_json::Value::Array(a) => Json::Array(a.into_iter().map(json_from_serde).collect()),
        serde_json::Value::Object(m) => Json::Object(m.into_iter().map(|(k, v)| (k, json_from_serde(v))).collect()),
    }
}

/// Calls `serde_json::from_str::<serde_json::Value>` on `text`; a failure
/// becomes the error's display text. The contract claims only that the
/// outcome is the named outcome for the text: the JSON grammar, and the
/// wording of errors, are left to serde_json.
#[verifier::external_body]
pub(crate) fn parse_json_result(text: &str) -> (r: Result<Json, String>)
    ensures
        match r {
            Ok(v) => json_parse_outcome(text@) == Ok::<JsonView, Seq<char>>(v@),
            Err(e) => json_parse_outcome(text@) == Err::<JsonView, Seq<char>>(e@),
        },
{
    serde_json::from_str::<serde_json::Value>(text).map(json_from_serde).map_err(|e| e.to_string())
}

/// What `serde_json::to_string` writes for a document.
pub uninterp spec fn json_text(v: JsonView) -> Seq<char>;

/// Moves a `JsonNumber` back into a `serde_json::Value`; a number text that
/// serde_json does not read as a number becomes null.
#[verifier::external_body]
fn number_to_serde(n: &JsonNumber) -> serde_json::Value {
    match n {
        JsonNumber::PosInt(u) => serde_json::Value::from(*u),
        JsonNumber::NegInt(i) => serde_json::Value::from(*i),
        JsonNumber::Float(t) => t.parse::<serde_json::Number>().map(serde_json::Value::Number).unwrap_or(serde_json::Value::Null),
    }
}

/// Moves a `Json` back into a `serde_json::Value`, variant for variant.
#[verifier::external_body]
fn json_to_serde(v: &Json) -> serde_json::Value {
    match v {
        Json::Null => serde_json::Value::Null,
        Json::Bool(b) => serde_json::Value::Bool(*b),
        Json::Number(n) => number_to_serde(n),
        Json::Str(s) => serde_json::Value::String(s.clone()),
        Json::Array(a) => serde_json::Value::Array(a.iter().map(json_to_serde).collect()),
        Json::Object(m) => serde_json::Value::Object(m.iter().map(|(k, x)| (k.clone(), json_to_serde(x))).collect()),
    }
}

/// Calls `serde_json::to_string` on the document, which is the named text
/// of the document. It always succeeds: serializing fails only where a
/// `Serialize` impl fails or a map key is not a string, and a
/// `serde_json::Value` does neither.
#[verifier::external_body]
pub(crate) fn json_to_string(v: &Json) -> (r: Option<String>)
    ensures
        r is Some,
        r matches Some(t) ==> t@ == json_text(v@),
{
    serde_json::to_string(&json_to_serde(v)).ok()
}

/// The document `text` holds, if any.
pub fn parse_json(text: &str) -> (r: Option<Json>)
    ensures
        r.deep_view() == parsed_json(text@),
{
    match parse_json_result(text) {
        Ok(v) => Some(v),
        Err(_) => None,
    }
}

} // verus!
