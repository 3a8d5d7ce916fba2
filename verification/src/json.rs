//! JSON values: the library's own tree, its mathematical view, field access,
//! and the conversions to and from text.
use serde_json::Value;
use vstd::prelude::*;

use crate::text;

verus! {

/// The value tree of `serde_json`.
#[verifier::external_type_specification]
#[verifier::external_body]
pub struct ExJsonValue(serde_json::Value);

/// The number of `serde_json`.
#[verifier::external_type_specification]
#[verifier::external_body]
pub struct ExJsonNumber(serde_json::Number);

/// A number that is no 64-bit integer, kept as it was read.
#[derive(Debug, PartialEq)]
pub struct Fraction {
    number: serde_json::Number,
}

/// A JSON number. An integer is `Signed` only where it is negative: so [`Json::parse`] and
/// [`Json::integer`] give it.
#[derive(Debug, PartialEq)]
pub enum JsonNumber {
    Unsigned(u64),
    Signed(i64),
    Fraction(Fraction),
}

/// A JSON value. The entries of an object stand in the order of their keys, and no key has two: so
/// [`Json::parse`] and [`Json::insert`] give them. Where a key has several after all, the last one
/// counts.
#[derive(Debug, PartialEq)]
pub enum Json {
    Null,
    Bool(bool),
    Number(JsonNumber),
    Text(String),
    Array(Vec<Json>),
    Object(Vec<(String, Json)>),
}

/// What a JSON number is.
pub enum NumberView {
    Integer(int),
    Fraction(Fraction),
}

/// What a JSON value is.
pub enum JsonView {
    Null,
    Bool(bool),
    Number(NumberView),
    Text(Seq<char>),
    Array(Seq<JsonView>),
    Object(Map<Seq<char>, JsonView>),
}

pub open spec fn number_view(n: JsonNumber) -> NumberView {
    match n {
        JsonNumber::Unsigned(u) => NumberView::Integer(u as int),
        JsonNumber::Signed(i) => NumberView::Integer(i as int),
        JsonNumber::Fraction(f) => NumberView::Fraction(f),
    }
}

pub open spec fn json_view(j: Json) -> JsonView
    decreases j,
{
    match j {
        Json::Null => JsonView::Null,
        Json::Bool(b) => JsonView::Bool(b),
        Json::Number(n) => JsonView::Number(number_view(n)),
        Json::Text(s) => JsonView::Text(s@),
        Json::Array(items) => JsonView::Array(array_view(items@)),
        Json::Object(entries) => JsonView::Object(object_view(entries@)),
    }
}

/// The views of the items, in order.
pub open spec fn array_view(items: Seq<Json>) -> Seq<JsonView>
    decreases items,
{
    if items.len() == 0 {
        Seq::empty()
    } else {
        array_view(items.drop_last()).push(json_view(items.last()))
    }
}

/// The mapping that a list of entries describes.
pub open spec fn object_view(entries: Seq<(String, Json)>) -> Map<Seq<char>, JsonView>
    decreases entries,
{
    if entries.len() == 0 {
        Map::empty()
    } else {
        object_view(entries.drop_last()).insert(entries.last().0@, json_view(entries.last().1))
    }
}

impl View for Json {
    type V = JsonView;

    open spec fn view(&self) -> JsonView {
        json_view(*self)
    }
}

/// The view of an optional value.
pub open spec fn opt_view(j: Option<Json>) -> Option<JsonView> {
    match j {
        Some(v) => Some(v@),
        None => None,
    }
}

/// The value under a key, when `v` is an object that has it.
pub open spec fn field(v: JsonView, key: Seq<char>) -> Option<JsonView> {
    match v {
        JsonView::Object(m) => if m.contains_key(key) {
            Some(m[key])
        } else {
            None
        },
        _ => None,
    }
}

/// The text of a string value.
pub open spec fn text_of(v: JsonView) -> Option<Seq<char>> {
    match v {
        JsonView::Text(s) => Some(s),
        _ => None,
    }
}

/// The truth value of a boolean value.
pub open spec fn bool_of(v: JsonView) -> Option<bool> {
    match v {
        JsonView::Bool(b) => Some(b),
        _ => None,
    }
}

/// The integer of a number value within the unsigned 64-bit range.
pub open spec fn u64_of(v: JsonView) -> Option<u64> {
    match v {
        JsonView::Number(NumberView::Integer(n)) => if 0 <= n <= u64::MAX {
            Some(n as u64)
        } else {
            None
        },
        _ => None,
    }
}

/// The integer of a number value within the signed 64-bit range.
pub open spec fn i64_of(v: JsonView) -> Option<i64> {
    match v {
        JsonView::Number(NumberView::Integer(n)) => if i64::MIN <= n <= i64::MAX {
            Some(n as i64)
        } else {
            None
        },
        _ => None,
    }
}

/// The string under a key.
pub open spec fn text_field(v: JsonView, key: Seq<char>) -> Option<Seq<char>> {
    match field(v, key) {
        Some(x) => text_of(x),
        None => None,
    }
}

/// The boolean under a key.
pub open spec fn bool_field(v: JsonView, key: Seq<char>) -> Option<bool> {
    match field(v, key) {
        Some(x) => bool_of(x),
        None => None,
    }
}

/// The unsigned integer under a key.
pub open spec fn u64_field(v: JsonView, key: Seq<char>) -> Option<u64> {
    match field(v, key) {
        Some(x) => u64_of(x),
        None => None,
    }
}

/// Whether every number in the value is an integer of 64 bits and containers are nested at most
/// `depth` deep.
pub open spec fn plain(v: JsonView, depth: nat) -> bool
    decreases depth,
{
    match v {
        JsonView::Null => true,
        JsonView::Bool(_) => true,
        JsonView::Text(_) => true,
        JsonView::Number(NumberView::Integer(n)) => i64::MIN <= n <= u64::MAX,
        JsonView::Number(NumberView::Fraction(_)) => false,
        JsonView::Array(items) => depth > 0 && forall|i: int|
            0 <= i < items.len() ==> plain(#[trigger] items[i], (depth - 1) as nat),
        JsonView::Object(m) => depth > 0 && forall|k: Seq<char>| #[trigger]
            m.contains_key(k) ==> plain(m[k], (depth - 1) as nat),
    }
}

/// The nesting of containers that the reader accepts.
pub const MAX_DEPTH: u64 = 127;

/// What a value of `serde_json` holds.
pub uninterp spec fn value_tree(value: Value) -> JsonView;

/// The value that a text denotes for `serde_json`, or why it denotes none.
pub uninterp spec fn parsed(text: Seq<char>) -> std::result::Result<JsonView, Seq<char>>;

/// Whether a text is JSON for the given value.
pub open spec fn reads_as(text: Seq<char>, v: JsonView) -> bool {
    parsed(text) == Ok::<JsonView, Seq<char>>(v)
}

/// The compact text of a value.
pub uninterp spec fn rendered(v: JsonView) -> Seq<char>;

/// `serde_json::from_str`, read into a `serde_json::Value`. Whether the text is JSON, which value
/// it then denotes, and how its error reads otherwise, is a function of the text alone.
#[verifier::external_body]
fn read_value(text: &str) -> (r: Result<Value, String>)
    ensures
        match r {
            Ok(value) => parsed(text@) == Ok::<JsonView, Seq<char>>(value_tree(value)),
            Err(why) => parsed(text@) == Err::<JsonView, Seq<char>>(why@),
        },
{
    serde_json::from_str(text).map_err(|e| e.to_string())
}

/// `serde_json::to_string` on a `serde_json::Value`. It cannot fail on such a value, and its text
/// is a function of the value. Control characters are escaped, so the text has no line feed. A
/// value without fractions that is nested no deeper than the reader accepts is read back as it
/// was, also from a line that ends in a line feed.
#[verifier::external_body]
fn write_value(value: &Value) -> (r: Result<String, String>)
    ensures
        r is Ok,
        r->Ok_0@ == rendered(value_tree(*value)),
        !r->Ok_0@.contains('\n'),
        plain(value_tree(*value), MAX_DEPTH as nat) ==> reads_as(r->Ok_0@, value_tree(*value)),
        plain(value_tree(*value), MAX_DEPTH as nat) ==> reads_as(r->Ok_0@.push('\n'), value_tree(*value)),
{
    serde_json::to_string(value).map_err(|e| e.to_string())
}

/// Moves a `serde_json::Value` into the library's tree, variant for variant. A number is an
/// integer where `serde_json::Number` holds one, and is carried as it is otherwise.
#[verifier::external_body]
fn tree_of(value: Value) -> (r: Json)
    ensures
        r@ == value_tree(value),
{
    match value {
        Value::Null => Json::Null,
        Value::Bool(b) => Json::Bool(b),
        Value::Number(n) => match (n.as_u64(), n.as_i64()) {
            (Some(u), _) => Json::Number(JsonNumber::Unsigned(u)),
            (None, Some(i)) => Json::Number(JsonNumber::Signed(i)),
            (None, None) => Json::Number(JsonNumber::Fraction(Fraction { number: n })),
        },
        Value::String(s) => Json::Text(s),
        Value::Array(v) => Json::Array(v.into_iter().map(tree_of).collect()),
        Value::Object(m) => Json::Object(
            m.into_iter().map(|(k, v)| (k, tree_of(v))).collect(),
        ),
    }
}

/// Moves the library's tree into a `serde_json::Value`, variant for variant. A map of
/// `serde_json` keeps the last value inserted under a key.
#[verifier::external_body]
fn value_of(tree: &Json) -> (r: Value)
    ensures
        value_tree(r) == tree@,
{
    match tree {
        Json::Null => Value::Null,
        Json::Bool(b) => Value::Bool(*b),
        Json::Number(JsonNumber::Unsigned(u)) => Value::from(*u),
        Json::Number(JsonNumber::Signed(i)) => Value::from(*i),
        Json::Number(JsonNumber::Fraction(f)) => Value::Number(f.number.clone()),
        Json::Text(s) => Value::String(s.clone()),
        Json::Array(v) => Value::Array(v.iter().map(value_of).collect()),
        Json::Object(m) => Value::Object(
            m.iter().map(|(k, v)| (k.clone(), value_of(v))).collect(),
        ),
    }
}

/// `Clone` of `serde_json::Number` gives the same number.
pub assume_specification[ <serde_json::Number as Clone>::clone ](
    number: &serde_json::Number,
) -> (r: serde_json::Number)
    ensures
        r == *number,
;

/// The last entry under a key decides what the key maps to.
proof fn lemma_object_view(entries: Seq<(String, Json)>, key: Seq<char>, at: int)
    requires
        0 <= at < entries.len(),
        entries[at].0@ == key,
        forall|j: int| at < j < entries.len() ==> (#[trigger] entries[j]).0@ != key,
    ensures
        object_view(entries).contains_key(key),
        object_view(entries)[key] == json_view(entries[at].1),
    decreases entries.len(),
{
    if at < entries.len() - 1 {
        assert(entries.last() == entries[entries.len() - 1]);
        lemma_object_view(entries.drop_last(), key, at);
    }
}

/// A key without an entry is not mapped.
proof fn lemma_object_view_absent(entries: Seq<(String, Json)>, key: Seq<char>)
    requires
        forall|j: int| 0 <= j < entries.len() ==> (#[trigger] entries[j]).0@ != key,
    ensures
        !object_view(entries).contains_key(key),
    decreases entries.len(),
{
    if entries.len() > 0 {
        assert(entries.last() == entries[entries.len() - 1]);
        lemma_object_view_absent(entries.drop_last(), key);
    }
}

/// What the last entry under a key holds.
spec fn last_under(entries: Seq<(String, Json)>, key: Seq<char>) -> Option<JsonView>
    decreases entries.len(),
{
    if entries.len() == 0 {
        None
    } else if entries.last().0@ == key {
        Some(json_view(entries.last().1))
    } else {
        last_under(entries.drop_last(), key)
    }
}

proof fn lemma_last_under(entries: Seq<(String, Json)>, key: Seq<char>)
    ensures
        object_view(entries).contains_key(key) == (last_under(entries, key) is Some),
        object_view(entries).contains_key(key) ==> last_under(entries, key) == Some(
            object_view(entries)[key],
        ),
    decreases entries.len(),
{
    if entries.len() > 0 {
        lemma_last_under(entries.drop_last(), key);
    }
}

proof fn lemma_last_under_sum(a: Seq<(String, Json)>, b: Seq<(String, Json)>, key: Seq<char>)
    ensures
        last_under(a + b, key) == match last_under(b, key) {
            Some(v) => Some(v),
            None => last_under(a, key),
        },
    decreases b.len(),
{
    if b.len() == 0 {
        assert(a + b == a);
    } else {
        assert((a + b).drop_last() == a + b.drop_last());
        assert((a + b).last() == b.last());
        lemma_last_under_sum(a, b.drop_last(), key);
    }
}

/// An entry amid others counts for its own key alone.
proof fn lemma_amid(
    a: Seq<(String, Json)>,
    entry: (String, Json),
    b: Seq<(String, Json)>,
    key: Seq<char>,
)
    ensures
        key != entry.0@ ==> last_under(a + seq![entry] + b, key) == last_under(a + b, key),
        last_under(b, entry.0@) is None ==> last_under(a + seq![entry] + b, entry.0@) == Some(
            json_view(entry.1),
        ),
{
    let one = seq![entry];
    assert(one.drop_last() == Seq::<(String, Json)>::empty());
    lemma_last_under_sum(a + one, b, key);
    lemma_last_under_sum(a, one, key);
    lemma_last_under_sum(a, b, key);
    lemma_last_under_sum(a + one, b, entry.0@);
    lemma_last_under_sum(a, one, entry.0@);
    assert(last_under(one, entry.0@) == Some(json_view(entry.1)));
    assert(key != entry.0@ ==> last_under(one, key) is None) by {
        if key != entry.0@ {
            assert(last_under(one.drop_last(), key) is None);
        }
    }
}

proof fn lemma_none_under(entries: Seq<(String, Json)>, key: Seq<char>)
    requires
        forall|j: int| 0 <= j < entries.len() ==> (#[trigger] entries[j]).0@ != key,
    ensures
        last_under(entries, key) is None,
    decreases entries.len(),
{
    if entries.len() > 0 {
        assert(entries.last() == entries[entries.len() - 1]);
        lemma_none_under(entries.drop_last(), key);
    }
}

/// Whether entries stand in the order of their keys, none of which has two.
pub open spec fn in_key_order(entries: Seq<(String, Json)>) -> bool {
    forall|i: int, j: int|
        0 <= i < j < entries.len() ==> text::precedes(
            (#[trigger] entries[i]).0@,
            (#[trigger] entries[j]).0@,
            '\0',
        )
}

proof fn lemma_inserted_in_order(before: Seq<(String, Json)>, at: int, entry: (String, Json))
    requires
        in_key_order(before),
        0 <= at <= before.len(),
        forall|j: int| 0 <= j < before.len() ==> (#[trigger] before[j]).0@ != entry.0@,
        forall|j: int| 0 <= j < at ==> text::precedes((#[trigger] before[j]).0@, entry.0@, '\0'),
        at < before.len() ==> !text::precedes(before[at].0@, entry.0@, '\0'),
    ensures
        in_key_order(before.insert(at, entry)),
{
    let after = before.insert(at, entry);
    assert forall|x: int, y: int| 0 <= x < y < after.len() implies text::precedes(
        (#[trigger] after[x]).0@,
        (#[trigger] after[y]).0@,
        '\0',
    ) by {
        let bx = if x < at {
            x
        } else {
            x - 1
        };
        let by = y - 1;
        if y < at {
            assert(after[x] == before[x] && after[y] == before[y]);
        } else if y == at {
            assert(after[x] == before[x]);
        } else if x == at {
            assert(after[y] == before[by]);
            text::order_is_total(before[at].0@, entry.0@, '\0');
            if at < by {
                assert(text::precedes(before[at].0@, before[by].0@, '\0'));
                text::order_is_transitive(entry.0@, before[at].0@, before[by].0@, '\0');
            }
        } else {
            assert(after[x] == before[bx] && after[y] == before[by]);
        }
    }
}

/// Removes the entries under a key.
fn remove_key(entries: &mut Vec<(String, Json)>, key: &str)
    ensures
        forall|k: Seq<char>|
            k != key@ ==> #[trigger] last_under(final(entries)@, k) == last_under(old(entries)@, k),
        forall|j: int| 0 <= j < final(entries)@.len() ==> (#[trigger] final(entries)@[j]).0@ != key@,
        in_key_order(old(entries)@) ==> in_key_order(final(entries)@),
{
    let mut i: usize = entries.len();
    while i > 0
        invariant
            i <= entries@.len(),
            forall|k: Seq<char>|
                k != key@ ==> #[trigger] last_under(entries@, k) == last_under(old(entries)@, k),
            forall|j: int| i <= j < entries@.len() ==> (#[trigger] entries@[j]).0@ != key@,
            in_key_order(old(entries)@) ==> in_key_order(entries@),
        decreases i,
    {
        i = i - 1;
        if text::same_text(entries[i].0.as_str(), key) {
            let ghost before = entries@;
            let ghost a = before.subrange(0, i as int);
            let ghost b = before.subrange(i + 1, before.len() as int);
            let _ = entries.remove(i);
            proof {
                assert(before == a + seq![before[i as int]] + b);
                assert(entries@ == a + b);
                assert forall|k: Seq<char>| k != key@ implies #[trigger] last_under(entries@, k)
                    == last_under(old(entries)@, k) by {
                    lemma_amid(a, before[i as int], b, k);
                }
                assert forall|j: int| i <= j < entries@.len() implies (#[trigger] entries@[j]).0@
                    != key@ by {
                    assert(entries@[j] == before[j + 1]);
                }
                if in_key_order(before) {
                    assert forall|x: int, y: int| 0 <= x < y < entries@.len() implies text::precedes(
                        (#[trigger] entries@[x]).0@,
                        (#[trigger] entries@[y]).0@,
                        '\0',
                    ) by {
                        let bx = if x < i {
                            x
                        } else {
                            x + 1
                        };
                        let by = if y < i {
                            y
                        } else {
                            y + 1
                        };
                        assert(entries@[x] == before[bx]);
                        assert(entries@[y] == before[by]);
                    }
                }
            }
        }
    }
}

impl Clone for Json {
    fn clone(&self) -> (r: Self)
        ensures
            r@ == self@,
        decreases self,
    {
        match self {
            Json::Null => Json::Null,
            Json::Bool(b) => Json::Bool(*b),
            Json::Number(n) => Json::Number(n.clone()),
            Json::Text(s) => Json::Text(s.clone()),
            Json::Array(items) => {
                let mut copy: Vec<Json> = Vec::new();
                let mut i: usize = 0;
                while i < items.len()
                    invariant
                        i <= items@.len(),
                        *self == Json::Array(*items),
                        array_view(copy@) == array_view(items@.subrange(0, i as int)),
                    decreases items@.len() - i,
                {
                    let ghost before = copy@;
                    assert(decreases_to!(*self => self->Array_0));
                    assert(decreases_to!(*items => items@));
                    assert(decreases_to!(items@ => items@[i as int]));
                    let item = items[i].clone();
                    copy.push(item);
                    assert(copy@.drop_last() == before);
                    assert(items@.subrange(0, i + 1).drop_last() == items@.subrange(0, i as int));
                    i = i + 1;
                }
                assert(items@.subrange(0, i as int) == items@);
                Json::Array(copy)
            },
            Json::Object(entries) => {
                let mut copy: Vec<(String, Json)> = Vec::new();
                let mut i: usize = 0;
                while i < entries.len()
                    invariant
                        i <= entries@.len(),
                        *self == Json::Object(*entries),
                        object_view(copy@) == object_view(entries@.subrange(0, i as int)),
                    decreases entries@.len() - i,
                {
                    let ghost before = copy@;
                    let entry = &entries[i];
                    assert(decreases_to!(*self => self->Object_0));
                    assert(decreases_to!(*entries => entries@));
                    assert(decreases_to!(entries@ => entries@[i as int]));
                    assert(decreases_to!(entries@[i as int] => entries@[i as int].1));
                    let value = entry.1.clone();
                    copy.push((entry.0.clone(), value));
                    assert(copy@.drop_last() == before);
                    assert(entries@.subrange(0, i + 1).drop_last() == entries@.subrange(
                        0,
                        i as int,
                    ));
                    i = i + 1;
                }
                assert(entries@.subrange(0, i as int) == entries@);
                Json::Object(copy)
            },
        }
    }
}

impl Clone for JsonNumber {
    fn clone(&self) -> (r: Self)
        ensures
            r == *self,
    {
        match self {
            JsonNumber::Unsigned(u) => JsonNumber::Unsigned(*u),
            JsonNumber::Signed(i) => JsonNumber::Signed(*i),
            JsonNumber::Fraction(f) => JsonNumber::Fraction(Fraction { number: f.number.clone() }),
        }
    }
}

impl Json {
    /// An object without entries.
    pub fn empty_object() -> (r: Json)
        ensures
            r@ == JsonView::Object(Map::empty()),
            in_key_order(r->Object_0@),
    {
        Json::Object(Vec::new())
    }

    /// An integer.
    pub fn integer(i: i64) -> (r: Json)
        ensures
            r@ == JsonView::Number(NumberView::Integer(i as int)),
    {
        if i >= 0 {
            Json::Number(JsonNumber::Unsigned(i as u64))
        } else {
            Json::Number(JsonNumber::Signed(i))
        }
    }

    /// Reads a JSON text.
    pub fn parse(text: &str) -> (r: Result<Json, String>)
        ensures
            match r {
                Ok(j) => reads_as(text@, j@),
                Err(why) => parsed(text@) == Err::<JsonView, Seq<char>>(why@),
            },
    {
        match read_value(text) {
            Ok(value) => Ok(tree_of(value)),
            Err(e) => Err(e),
        }
    }

    /// Renders the value as compact JSON on one line.
    pub fn to_text(&self) -> (r: String)
        ensures
            r@ == rendered(self@),
            !r@.contains('\n'),
            plain(self@, MAX_DEPTH as nat) ==> reads_as(r@, self@),
            plain(self@, MAX_DEPTH as nat) ==> reads_as(r@.push('\n'), self@),
    {
        let value = value_of(self);
        match write_value(&value) {
            Ok(t) => t,
            Err(_) => String::new(),
        }
    }

    /// The value under a key of an object.
    pub fn get(&self, key: &str) -> (r: Option<&Json>)
        ensures
            match r {
                Some(v) => field(self@, key@) == Some(v@),
                None => field(self@, key@) is None,
            },
    {
        match self {
            Json::Object(entries) => {
                let mut i: usize = entries.len();
                while i > 0
                    invariant
                        i <= entries@.len(),
                        *self == Json::Object(*entries),
                        forall|j: int|
                            i <= j < entries@.len() ==> (#[trigger] entries@[j]).0@ != key@,
                    decreases i,
                {
                    i = i - 1;
                    if text::same_text(entries[i].0.as_str(), key) {
                        proof {
                            lemma_object_view(entries@, key@, i as int);
                        }
                        return Some(&entries[i].1);
                    }
                }
                proof {
                    lemma_object_view_absent(entries@, key@);
                }
                None
            },
            _ => None,
        }
    }

    /// The text of a string value.
    pub fn as_str(&self) -> (r: Option<&str>)
        ensures
            match r {
                Some(s) => text_of(self@) == Some(s@),
                None => text_of(self@) is None,
            },
    {
        match self {
            Json::Text(s) => Some(s.as_str()),
            _ => None,
        }
    }

    /// The truth value of a boolean value.
    pub fn as_bool(&self) -> (r: Option<bool>)
        ensures
            r == bool_of(self@),
    {
        match self {
            Json::Bool(b) => Some(*b),
            _ => None,
        }
    }

    /// The integer of a number value within the unsigned 64-bit range.
    pub fn as_u64(&self) -> (r: Option<u64>)
        ensures
            r == u64_of(self@),
    {
        match self {
            Json::Number(JsonNumber::Unsigned(u)) => Some(*u),
            Json::Number(JsonNumber::Signed(i)) => if *i >= 0 {
                Some(*i as u64)
            } else {
                None
            },
            _ => None,
        }
    }

    /// The integer of a number value within the signed 64-bit range.
    pub fn as_i64(&self) -> (r: Option<i64>)
        ensures
            r == i64_of(self@),
    {
        match self {
            Json::Number(JsonNumber::Unsigned(u)) => if *u <= 0x7fff_ffff_ffff_ffff {
                Some(*u as i64)
            } else {
                None
            },
            Json::Number(JsonNumber::Signed(i)) => Some(*i),
            _ => None,
        }
    }

    /// Whether the value is `null`.
    pub fn is_null(&self) -> (r: bool)
        ensures
            r == (self@ == JsonView::Null),
    {
        match self {
            Json::Null => true,
            _ => false,
        }
    }

    /// Whether the value is an object.
    pub fn is_object(&self) -> (r: bool)
        ensures
            r == (self@ is Object),
    {
        match self {
            Json::Object(_) => true,
            _ => false,
        }
    }

    /// Puts a value under a key of an object, in place of what was there.
    pub fn insert(&mut self, key: &str, value: Json)
        requires
            old(self)@ is Object,
        ensures
            final(self)@ == JsonView::Object(old(self)@->Object_0.insert(key@, value@)),
            in_key_order(old(self)->Object_0@) ==> in_key_order(final(self)->Object_0@),
    {
        if let Json::Object(entries) = self {
            let ghost first = entries@;
            remove_key(entries, key);
            let ghost before = entries@;
            let mut at: usize = 0;
            while at < entries.len() && text::is_before(entries[at].0.as_str(), key, '\0')
                invariant
                    at <= entries@.len(),
                    entries@ == before,
                    forall|j: int|
                        0 <= j < at ==> text::precedes((#[trigger] before[j]).0@, key@, '\0'),
                ensures
                    at <= entries@.len(),
                    entries@ == before,
                    forall|j: int|
                        0 <= j < at ==> text::precedes((#[trigger] before[j]).0@, key@, '\0'),
                    at < before.len() ==> !text::precedes(before[at as int].0@, key@, '\0'),
                decreases entries@.len() - at,
            {
                at = at + 1;
            }
            let entry = (key.to_owned(), value);
            entries.insert(at, entry);
            proof {
                let a = before.subrange(0, at as int);
                let b = before.subrange(at as int, before.len() as int);
                assert(before == a + b);
                assert(entries@ == a + seq![entry] + b);
                assert forall|j: int| 0 <= j < b.len() implies (#[trigger] b[j]).0@ != key@ by {
                    assert(b[j] == before[at + j]);
                }
                lemma_none_under(b, key@);
                let now = object_view(entries@);
                let then = object_view(first);
                let wanted = then.insert(key@, value@);
                assert forall|k: Seq<char>|
                    #![trigger now.dom().contains(k)]
                    #![trigger wanted.dom().contains(k)]
                    #![trigger now[k]]
                    now.dom().contains(k) == wanted.dom().contains(k) && (now.dom().contains(k)
                        ==> now[k] == wanted[k]) by {
                    lemma_last_under(entries@, k);
                    lemma_last_under(first, k);
                    lemma_amid(a, entry, b, k);
                    if k != key@ {
                        assert(last_under(before, k) == last_under(first, k));
                    }
                }
                assert(now =~= wanted);
                if in_key_order(first) {
                    lemma_inserted_in_order(before, at as int, entry);
                }
            }
        }
    }

    /// The string under a key.
    pub fn str_field(&self, key: &str) -> (r: Option<&str>)
        ensures
            match r {
                Some(s) => text_field(self@, key@) == Some(s@),
                None => text_field(self@, key@) is None,
            },
    {
        match self.get(key) {
            Some(v) => v.as_str(),
            None => None,
        }
    }

    /// The boolean under a key.
    pub fn bool_field(&self, key: &str) -> (r: Option<bool>)
        ensures
            r == bool_field(self@, key@),
    {
        match self.get(key) {
            Some(v) => v.as_bool(),
            None => None,
        }
    }

    /// The unsigned integer under a key.
    pub fn u64_field(&self, key: &str) -> (r: Option<u64>)
        ensures
            r == u64_field(self@, key@),
    {
        match self.get(key) {
            Some(v) => v.as_u64(),
            None => None,
        }
    }
}

} // verus!
