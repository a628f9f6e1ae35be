use vstd::prelude::*;

verus! {

/// A JSON number as the wire format carries it: a non-negative integer, a
/// negative integer, or a number written with a fraction or an exponent.
/// The library never computes with fractional numbers, so their value is
/// not kept.
#[derive(Clone, Copy, Debug, PartialEq, Eq, Structural)]
pub enum JsonNumber {
    PosInt(u64),
    NegInt(i64),
    Float,
}

/// A JSON document.  An object keeps its members in order.
#[derive(Debug, PartialEq)]
pub enum JsonValue {
    Null,
    Bool(bool),
    Number(JsonNumber),
    String(String),
    Array(Vec<JsonValue>),
    Object(Vec<(String, JsonValue)>),
}

/// The mathematical model of a JSON document.
pub enum JsonView {
    Null,
    Bool(bool),
    Number(JsonNumber),
    Str(Seq<char>),
    Array(Seq<JsonView>),
    Object(Seq<(Seq<char>, JsonView)>),
}

pub open spec fn json_view(v: JsonValue) -> JsonView
    decreases v, 0nat,
{
    match v {
        JsonValue::Null => JsonView::Null,
        JsonValue::Bool(b) => JsonView::Bool(b),
        JsonValue::Number(n) => JsonView::Number(n),
        JsonValue::String(s) => JsonView::Str(s@),
        JsonValue::Array(a) => JsonView::Array(json_seq_view(a@, a@.len())),
        JsonValue::Object(o) => JsonView::Object(json_entries_view(o@, o@.len())),
    }
}

/// The models of the first `n` elements of `s`.
pub open spec fn json_seq_view(s: Seq<JsonValue>, n: nat) -> Seq<JsonView>
    decreases s, n,
{
    if n == 0 || n > s.len() {
        Seq::empty()
    } else {
        json_seq_view(s, (n - 1) as nat).push(json_view(s[n - 1]))
    }
}

/// The models of the first `n` members of an object.
pub open spec fn json_entries_view(s: Seq<(String, JsonValue)>, n: nat) -> Seq<
    (Seq<char>, JsonView),
>
    decreases s, n,
{
    if n == 0 || n > s.len() {
        Seq::empty()
    } else {
        json_entries_view(s, (n - 1) as nat).push((s[n - 1].0@, json_view(s[n - 1].1)))
    }
}

/// The model of all members of an object.
pub open spec fn entries_view(s: Seq<(String, JsonValue)>) -> Seq<(Seq<char>, JsonView)> {
    json_entries_view(s, s.len())
}

impl View for JsonValue {
    type V = JsonView;

    open spec fn view(&self) -> JsonView {
        json_view(*self)
    }
}

/// The members of an object are modelled one by one, in order.
pub proof fn lemma_entries_view(s: Seq<(String, JsonValue)>, n: nat)
    requires
        n <= s.len(),
    ensures
        json_entries_view(s, n).len() == n,
        forall|i: int|
            0 <= i < n ==> #[trigger] json_entries_view(s, n)[i] == (s[i].0@, json_view(s[i].1)),
    decreases n,
{
    if n > 0 {
        lemma_entries_view(s, (n - 1) as nat);
    }
}

/// The integer a number denotes, where it fits in an `i64`.
pub open spec fn number_as_i64(n: JsonNumber) -> Option<i64> {
    match n {
        JsonNumber::PosInt(u) => if u <= i64::MAX {
            Some(u as i64)
        } else {
            None
        },
        JsonNumber::NegInt(i) => Some(i),
        JsonNumber::Float => None,
    }
}

/// The integer a document denotes, where it is a number that fits in an `i64`.
pub open spec fn json_as_i64(v: JsonView) -> Option<i64> {
    match v {
        JsonView::Number(n) => number_as_i64(n),
        _ => None,
    }
}

/// The text of a document that is a string.
pub open spec fn json_as_str(v: JsonView) -> Option<Seq<char>> {
    match v {
        JsonView::Str(s) => Some(s),
        _ => None,
    }
}

/// `i` is the last position of `key` among the members `e`.
pub open spec fn is_last_key(e: Seq<(Seq<char>, JsonView)>, key: Seq<char>, i: int) -> bool {
    &&& 0 <= i < e.len()
    &&& e[i].0 == key
    &&& forall|j: int| i < j < e.len() ==> e[j].0 != key
}

/// The value of the member named `key`, if there is one.  Where a name
/// occurs more than once the last member counts, as when a JSON object is
/// read into a map.
pub open spec fn object_get(e: Seq<(Seq<char>, JsonView)>, key: Seq<char>) -> Option<JsonView> {
    if exists|i: int| is_last_key(e, key, i) {
        Some(e[choose|i: int| is_last_key(e, key, i)].1)
    } else {
        None
    }
}

/// The integer member `key` of an object, where it is present and fits in an `i64`.
pub open spec fn int_member(e: Seq<(Seq<char>, JsonView)>, key: Seq<char>) -> Option<i64> {
    match object_get(e, key) {
        Some(v) => json_as_i64(v),
        None => None,
    }
}

/// The text member `key` of an object, where it is present and a string.
pub open spec fn str_member(e: Seq<(Seq<char>, JsonView)>, key: Seq<char>) -> Option<Seq<char>> {
    match object_get(e, key) {
        Some(v) => json_as_str(v),
        None => None,
    }
}

impl JsonNumber {
    /// The number of an integer.
    pub fn from_i64(v: i64) -> (r: JsonNumber)
        ensures
            r == (if v < 0 {
                JsonNumber::NegInt(v)
            } else {
                JsonNumber::PosInt(v as u64)
            }),
            number_as_i64(r) == Some(v),
    {
        if v < 0 {
            JsonNumber::NegInt(v)
        } else {
            JsonNumber::PosInt(v as u64)
        }
    }

    /// The integer this number denotes, where it fits in an `i64`.
    pub fn as_i64(&self) -> (r: Option<i64>)
        ensures
            r == number_as_i64(*self),
    {
        match self {
            JsonNumber::PosInt(u) => if *u <= 0x7fff_ffff_ffff_ffffu64 {
                Some(*u as i64)
            } else {
                None
            },
            JsonNumber::NegInt(i) => Some(*i),
            JsonNumber::Float => None,
        }
    }
}

impl JsonValue {
    /// The integer this document denotes, where it is a number that fits in an `i64`.
    pub fn as_i64(&self) -> (r: Option<i64>)
        ensures
            r == json_as_i64(self@),
    {
        match self {
            JsonValue::Number(n) => n.as_i64(),
            _ => None,
        }
    }

    /// The text of this document, where it is a string.
    pub fn as_str(&self) -> (r: Option<&String>)
        ensures
            match r {
                Some(s) => json_as_str(self@) == Some(s@),
                None => json_as_str(self@) is None,
            },
    {
        match self {
            JsonValue::String(s) => Some(s),
            _ => None,
        }
    }
}

/// The value of the member named `key` among the members of an object.
pub fn object_lookup<'a>(entries: &'a Vec<(String, JsonValue)>, key: &str) -> (r: Option<
    &'a JsonValue,
>)
    ensures
        match r {
            Some(v) => object_get(entries_view(entries@), key@) == Some(v@),
            None => object_get(entries_view(entries@), key@) is None,
        },
{
    let ghost e = entries_view(entries@);
    proof {
        lemma_entries_view(entries@, entries@.len());
    }
    let k = key.to_owned();
    let mut i: usize = entries.len();
    while i > 0
        invariant
            i <= entries.len(),
            k@ == key@,
            e == entries_view(entries@),
            e.len() == entries@.len(),
            forall|j: int| 0 <= j < e.len() ==> #[trigger] e[j] == (entries@[j].0@, json_view(entries@[j].1)),
            forall|j: int| i <= j < e.len() ==> e[j].0 != key@,
        decreases i,
    {
        i = i - 1;
        if entries[i].0 == k {
            assert(is_last_key(e, key@, i as int));
            proof {
                let found = choose|j: int| is_last_key(e, key@, j);
                assert(found == i as int) by {
                    if found < i {
                        assert(e[i as int].0 != key@);
                    } else if found > i {
                        assert(e[found].0 != key@);
                    }
                }
            }
            return Some(&entries[i].1);
        }
    }
    assert(!exists|j: int| is_last_key(e, key@, j));
    None
}

/// The integer member `key` of an object, where it is present and fits in an `i64`.
pub fn int_member_of(entries: &Vec<(String, JsonValue)>, key: &str) -> (r: Option<i64>)
    ensures
        r == int_member(entries_view(entries@), key@),
{
    match object_lookup(entries, key) {
        Some(v) => v.as_i64(),
        None => None,
    }
}

/// The text member `key` of an object, where it is present and a string.
pub fn str_member_of(entries: &Vec<(String, JsonValue)>, key: &str) -> (r: Option<String>)
    ensures
        match r {
            Some(s) => str_member(entries_view(entries@), key@) == Some(s@),
            None => str_member(entries_view(entries@), key@) is None,
        },
{
    match object_lookup(entries, key) {
        Some(v) => match v.as_str() {
            Some(s) => Some(s.clone()),
            None => None,
        },
        None => None,
    }
}

} // verus!
