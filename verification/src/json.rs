//! JSON values as the library holds them: metadata, request payloads and
//! response bodies.
use vstd::prelude::*;

verus! {

/// A JSON value. Numbers are kept as their JSON text; an object is a list of
/// fields whose keys are distinct.
#[derive(Debug)]
pub enum JsonValue {
    Null,
    Bool(bool),
    Number(String),
    Str(String),
    Array(Vec<JsonValue>),
    Object(Vec<(String, JsonValue)>),
}

proof fn lemma_lookup_absent(s: Seq<(String, JsonValue)>, k: Seq<char>)
    requires
        forall|t: int| 0 <= t < s.len() ==> (#[trigger] s[t]).0@ != k,
    ensures
        lookup(s, k) is None,
    decreases s.len(),
{
    if s.len() > 0 {
        assert forall|t: int| 0 <= t < s.len() - 1 implies (#[trigger] s.drop_first()[t]).0@ != k by {
            assert(s.drop_first()[t] == s[t + 1]);
        }
        lemma_lookup_absent(s.drop_first(), k);
    }
}

/// The value of the first field named `key`, if any.
pub open spec fn lookup(fields: Seq<(String, JsonValue)>, key: Seq<char>) -> Option<JsonValue>
    decreases fields.len(),
{
    if fields.len() == 0 {
        None
    } else if fields[0].0@ == key {
        Some(fields[0].1)
    } else {
        lookup(fields.drop_first(), key)
    }
}

/// `v.get(key)`: the field `key` of an object; `None` for anything else.
pub open spec fn get_spec(v: JsonValue, key: Seq<char>) -> Option<JsonValue> {
    match v {
        JsonValue::Object(fields) => lookup(fields@, key),
        _ => None,
    }
}

/// `v[key]`: the field `key` of an object, `Null` when there is none.
pub open spec fn index_spec(v: JsonValue, key: Seq<char>) -> JsonValue {
    match get_spec(v, key) {
        Some(x) => x,
        None => JsonValue::Null,
    }
}

/// `v.as_str()`: the text of a string value.
pub open spec fn as_str_spec(v: JsonValue) -> Option<Seq<char>> {
    match v {
        JsonValue::Str(s) => Some(s@),
        _ => None,
    }
}

/// `v.as_bool()`: a boolean value.
pub open spec fn as_bool_spec(v: JsonValue) -> Option<bool> {
    match v {
        JsonValue::Bool(b) => Some(b),
        _ => None,
    }
}

/// `v[key].as_str().unwrap_or_default()`.
pub open spec fn str_or_empty(v: JsonValue, key: Seq<char>) -> Seq<char> {
    match as_str_spec(index_spec(v, key)) {
        Some(s) => s,
        None => Seq::empty(),
    }
}

/// `v` is the string value `s`.
pub open spec fn is_text(v: JsonValue, s: Seq<char>) -> bool {
    as_str_spec(v) == Some(s)
}

/// The field is named `k` and holds the text `t`.
pub open spec fn text_field(f: (String, JsonValue), k: Seq<char>, t: Seq<char>) -> bool {
    f.0@ == k && is_text(f.1, t)
}

/// The field is named `k` and holds `v`.
pub open spec fn value_field(f: (String, JsonValue), k: Seq<char>, v: JsonValue) -> bool {
    f.0@ == k && f.1 == v
}

/// The object's fields, in order.
pub open spec fn fields_of(v: JsonValue) -> Seq<(String, JsonValue)> {
    match v {
        JsonValue::Object(f) => f@,
        _ => Seq::empty(),
    }
}

/// A field holding text.
pub fn text_entry(k: &str, t: &str) -> (f: (String, JsonValue))
    ensures
        text_field(f, k@, t@),
{
    (k.to_owned(), JsonValue::Str(t.to_owned()))
}

/// A field holding a value.
pub fn entry(k: &str, v: JsonValue) -> (f: (String, JsonValue))
    ensures
        value_field(f, k@, v),
{
    (k.to_owned(), v)
}

/// Equality of two strings.
pub fn str_eq(a: &str, b: &str) -> (r: bool)
    ensures
        r == (a@ == b@),
{
    let x = a.to_owned();
    let y = b.to_owned();
    x == y
}

/// The first field named `key`.
pub fn lookup_field<'a>(fields: &'a Vec<(String, JsonValue)>, key: &str) -> (r: Option<
    &'a JsonValue,
>)
    ensures
        match r {
            Some(x) => lookup(fields@, key@) == Some(*x),
            None => lookup(fields@, key@) is None,
        },
{
    let mut i: usize = 0;
    assert(fields@.skip(0) == fields@);
    while i < fields.len()
        invariant
            i <= fields@.len(),
            lookup(fields@, key@) == lookup(fields@.skip(i as int), key@),
        decreases fields.len() - i,
    {
        proof {
            assert(fields@.skip(i as int).drop_first() == fields@.skip(i + 1));
        }
        if str_eq(fields[i].0.as_str(), key) {
            return Some(&fields[i].1);
        }
        i = i + 1;
    }
    None
}

proof fn lemma_lookup_push(s: Seq<(String, JsonValue)>, e: (String, JsonValue), k: Seq<char>)
    ensures
        lookup(s.push(e), k) == match lookup(s, k) {
            Some(x) => Some(x),
            None => if e.0@ == k {
                Some(e.1)
            } else {
                None
            },
        },
    decreases s.len(),
{
    if s.len() > 0 {
        assert(s.push(e).drop_first() == s.drop_first().push(e));
        lemma_lookup_push(s.drop_first(), e, k);
    } else {
        assert(s.push(e).drop_first() == s);
    }
}

proof fn lemma_lookup_update(s: Seq<(String, JsonValue)>, i: int, e: (String, JsonValue), k: Seq<char>)
    requires
        0 <= i < s.len(),
        s[i].0@ == e.0@,
        forall|t: int| 0 <= t < i ==> (#[trigger] s[t]).0@ != e.0@,
    ensures
        lookup(s.update(i, e), k) == if k == e.0@ {
            Some(e.1)
        } else {
            lookup(s, k)
        },
    decreases i,
{
    if i > 0 {
        assert(s.update(i, e).drop_first() == s.drop_first().update(i - 1, e));
        assert forall|t: int| 0 <= t < i - 1 implies (#[trigger] s.drop_first()[t]).0@ != e.0@ by {
            assert(s.drop_first()[t] == s[t + 1]);
        }
        lemma_lookup_update(s.drop_first(), i - 1, e, k);
    } else {
        assert(s.update(i, e).drop_first() == s.drop_first());
    }
}

/// Removes the first field named `key` and returns its value.
pub fn take_field(fields: &mut Vec<(String, JsonValue)>, key: &str) -> (r: Option<JsonValue>)
    ensures
        r == lookup(old(fields)@, key@),
{
    let mut i: usize = 0;
    assert(fields@.skip(0) == fields@);
    while i < fields.len()
        invariant
            i <= fields@.len(),
            fields@ == old(fields)@,
            lookup(old(fields)@, key@) == lookup(fields@.skip(i as int), key@),
        decreases fields.len() - i,
    {
        assert(fields@.skip(i as int).drop_first() == fields@.skip(i + 1));
        if str_eq(fields[i].0.as_str(), key) {
            let (_, v) = fields.remove(i);
            return Some(v);
        }
        i = i + 1;
    }
    None
}

impl JsonValue {
    /// `self[key] = val` (indexing a JSON value for assignment): `Null` first
    /// becomes an empty object; an existing field named `key` is replaced,
    /// otherwise the field is added.
    pub fn with_field(self, key: &str, val: JsonValue) -> (r: JsonValue)
        requires
            self is Null || self is Object,
        ensures
            r is Object,
            get_spec(r, key@) == Some(val),
            forall|k: Seq<char>| k != key@ ==> #[trigger] get_spec(r, k) == get_spec(self, k),
    {
        let mut fields = match self {
            JsonValue::Object(f) => f,
            _ => Vec::new(),
        };
        let ghost before = fields@;
        assert(forall|k: Seq<char>| #[trigger] get_spec(self, k) == lookup(before, k));
        let mut i: usize = 0;
        while i < fields.len()
            invariant
                fields@ == before,
                forall|k: Seq<char>| #[trigger] get_spec(self, k) == lookup(before, k),
                self is Null || self is Object,
                i <= fields@.len(),
                forall|t: int| 0 <= t < i ==> (#[trigger] fields@[t]).0@ != key@,
            decreases fields.len() - i,
        {
            if str_eq(fields[i].0.as_str(), key) {
                let e = (key.to_owned(), val);
                fields.set(i, e);
                let r = JsonValue::Object(fields);
                assert forall|k: Seq<char>| k != key@ implies #[trigger] get_spec(r, k) == get_spec(
                    self,
                    k,
                ) by {
                    lemma_lookup_update(before, i as int, e, k);
                }
                assert(get_spec(r, key@) == Some(val)) by {
                    lemma_lookup_update(before, i as int, e, key@);
                }
                return r;
            }
            i = i + 1;
        }
        let e = (key.to_owned(), val);
        fields.push(e);
        let r = JsonValue::Object(fields);
        assert forall|k: Seq<char>| k != key@ implies #[trigger] get_spec(r, k) == get_spec(self, k) by {
            lemma_lookup_push(before, e, k);
        }
        assert(get_spec(r, key@) == Some(val)) by {
            lemma_lookup_push(before, e, key@);
            lemma_lookup_absent(before, key@);
        }
        r
    }

    /// `self.get(key)`.
    pub fn get<'a>(&'a self, key: &str) -> (r: Option<&'a JsonValue>)
        ensures
            match r {
                Some(x) => get_spec(*self, key@) == Some(*x),
                None => get_spec(*self, key@) is None,
            },
    {
        match self {
            JsonValue::Object(fields) => lookup_field(fields, key),
            _ => None,
        }
    }

    /// `self[key].as_str()`, copied.
    pub fn str_field(&self, key: &str) -> (r: Option<String>)
        ensures
            match r {
                Some(s) => as_str_spec(index_spec(*self, key@)) == Some(s@),
                None => as_str_spec(index_spec(*self, key@)) is None,
            },
    {
        match self.get(key) {
            Some(JsonValue::Str(s)) => Some(s.clone()),
            _ => None,
        }
    }

    /// `self[key].as_str().unwrap_or_default()`, copied.
    pub fn str_field_or_empty(&self, key: &str) -> (r: String)
        ensures
            r@ == str_or_empty(*self, key@),
    {
        match self.str_field(key) {
            Some(s) => s,
            None => String::new(),
        }
    }

    /// `self[key].as_bool()`.
    pub fn bool_field(&self, key: &str) -> (r: Option<bool>)
        ensures
            r == as_bool_spec(index_spec(*self, key@)),
    {
        match self.get(key) {
            Some(JsonValue::Bool(b)) => Some(*b),
            _ => None,
        }
    }

    /// A string value.
    pub fn text(s: &str) -> (r: JsonValue)
        ensures
            is_text(r, s@),
    {
        JsonValue::Str(s.to_owned())
    }
}

} // verus!
