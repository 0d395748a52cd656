//! A plain-value model of parsed JSON events.
//!
//! Wire bytes are parsed by serde_json behind a trusted wrapper; the
//! resulting tree is carried in the library's own `Json` type so that
//! every rule that reads it can be verified. Object entries keep the
//! parser's iteration order (sorted, unique keys), and lookups take the
//! first entry with a matching key.

use vstd::prelude::*;

use crate::bytestr::bytes_eq;

verus! {

/// Mathematical model of a JSON value.
pub enum JsonV {
    Null,
    Bool(bool),
    /// A number representable as an `i64`.
    Int(i64),
    /// A number representable as a `u64` but not as an `i64`.
    UInt(u64),
    Str(Seq<u8>),
    Arr(Seq<JsonV>),
    Obj(Seq<(Seq<u8>, JsonV)>),
    /// A number representable neither as `i64` nor as `u64`; the
    /// extraction rules never read its value.
    OtherNum,
}

/// A parsed JSON value. Strings are carried as their UTF-8 bytes.
pub enum Json {
    Null,
    Bool(bool),
    Int(i64),
    UInt(u64),
    Str(Vec<u8>),
    Arr(Vec<Json>),
    Obj(Vec<(Vec<u8>, Json)>),
    OtherNum,
}

/// The model of a parsed value.
pub open spec fn jview(j: Json) -> JsonV
    decreases j,
{
    match j {
        Json::Null => JsonV::Null,
        Json::Bool(b) => JsonV::Bool(b),
        Json::Int(i) => JsonV::Int(i),
        Json::UInt(u) => JsonV::UInt(u),
        Json::Str(s) => JsonV::Str(s@),
        Json::Arr(a) => JsonV::Arr(jview_seq(a@)),
        Json::Obj(o) => JsonV::Obj(jview_entries(o@)),
        Json::OtherNum => JsonV::OtherNum,
    }
}

/// The models of a sequence of parsed values, element by element.
pub open spec fn jview_seq(s: Seq<Json>) -> Seq<JsonV>
    decreases s,
{
    if s.len() == 0 {
        Seq::empty()
    } else {
        seq![jview(s[0])] + jview_seq(s.drop_first())
    }
}

/// The models of a sequence of object entries, element by element.
pub open spec fn jview_entries(s: Seq<(Vec<u8>, Json)>) -> Seq<(Seq<u8>, JsonV)>
    decreases s,
{
    if s.len() == 0 {
        Seq::empty()
    } else {
        seq![(s[0].0@, jview(s[0].1))] + jview_entries(s.drop_first())
    }
}

impl View for Json {
    type V = JsonV;

    open spec fn view(&self) -> JsonV {
        jview(*self)
    }
}

pub proof fn lemma_jview_seq(s: Seq<Json>)
    ensures
        jview_seq(s).len() == s.len(),
        forall|i: int| 0 <= i < s.len() ==> #[trigger] jview_seq(s)[i] == jview(s[i]),
    decreases s.len(),
{
    if s.len() > 0 {
        lemma_jview_seq(s.drop_first());
        assert forall|i: int| 0 <= i < s.len() implies #[trigger] jview_seq(s)[i] == jview(
            s[i],
        ) by {
            if i > 0 {
                assert(jview_seq(s)[i] == jview_seq(s.drop_first())[i - 1]);
                assert(s.drop_first()[i - 1] == s[i]);
            }
        }
    }
}

pub proof fn lemma_jview_entries(s: Seq<(Vec<u8>, Json)>)
    ensures
        jview_entries(s).len() == s.len(),
        forall|i: int|
            0 <= i < s.len() ==> #[trigger] jview_entries(s)[i] == (s[i].0@, jview(s[i].1)),
    decreases s.len(),
{
    if s.len() > 0 {
        lemma_jview_entries(s.drop_first());
        assert forall|i: int| 0 <= i < s.len() implies #[trigger] jview_entries(s)[i] == (
            s[i].0@,
            jview(s[i].1),
        ) by {
            if i > 0 {
                assert(jview_entries(s)[i] == jview_entries(s.drop_first())[i - 1]);
                assert(s.drop_first()[i - 1] == s[i]);
            }
        }
    }
}

/// First entry of `entries` whose key is `key`, if any.
pub open spec fn obj_lookup(entries: Seq<(Seq<u8>, JsonV)>, key: Seq<u8>) -> Option<JsonV>
    decreases entries.len(),
{
    if entries.len() == 0 {
        None
    } else if entries[0].0 == key {
        Some(entries[0].1)
    } else {
        obj_lookup(entries.drop_first(), key)
    }
}

/// Field access: `Some` exactly on objects that carry the key.
pub open spec fn jv_get(j: JsonV, key: Seq<u8>) -> Option<JsonV> {
    match j {
        JsonV::Obj(entries) => obj_lookup(entries, key),
        _ => None,
    }
}

/// The string payload, on strings alone.
pub open spec fn jv_str(j: JsonV) -> Option<Seq<u8>> {
    match j {
        JsonV::Str(s) => Some(s),
        _ => None,
    }
}

/// The value as an `i64`, on numbers in `i64` range alone.
pub open spec fn jv_i64(j: JsonV) -> Option<i64> {
    match j {
        JsonV::Int(i) => Some(i),
        _ => None,
    }
}

/// The value as a `u64`, on non-negative integer numbers alone.
pub open spec fn jv_u64(j: JsonV) -> Option<u64> {
    match j {
        JsonV::Int(i) => if i >= 0 {
            Some(i as u64)
        } else {
            None
        },
        JsonV::UInt(u) => Some(u),
        _ => None,
    }
}

/// The elements, on arrays alone.
pub open spec fn jv_arr(j: JsonV) -> Option<Seq<JsonV>> {
    match j {
        JsonV::Arr(a) => Some(a),
        _ => None,
    }
}

proof fn lemma_obj_lookup_skip(entries: Seq<(Seq<u8>, JsonV)>, key: Seq<u8>, i: int)
    requires
        0 <= i <= entries.len(),
        forall|j: int| 0 <= j < i ==> entries[j].0 != key,
    ensures
        obj_lookup(entries, key) == obj_lookup(entries.skip(i), key),
    decreases i,
{
    if i > 0 {
        assert(entries.drop_first() =~= entries.skip(1));
        lemma_obj_lookup_skip(entries.skip(1), key, i - 1);
        assert(entries.skip(1).skip(i - 1) =~= entries.skip(i));
    } else {
        assert(entries.skip(0) =~= entries);
    }
}

impl Json {
    /// The value of the field `key`, on objects that carry it.
    pub fn get<'a>(&'a self, key: &[u8]) -> (r: Option<&'a Json>)
        ensures
            match r {
                Some(v) => jv_get(self@, key@) == Some(v@),
                None => jv_get(self@, key@) is None,
            },
    {
        match self {
            Json::Obj(entries) => {
                let ghost eseq = jview_entries(entries@);
                proof {
                    assert(self@ == JsonV::Obj(eseq));
                    lemma_jview_entries(entries@);
                }
                let mut i: usize = 0;
                while i < entries.len()
                    invariant
                        i <= entries@.len(),
                        eseq == jview_entries(entries@),
                        self@ == JsonV::Obj(eseq),
                        forall|j: int| 0 <= j < i ==> #[trigger] eseq[j].0 != key@,
                    decreases entries@.len() - i,
                {
                    proof {
                        lemma_jview_entries(entries@);
                    }
                    let pair = &entries[i];
                    if bytes_eq(pair.0.as_slice(), key) {
                        proof {
                            lemma_obj_lookup_skip(eseq, key@, i as int);
                            assert(eseq.skip(i as int)[0] == eseq[i as int]);
                            assert(eseq[i as int] == (entries@[i as int].0@, jview(
                                entries@[i as int].1,
                            )));
                            assert(eseq[i as int].0 == key@);
                            assert(obj_lookup(eseq.skip(i as int), key@) == Some(
                                eseq[i as int].1,
                            ));
                            assert(pair.1@ == jview(entries@[i as int].1));
                            assert(jv_get(self@, key@) == Some(pair.1@));
                        }
                        return Some(&pair.1);
                    }
                    i += 1;
                }
                proof {
                    lemma_obj_lookup_skip(eseq, key@, eseq.len() as int);
                    assert(eseq.skip(eseq.len() as int).len() == 0);
                }
                None
            },
            _ => None,
        }
    }

    /// The string payload as bytes, on strings alone.
    pub fn as_str_bytes<'a>(&'a self) -> (r: Option<&'a Vec<u8>>)
        ensures
            match r {
                Some(s) => jv_str(self@) == Some(s@),
                None => jv_str(self@) is None,
            },
    {
        match self {
            Json::Str(s) => Some(s),
            _ => None,
        }
    }

    /// The value as an `i64`, mirroring `jv_i64`.
    pub fn as_int(&self) -> (r: Option<i64>)
        ensures
            r == jv_i64(self@),
    {
        match self {
            Json::Int(i) => Some(*i),
            _ => None,
        }
    }

    /// The value as a `u64`, mirroring `jv_u64`.
    pub fn as_uint(&self) -> (r: Option<u64>)
        ensures
            r == jv_u64(self@),
    {
        match self {
            Json::Int(i) => if *i >= 0 {
                Some(*i as u64)
            } else {
                None
            },
            Json::UInt(u) => Some(*u),
            _ => None,
        }
    }

    /// The elements, on arrays alone.
    pub fn as_array<'a>(&'a self) -> (r: Option<&'a Vec<Json>>)
        ensures
            match r {
                Some(a) => jv_arr(self@) == Some(jview_seq(a@)),
                None => jv_arr(self@) is None,
            },
    {
        match self {
            Json::Arr(a) => Some(a),
            _ => None,
        }
    }
}

/// Two-step field access.
pub open spec fn jv_get2(j: JsonV, k1: Seq<u8>, k2: Seq<u8>) -> Option<JsonV> {
    match jv_get(j, k1) {
        Some(x) => jv_get(x, k2),
        None => None,
    }
}

/// The string payload of the field `k`, when the field is a string.
pub open spec fn jv_str_at(j: JsonV, k: Seq<u8>) -> Option<Seq<u8>> {
    match jv_get(j, k) {
        Some(x) => jv_str(x),
        None => None,
    }
}

/// The string payload at the path `k1.k2`.
pub open spec fn jv_str_at2(j: JsonV, k1: Seq<u8>, k2: Seq<u8>) -> Option<Seq<u8>> {
    match jv_get2(j, k1, k2) {
        Some(x) => jv_str(x),
        None => None,
    }
}

/// The `i64` payload of the field `k`.
pub open spec fn jv_i64_at(j: JsonV, k: Seq<u8>) -> Option<i64> {
    match jv_get(j, k) {
        Some(x) => jv_i64(x),
        None => None,
    }
}

/// The `u64` payload of the field `k`, zero when absent or not an
/// unsigned number.
pub open spec fn jv_u64_or0_at(j: JsonV, k: Seq<u8>) -> u64 {
    match jv_get(j, k) {
        Some(x) => match jv_u64(x) {
            Some(v) => v,
            None => 0,
        },
        None => 0,
    }
}

impl Json {
    /// Two-step field access, mirroring `jv_get2`.
    pub fn get2<'a>(&'a self, k1: &[u8], k2: &[u8]) -> (r: Option<&'a Json>)
        ensures
            match r {
                Some(v) => jv_get2(self@, k1@, k2@) == Some(v@),
                None => jv_get2(self@, k1@, k2@) is None,
            },
    {
        match self.get(k1) {
            Some(x) => x.get(k2),
            None => None,
        }
    }

    /// String payload of a field, mirroring `jv_str_at`.
    pub fn str_at<'a>(&'a self, k: &[u8]) -> (r: Option<&'a Vec<u8>>)
        ensures
            match r {
                Some(s) => jv_str_at(self@, k@) == Some(s@),
                None => jv_str_at(self@, k@) is None,
            },
    {
        match self.get(k) {
            Some(x) => x.as_str_bytes(),
            None => None,
        }
    }

    /// String payload at a two-step path, mirroring `jv_str_at2`.
    pub fn str_at2<'a>(&'a self, k1: &[u8], k2: &[u8]) -> (r: Option<&'a Vec<u8>>)
        ensures
            match r {
                Some(s) => jv_str_at2(self@, k1@, k2@) == Some(s@),
                None => jv_str_at2(self@, k1@, k2@) is None,
            },
    {
        match self.get2(k1, k2) {
            Some(x) => x.as_str_bytes(),
            None => None,
        }
    }

    /// `i64` payload of a field, mirroring `jv_i64_at`.
    pub fn i64_at(&self, k: &[u8]) -> (r: Option<i64>)
        ensures
            r == jv_i64_at(self@, k@),
    {
        match self.get(k) {
            Some(x) => x.as_int(),
            None => None,
        }
    }

    /// `u64` payload of a field with a zero default, mirroring
    /// `jv_u64_or0_at`.
    pub fn u64_or0_at(&self, k: &[u8]) -> (r: u64)
        ensures
            r == jv_u64_or0_at(self@, k@),
    {
        match self.get(k) {
            Some(x) => match x.as_uint() {
                Some(v) => v,
                None => 0,
            },
            None => 0,
        }
    }
}

/// What serde_json's parser yields on `s`: the parsed tree, or `None`
/// where the parser rejects the bytes. A function of the bytes alone.
pub uninterp spec fn json_of(s: Seq<u8>) -> Option<JsonV>;

#[verifier::external_type_specification]
#[verifier::external_body]
pub struct ExValue(serde_json::Value);

/// Conversion half of [`parse_json`]: re-shapes a `serde_json::Value`
/// tree into the library's own `Json`, one arm per variant. Numbers go
/// through `Number::as_i64` / `Number::as_u64`, so the `Int` / `UInt` /
/// `OtherNum` split matches exactly what those accessors report.
#[verifier::external_body]
fn from_value(v: &serde_json::Value) -> Json {
    match v {
        serde_json::Value::Null => Json::Null,
        serde_json::Value::Bool(b) => Json::Bool(*b),
        serde_json::Value::Number(n) => match (n.as_i64(), n.as_u64()) {
            (Some(i), _) => Json::Int(i),
            (None, Some(u)) => Json::UInt(u),
            _ => Json::OtherNum,
        },
        serde_json::Value::String(s) => Json::Str(s.as_bytes().to_vec()),
        serde_json::Value::Array(a) => Json::Arr(a.iter().map(from_value).collect()),
        serde_json::Value::Object(m) => Json::Obj(
            m.iter().map(|(k, x)| (k.as_bytes().to_vec(), from_value(x))).collect(),
        ),
    }
}

/// Relies on `serde_json::from_slice::<Value>`: parses one JSON document
/// from bytes, deterministically in the bytes alone; the parse result is
/// named `json_of`. The body only calls the parser and re-shapes its
/// tree through [`from_value`].
#[verifier::external_body]
pub fn parse_json(data: &[u8]) -> (r: Option<Json>)
    ensures
        match r {
            Some(j) => json_of(data@) == Some(j@),
            None => json_of(data@) is None,
        },
{
    match serde_json::from_slice::<serde_json::Value>(data) {
        Ok(v) => Some(from_value(&v)),
        Err(_) => None,
    }
}

} // verus!
