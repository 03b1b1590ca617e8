//! The JSON tree as this library reads and writes it.
//!
//! Responses arrive as generic JSON; the decoders walk a tree of this type
//! and nothing else. An object keeps its bindings in order, and a lookup
//! takes the first binding of a key.
use vstd::prelude::*;

verus! {

/// A JSON value.
///
/// A JSON number that fits a 64-bit signed integer is held as `Int`; any
/// other number (fractional, or beyond the 64-bit range) is `OtherNumber`,
/// since no part of this protocol gives such a number a meaning beyond
/// "present, but not an integer".
#[derive(Debug, PartialEq)]
pub enum JsonValue {
    Null,
    Bool(bool),
    Int(i64),
    OtherNumber,
    Text(String),
    Array(Vec<JsonValue>),
    Object(Vec<(String, JsonValue)>),
}

/// A JSON value as contracts speak of it: the same tree with vectors
/// abstracted to sequences and strings to character sequences.
pub ghost enum JsonModel {
    Null,
    Bool(bool),
    Int(i64),
    OtherNumber,
    Text(Seq<char>),
    Array(Seq<JsonModel>),
    Object(Seq<(Seq<char>, JsonModel)>),
}

/// The models of a vector of JSON values, element-wise.
pub open spec fn models_of(items: Seq<JsonValue>) -> Seq<JsonModel>
    decreases items,
{
    if items.len() == 0 {
        Seq::empty()
    } else {
        models_of(items.drop_last()).push(items.last().model())
    }
}

/// The models of an object's bindings, element-wise.
pub open spec fn pair_models_of(pairs: Seq<(String, JsonValue)>) -> Seq<(Seq<char>, JsonModel)>
    decreases pairs,
{
    if pairs.len() == 0 {
        Seq::empty()
    } else {
        pair_models_of(pairs.drop_last()).push((pairs.last().0@, pairs.last().1.model()))
    }
}

/// `models_of` takes each element to its model, in place.
pub proof fn lemma_models_of(items: Seq<JsonValue>)
    ensures
        models_of(items).len() == items.len(),
        forall|i: int| 0 <= i < items.len() ==> models_of(items)[i] == items[i].model(),
    decreases items,
{
    if items.len() > 0 {
        lemma_models_of(items.drop_last());
    }
}

/// `pair_models_of` takes each binding to its model, in place.
pub proof fn lemma_pair_models_of(pairs: Seq<(String, JsonValue)>)
    ensures
        pair_models_of(pairs).len() == pairs.len(),
        forall|i: int|
            0 <= i < pairs.len() ==> pair_models_of(pairs)[i] == (pairs[i].0@, pairs[i].1.model()),
    decreases pairs,
{
    if pairs.len() > 0 {
        lemma_pair_models_of(pairs.drop_last());
    }
}

/// The first value bound to `key` among `pairs`, if any.
pub open spec fn pairs_get(pairs: Seq<(String, JsonValue)>, key: Seq<char>) -> Option<JsonValue>
    decreases pairs,
{
    if pairs.len() == 0 {
        None
    } else if pairs[0].0@ == key {
        Some(pairs[0].1)
    } else {
        pairs_get(pairs.drop_first(), key)
    }
}

/// Relies on `str`'s `PartialEq`: two string slices compare equal exactly
/// when their character sequences are equal.
#[verifier::external_body]
pub(crate) fn str_eq(a: &str, b: &str) -> (r: bool)
    ensures
        r == (a@ == b@),
{
    a == b
}

impl JsonValue {
    /// The view this value presents in contracts.
    pub open spec fn model(self) -> JsonModel
        decreases self,
    {
        match self {
            JsonValue::Null => JsonModel::Null,
            JsonValue::Bool(b) => JsonModel::Bool(b),
            JsonValue::Int(n) => JsonModel::Int(n),
            JsonValue::OtherNumber => JsonModel::OtherNumber,
            JsonValue::Text(s) => JsonModel::Text(s@),
            JsonValue::Array(items) => JsonModel::Array(models_of(items@)),
            JsonValue::Object(pairs) => JsonModel::Object(pair_models_of(pairs@)),
        }
    }

    /// The first value bound to `key`, when this value is an object that
    /// holds the key; `None` on any other value, as on an object without it.
    pub open spec fn spec_get(self, key: Seq<char>) -> Option<JsonValue> {
        match self {
            JsonValue::Object(pairs) => pairs_get(pairs@, key),
            _ => None,
        }
    }

    /// Looks `key` up as `spec_get` states.
    pub fn get<'a>(&'a self, key: &str) -> (r: Option<&'a JsonValue>)
        ensures
            match r {
                Some(v) => self.spec_get(key@) == Some(*v),
                None => self.spec_get(key@) is None,
            },
    {
        match self {
            JsonValue::Object(pairs) => {
                let n = pairs.len();
                let mut i: usize = 0;
                assert(pairs@.skip(0) =~= pairs@);
                while i < n
                    invariant
                        n == pairs@.len(),
                        i <= n,
                        self.spec_get(key@) == pairs_get(pairs@.skip(i as int), key@),
                    decreases n - i,
                {
                    if str_eq(pairs[i].0.as_str(), key) {
                        proof {
                            assert(pairs@.skip(i as int).len() > 0);
                            assert(pairs@.skip(i as int)[0] == pairs@[i as int]);
                            assert(pairs_get(pairs@.skip(i as int), key@)
                                == Some(pairs@[i as int].1));
                        }
                        return Some(&pairs[i].1);
                    }
                    assert(pairs@.skip(i as int).drop_first() =~= pairs@.skip(i + 1));
                    assert(pairs@.skip(i as int)[0] == pairs@[i as int]);
                    i = i + 1;
                }
                assert(pairs@.skip(n as int) =~= Seq::<(String, JsonValue)>::empty());
                None
            },
            _ => None,
        }
    }
}

} // verus!
