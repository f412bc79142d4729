//! The JSON documents this crate encodes and decodes, as plain values.

use vstd::prelude::*;

verus! {

broadcast use vstd::std_specs::vec::group_vec_axioms, vstd::seq::group_seq_axioms;

/// A parsed JSON document, as the underlying parser hands it over: an object
/// keeps its key/value pairs in delivery order, and duplicate keys stay
/// visible to the codec.
///
/// A number keeps the shape it had in the source text: one written as an
/// integer is `Integer`; one written with a fraction or an exponent is
/// `Double`, which holds the IEEE-754 bit pattern of the parsed value, so
/// that shape resolution and equality never go through floating-point
/// comparison.
#[derive(Debug)]
pub enum JsonValue {
    Null,
    Bool(bool),
    Integer(i64),
    Double(u64),
    String(String),
    Array(Vec<JsonValue>),
    Object(Vec<(String, JsonValue)>),
}

/// Mathematical model of a JSON document: strings become character
/// sequences and vectors become sequences.
#[verifier::ext_equal]
pub enum SpecJson {
    Null,
    Bool(bool),
    Integer(i64),
    Double(u64),
    String(Seq<char>),
    Array(Seq<SpecJson>),
    Object(Seq<(Seq<char>, SpecJson)>),
}

/// The model of a parsed document: each string is taken to its characters,
/// each vector to the sequence of the models of its elements.
pub open spec fn json_model(v: JsonValue) -> SpecJson
    decreases v, 0int,
{
    match v {
        JsonValue::Null => SpecJson::Null,
        JsonValue::Bool(b) => SpecJson::Bool(b),
        JsonValue::Integer(i) => SpecJson::Integer(i),
        JsonValue::Double(bits) => SpecJson::Double(bits),
        JsonValue::String(s) => SpecJson::String(s@),
        JsonValue::Array(items) => {
            proof {
                assert(decreases_to!(v => items));
                assert(decreases_to!(items => items@));
            }
            SpecJson::Array(json_array_model(items@, items@.len() as int))
        },
        JsonValue::Object(pairs) => {
            proof {
                assert(decreases_to!(v => pairs));
                assert(decreases_to!(pairs => pairs@));
            }
            SpecJson::Object(json_object_model(pairs@, pairs@.len() as int))
        },
    }
}

/// The models of the first `n` elements of a parsed array.
pub open spec fn json_array_model(items: Seq<JsonValue>, n: int) -> Seq<SpecJson>
    decreases items, n,
        when n <= items.len()
{
    if n <= 0 {
        Seq::empty()
    } else {
        proof {
            assert(decreases_to!(items => items[n - 1]));
        }
        json_array_model(items, n - 1).push(json_model(items[n - 1]))
    }
}

/// The models of the first `n` key/value pairs of a parsed object.
pub open spec fn json_object_model(
    pairs: Seq<(String, JsonValue)>,
    n: int,
) -> Seq<(Seq<char>, SpecJson)>
    decreases pairs, n,
        when n <= pairs.len()
{
    if n <= 0 {
        Seq::empty()
    } else {
        proof {
            assert(decreases_to!(pairs => pairs[n - 1]));
            assert(decreases_to!(pairs[n - 1] => pairs[n - 1].1));
        }
        json_object_model(pairs, n - 1).push((pairs[n - 1].0@, json_model(pairs[n - 1].1)))
    }
}

/// An array's model is the elementwise model.
pub broadcast proof fn lemma_json_array_model(items: Seq<JsonValue>, n: int)
    requires
        0 <= n <= items.len(),
    ensures
        #[trigger] json_array_model(items, n).len() == n,
        forall|i: int| 0 <= i < n ==> json_array_model(items, n)[i] == json_model(items[i]),
    decreases n,
{
    if n > 0 {
        lemma_json_array_model(items, n - 1);
    }
}

/// An object's model is the pairwise model of its keys and values.
pub broadcast proof fn lemma_json_object_model(pairs: Seq<(String, JsonValue)>, n: int)
    requires
        0 <= n <= pairs.len(),
    ensures
        #[trigger] json_object_model(pairs, n).len() == n,
        forall|i: int| 0 <= i < n ==> json_object_model(pairs, n)[i]
            == (pairs[i].0@, json_model(pairs[i].1)),
    decreases n,
{
    if n > 0 {
        lemma_json_object_model(pairs, n - 1);
    }
}

/// The deep view of a vector of documents is the model of its elements.
pub proof fn lemma_json_vec_deep_view(v: Vec<JsonValue>)
    ensures
        v.deep_view() == json_array_model(v@, v@.len() as int),
{
    lemma_json_array_model(v@, v@.len() as int);
    assert(v.deep_view() =~= json_array_model(v@, v@.len() as int));
}

/// The deep view of a vector of key/value pairs is the model of its pairs.
pub proof fn lemma_json_pairs_deep_view(v: Vec<(String, JsonValue)>)
    ensures
        v.deep_view() == json_object_model(v@, v@.len() as int),
{
    lemma_json_object_model(v@, v@.len() as int);
    assert(v.deep_view() =~= json_object_model(v@, v@.len() as int));
}

impl DeepView for JsonValue {
    type V = SpecJson;

    open spec fn deep_view(&self) -> SpecJson {
        json_model(*self)
    }
}

/// Structural equality of documents.
fn eq_json(a: &JsonValue, b: &JsonValue) -> (r: bool)
    ensures
        r == (json_model(*a) == json_model(*b)),
    decreases a,
{
    match (a, b) {
        (JsonValue::Null, JsonValue::Null) => true,
        (JsonValue::Bool(x), JsonValue::Bool(y)) => x == y,
        (JsonValue::Integer(x), JsonValue::Integer(y)) => x == y,
        (JsonValue::Double(x), JsonValue::Double(y)) => x == y,
        (JsonValue::String(x), JsonValue::String(y)) => *x == *y,
        (JsonValue::Array(xs), JsonValue::Array(ys)) => {
            proof {
                lemma_json_array_model(xs@, xs@.len() as int);
                lemma_json_array_model(ys@, ys@.len() as int);
            }
            if xs.len() != ys.len() {
                false
            } else {
                let mut j: usize = 0;
                let mut same: bool = true;
                while j < xs.len() && same
                    invariant
                        j <= xs.len(),
                        xs@.len() == ys@.len(),
                        same ==> forall|k: int| 0 <= k < j ==> json_model(#[trigger] xs@[k])
                            == json_model(ys@[k]),
                        !same ==> json_model(*a) != json_model(*b),
                        a == JsonValue::Array(*xs),
                        b == JsonValue::Array(*ys),
                    decreases xs.len() - j,
                {
                    proof {
                        lemma_json_array_model(xs@, xs@.len() as int);
                        lemma_json_array_model(ys@, ys@.len() as int);
                        assert(decreases_to!(a => xs));
                        assert(decreases_to!(xs => xs@));
                        assert(decreases_to!(xs@ => xs@[j as int]));
                    }
                    if !eq_json(&xs[j], &ys[j]) {
                        same = false;
                        proof {
                            assert(json_array_model(xs@, xs@.len() as int)[j as int]
                                != json_array_model(ys@, ys@.len() as int)[j as int]);
                        }
                    }
                    j += 1;
                }
                proof {
                    if same {
                        lemma_json_array_model(xs@, xs@.len() as int);
                        lemma_json_array_model(ys@, ys@.len() as int);
                        assert(json_array_model(xs@, xs@.len() as int) =~= json_array_model(
                            ys@,
                            ys@.len() as int,
                        ));
                    }
                }
                same
            }
        },
        (JsonValue::Object(xp), JsonValue::Object(yp)) => {
            proof {
                lemma_json_object_model(xp@, xp@.len() as int);
                lemma_json_object_model(yp@, yp@.len() as int);
            }
            if xp.len() != yp.len() {
                false
            } else {
                let mut j: usize = 0;
                let mut same: bool = true;
                while j < xp.len() && same
                    invariant
                        j <= xp.len(),
                        xp@.len() == yp@.len(),
                        same ==> forall|k: int| 0 <= k < j ==> (#[trigger] xp@[k]).0@ == yp@[k].0@
                            && json_model(xp@[k].1) == json_model(yp@[k].1),
                        !same ==> json_model(*a) != json_model(*b),
                        a == JsonValue::Object(*xp),
                        b == JsonValue::Object(*yp),
                    decreases xp.len() - j,
                {
                    proof {
                        lemma_json_object_model(xp@, xp@.len() as int);
                        lemma_json_object_model(yp@, yp@.len() as int);
                        assert(decreases_to!(a => xp));
                        assert(decreases_to!(xp => xp@));
                        assert(decreases_to!(xp@ => xp@[j as int]));
                        assert(decreases_to!(xp@[j as int] => xp@[j as int].1));
                    }
                    let keys_equal: bool = xp[j].0 == yp[j].0;
                    if !(keys_equal && eq_json(&xp[j].1, &yp[j].1)) {
                        same = false;
                        proof {
                            assert(json_object_model(xp@, xp@.len() as int)[j as int]
                                != json_object_model(yp@, yp@.len() as int)[j as int]);
                        }
                    }
                    j += 1;
                }
                proof {
                    if same {
                        lemma_json_object_model(xp@, xp@.len() as int);
                        lemma_json_object_model(yp@, yp@.len() as int);
                        assert(json_object_model(xp@, xp@.len() as int) =~= json_object_model(
                            yp@,
                            yp@.len() as int,
                        ));
                    }
                }
                same
            }
        },
        _ => false,
    }
}

impl PartialEq for JsonValue {
    fn eq(&self, other: &JsonValue) -> (r: bool) {
        eq_json(self, other)
    }
}

impl vstd::std_specs::cmp::PartialEqSpecImpl for JsonValue {
    open spec fn obeys_eq_spec() -> bool {
        true
    }

    open spec fn eq_spec(&self, other: &JsonValue) -> bool {
        json_model(*self) == json_model(*other)
    }
}

impl Eq for JsonValue {

}

} // verus!
