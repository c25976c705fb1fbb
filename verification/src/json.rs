//! The JSON values that flow through the ingestion core, and the merge rule
//! that folds an incoming batch into a previously stored document.
//!
//! The core never inspects the interior of individual payload items; it only
//! distinguishes arrays from everything else when merging. Numbers are carried
//! as their decimal literal text, so no value of this type approximates what a
//! client sent.

use vstd::prelude::*;

verus! {

broadcast use vstd::std_specs::vec::group_vec_axioms;

/// A JSON document as the ingestion core sees it.
#[derive(Debug, PartialEq, Eq)]
pub enum JsonValue {
    Null,
    Bool(bool),
    /// A number, kept as the decimal literal text it was written with.
    Num(String),
    Text(String),
    Array(Vec<JsonValue>),
    Object(Vec<(String, JsonValue)>),
}

/// The mathematical shape of a [`JsonValue`], used by all contracts.
pub ghost enum JsonModel {
    Null,
    Bool(bool),
    Num(Seq<char>),
    Text(Seq<char>),
    Arr(Seq<JsonModel>),
    Obj(Seq<(Seq<char>, JsonModel)>),
}

/// The models of a sequence of array items, in order.
pub open spec fn models_of(items: Seq<JsonValue>) -> Seq<JsonModel>
    decreases items,
{
    if items.len() == 0 {
        Seq::empty()
    } else {
        seq![items[0].model()] + models_of(items.drop_first())
    }
}

/// The models of a sequence of object entries, in order.
pub open spec fn entry_models_of(entries: Seq<(String, JsonValue)>) -> Seq<(Seq<char>, JsonModel)>
    decreases entries,
{
    if entries.len() == 0 {
        Seq::empty()
    } else {
        seq![(entries[0].0@, entries[0].1.model())] + entry_models_of(entries.drop_first())
    }
}

impl JsonValue {
    /// The model of this value: the same tree over mathematical sequences.
    pub open spec fn model(&self) -> JsonModel
        decreases self,
    {
        match self {
            JsonValue::Null => JsonModel::Null,
            JsonValue::Bool(b) => JsonModel::Bool(*b),
            JsonValue::Num(n) => JsonModel::Num(n@),
            JsonValue::Text(t) => JsonModel::Text(t@),
            JsonValue::Array(items) => JsonModel::Arr(models_of(items@)),
            JsonValue::Object(entries) => JsonModel::Obj(entry_models_of(entries@)),
        }
    }
}

/// `models_of` maps the sequence pointwise: it keeps the length and models
/// each item in place.
pub proof fn lemma_models_of(items: Seq<JsonValue>)
    ensures
        models_of(items).len() == items.len(),
        forall|i: int| 0 <= i < items.len() ==> models_of(items)[i] == items[i].model(),
    decreases items,
{
    if items.len() > 0 {
        lemma_models_of(items.drop_first());
        assert forall|i: int| 0 <= i < items.len() implies models_of(items)[i]
            == items[i].model() by {
            if i > 0 {
                assert(items.drop_first()[i - 1] == items[i]);
            }
        }
    }
}

/// The merge rule for one stored document and one incoming payload:
/// two arrays concatenate; an array absorbs a scalar at its end; a scalar
/// in front of an array becomes its head; two scalars become a fresh pair.
pub open spec fn spec_merge(existing: JsonModel, incoming: JsonModel) -> JsonModel {
    match (existing, incoming) {
        (JsonModel::Arr(a), JsonModel::Arr(b)) => JsonModel::Arr(a + b),
        (JsonModel::Arr(a), b) => JsonModel::Arr(a.push(b)),
        (a, JsonModel::Arr(b)) => JsonModel::Arr(seq![a] + b),
        (a, b) => JsonModel::Arr(seq![a, b]),
    }
}

/// The merge rule extended to an absent stored document: with nothing stored,
/// the incoming payload is kept unchanged.
pub open spec fn spec_merge_opt(existing: Option<JsonModel>, incoming: JsonModel) -> JsonModel {
    match existing {
        Option::None => incoming,
        Option::Some(e) => spec_merge(e, incoming),
    }
}

/// A value models an array exactly when it is built with `Array`.
pub proof fn lemma_model_arr(v: JsonValue)
    ensures
        (v.model() is Arr) <==> (v is Array),
{
    match v {
        JsonValue::Null => {},
        JsonValue::Bool(_) => {},
        JsonValue::Num(_) => {},
        JsonValue::Text(_) => {},
        JsonValue::Array(_) => {},
        JsonValue::Object(_) => {},
    }
}

/// Folds `incoming` into `existing` by the merge rule of [`spec_merge`].
pub fn merge_json(existing: JsonValue, incoming: JsonValue) -> (merged: JsonValue)
    ensures
        merged.model() == spec_merge(existing.model(), incoming.model()),
{
    proof {
        lemma_model_arr(existing);
        lemma_model_arr(incoming);
    }
    let ghost em = existing.model();
    let ghost im = incoming.model();
    match (existing, incoming) {
        (JsonValue::Array(mut a), JsonValue::Array(mut b)) => {
            let ghost av = a@;
            let ghost bv = b@;
            a.append(&mut b);
            proof {
                lemma_models_of(av);
                lemma_models_of(bv);
                lemma_models_of(a@);
                assert(models_of(a@) =~= models_of(av) + models_of(bv));
            }
            JsonValue::Array(a)
        },
        (JsonValue::Array(mut a), b) => {
            let ghost av = a@;
            let ghost bm = b.model();
            a.push(b);
            proof {
                lemma_models_of(av);
                lemma_models_of(a@);
                assert(models_of(a@) =~= models_of(av).push(bm));
            }
            JsonValue::Array(a)
        },
        (a, JsonValue::Array(mut b)) => {
            let ghost am = a.model();
            let ghost bv = b@;
            let mut arr: Vec<JsonValue> = Vec::new();
            arr.push(a);
            arr.append(&mut b);
            proof {
                lemma_models_of(bv);
                lemma_models_of(arr@);
                assert(models_of(arr@) =~= seq![am] + models_of(bv));
            }
            JsonValue::Array(arr)
        },
        (a, b) => {
            let ghost am = a.model();
            let ghost bm = b.model();
            let mut arr: Vec<JsonValue> = Vec::new();
            arr.push(a);
            arr.push(b);
            proof {
                lemma_models_of(arr@);
                assert(models_of(arr@) =~= seq![am, bm]);
            }
            JsonValue::Array(arr)
        },
    }
}

/// Folds `incoming` into an optional stored document: an absent document
/// leaves the payload unchanged, a present one is merged by the rule.
pub fn merge_json_opt(existing: Option<JsonValue>, incoming: JsonValue) -> (merged: JsonValue)
    ensures
        merged.model() == spec_merge_opt(
            match existing {
                Option::None => None,
                Option::Some(e) => Some(e.model()),
            },
            incoming.model(),
        ),
{
    match existing {
        Option::None => incoming,
        Option::Some(e) => merge_json(e, incoming),
    }
}

/// Law: merging into an absent document returns the incoming value unchanged.
pub proof fn lemma_merge_absent(x: JsonModel)
    ensures
        spec_merge_opt(None, x) == x,
{
}

/// Law: merging two arrays concatenates their items in order.
pub proof fn lemma_merge_arrays(a: Seq<JsonModel>, b: Seq<JsonModel>)
    ensures
        spec_merge(JsonModel::Arr(a), JsonModel::Arr(b)) == JsonModel::Arr(a + b),
{
}

/// Law: merging a scalar into an array appends it as one trailing item.
pub proof fn lemma_merge_array_scalar(a: Seq<JsonModel>, s: JsonModel)
    requires
        !(s is Arr),
    ensures
        spec_merge(JsonModel::Arr(a), s) == JsonModel::Arr(a + seq![s]),
{
    assert(a.push(s) =~= a + seq![s]);
}

/// Law: merging an array into a scalar makes the scalar the head of the array.
pub proof fn lemma_merge_scalar_array(s: JsonModel, b: Seq<JsonModel>)
    requires
        !(s is Arr),
    ensures
        spec_merge(s, JsonModel::Arr(b)) == JsonModel::Arr(seq![s] + b),
{
}

/// Law: merging two scalars yields the two-item array holding both, in order.
pub proof fn lemma_merge_scalars(s1: JsonModel, s2: JsonModel)
    requires
        !(s1 is Arr),
        !(s2 is Arr),
    ensures
        spec_merge(s1, s2) == JsonModel::Arr(seq![s1, s2]),
{
}

} // verus!
