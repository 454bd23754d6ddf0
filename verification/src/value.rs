//! The universal scalar/list value type that crosses every boundary of the
//! linter, together with its JSON wire form and the conversions between the
//! two. JSON is the wire encoding: every value that leaves or enters a plugin
//! does so as a JSON document.

use vstd::prelude::*;

verus! {

/// Mathematical model of a [`Value`].
#[verifier::ext_equal]
pub enum ValueModel {
    Null,
    Boolean(bool),
    Int64(i64),
    Uint64(u64),
    /// A 64-bit IEEE 754 float carried as its raw bit pattern; the library
    /// never performs float arithmetic on it.
    Float64Bits(u64),
    Str(Seq<char>),
    Enum(Seq<char>),
    List(Seq<ValueModel>),
}

/// Mathematical model of a [`Json`] document.
#[verifier::ext_equal]
pub enum JsonModel {
    Null,
    Bool(bool),
    /// A non-negative JSON number.
    PosInt(u64),
    /// A negative JSON number.
    NegInt(i64),
    /// A JSON number that is not an integer: a 64-bit float as raw bits.
    Float(u64),
    Str(Seq<char>),
    Arr(Seq<JsonModel>),
    Obj(Seq<(Seq<char>, JsonModel)>),
}

/// The closed variant type of every query-result field and every lint
/// argument. It is the only type allowed to cross the sandbox boundary or to
/// appear in a result row.
pub enum Value {
    Null,
    Boolean(bool),
    Int64(i64),
    Uint64(u64),
    /// A 64-bit IEEE 754 float carried as its raw bit pattern.
    Float64Bits(u64),
    Str(String),
    Enum(String),
    List(Vec<Value>),
}

/// A JSON document: the wire form of values, rows and lints. Numbers keep
/// the three-way split that the wire uses: non-negative integers, negative
/// integers, and floats (as raw bits).
pub enum Json {
    Null,
    Bool(bool),
    PosInt(u64),
    NegInt(i64),
    Float(u64),
    Str(String),
    Arr(Vec<Json>),
    Obj(Vec<(String, Json)>),
}

/// The model of a concrete value.
pub open spec fn value_model(v: Value) -> ValueModel
    decreases v,
{
    match v {
        Value::Null => ValueModel::Null,
        Value::Boolean(b) => ValueModel::Boolean(b),
        Value::Int64(i) => ValueModel::Int64(i),
        Value::Uint64(u) => ValueModel::Uint64(u),
        Value::Float64Bits(bits) => ValueModel::Float64Bits(bits),
        Value::Str(s) => ValueModel::Str(s@),
        Value::Enum(s) => ValueModel::Enum(s@),
        Value::List(items) => {
            proof {
                assert forall|i: int| 0 <= i < items@.len() implies decreases_to!(
                    v => items@[i]) by {
                    assert(decreases_to!(v => v->List_0));
                    assert(decreases_to!(v->List_0 => v->List_0@));
                    assert(decreases_to!(v->List_0@ => v->List_0@[i]));
                }
            }
            ValueModel::List(
                Seq::new(
                    items@.len(),
                    |i: int|
                        if 0 <= i < items@.len() {
                            value_model(items@[i])
                        } else {
                            ValueModel::Null
                        },
                ),
            )
        },
    }
}

/// The model of a concrete JSON document.
pub open spec fn json_model(j: Json) -> JsonModel
    decreases j,
{
    match j {
        Json::Null => JsonModel::Null,
        Json::Bool(b) => JsonModel::Bool(b),
        Json::PosInt(u) => JsonModel::PosInt(u),
        Json::NegInt(i) => JsonModel::NegInt(i),
        Json::Float(bits) => JsonModel::Float(bits),
        Json::Str(s) => JsonModel::Str(s@),
        Json::Arr(items) => {
            proof {
                assert forall|i: int| 0 <= i < items@.len() implies decreases_to!(
                    j => items@[i]) by {
                    assert(decreases_to!(j => j->Arr_0));
                    assert(decreases_to!(j->Arr_0 => j->Arr_0@));
                    assert(decreases_to!(j->Arr_0@ => j->Arr_0@[i]));
                }
            }
            JsonModel::Arr(
                Seq::new(
                    items@.len(),
                    |i: int|
                        if 0 <= i < items@.len() {
                            json_model(items@[i])
                        } else {
                            JsonModel::Null
                        },
                ),
            )
        },
        Json::Obj(fields) => {
            proof {
                assert forall|i: int| 0 <= i < fields@.len() implies decreases_to!(
                    j => fields@[i].1) by {
                    assert(decreases_to!(j => j->Obj_0));
                    assert(decreases_to!(j->Obj_0 => j->Obj_0@));
                    assert(decreases_to!(j->Obj_0@ => j->Obj_0@[i]));
                    assert(decreases_to!(j->Obj_0@[i] => j->Obj_0@[i].1));
                }
            }
            JsonModel::Obj(
                Seq::new(
                    fields@.len(),
                    |i: int|
                        if 0 <= i < fields@.len() {
                            (fields@[i].0@, json_model(fields@[i].1))
                        } else {
                            (Seq::empty(), JsonModel::Null)
                        },
                ),
            )
        },
    }
}

impl DeepView for Value {
    type V = ValueModel;

    open spec fn deep_view(&self) -> ValueModel {
        value_model(*self)
    }
}

impl DeepView for Json {
    type V = JsonModel;

    open spec fn deep_view(&self) -> JsonModel {
        json_model(*self)
    }
}

/// The model of a list value is the pointwise model of its items.
pub proof fn lemma_list_model(items: Vec<Value>)
    ensures
        value_model(Value::List(items)) == ValueModel::List(items.deep_view()),
{
    assert(value_model(Value::List(items))->List_0 =~= items.deep_view());
    assert(value_model(Value::List(items)) =~= ValueModel::List(items.deep_view()));
}

/// The model of a JSON array is the pointwise model of its items.
pub proof fn lemma_arr_model(items: Vec<Json>)
    ensures
        json_model(Json::Arr(items)) == JsonModel::Arr(items.deep_view()),
{
    assert(json_model(Json::Arr(items))->Arr_0 =~= items.deep_view());
    assert(json_model(Json::Arr(items)) =~= JsonModel::Arr(items.deep_view()));
}

/// The model of a JSON object is the pointwise model of its fields.
pub proof fn lemma_obj_model(fields: Vec<(String, Json)>)
    ensures
        json_model(Json::Obj(fields)) == JsonModel::Obj(fields.deep_view()),
{
    assert(json_model(Json::Obj(fields))->Obj_0 =~= fields.deep_view());
    assert(json_model(Json::Obj(fields)) =~= JsonModel::Obj(fields.deep_view()));
}

impl Clone for Value {
    fn clone(&self) -> (res: Self)
        ensures
            res.deep_view() == self.deep_view(),
        decreases self,
    {
        match self {
            Value::Null => Value::Null,
            Value::Boolean(b) => Value::Boolean(*b),
            Value::Int64(i) => Value::Int64(*i),
            Value::Uint64(u) => Value::Uint64(*u),
            Value::Float64Bits(bits) => Value::Float64Bits(*bits),
            Value::Str(s) => Value::Str(s.clone()),
            Value::Enum(s) => Value::Enum(s.clone()),
            Value::List(items) => {
                let mut out: Vec<Value> = Vec::new();
                let mut i: usize = 0;
                #[verifier::loop_isolation(false)]
                while i < items.len()
                    invariant
                        i <= items.len(),
                        out.deep_view() =~= items.deep_view().take(i as int),
                    decreases items.len() - i,
                {
                    proof {
                        assert(decreases_to!(*self => items@[i as int])) by {
                            assert(decreases_to!(*self => *items));
                            assert(decreases_to!(*items => items@));
                            assert(decreases_to!(items@ => items@[i as int]));
                        }
                    }
                    out.push(items[i].clone());
                    i = i + 1;
                }
                proof {
                    assert(out.deep_view() =~= items.deep_view());
                    lemma_list_model(out);
                    lemma_list_model(*items);
                }
                Value::List(out)
            },
        }
    }
}

impl Clone for Json {
    fn clone(&self) -> (res: Self)
        ensures
            res.deep_view() == self.deep_view(),
        decreases self,
    {
        match self {
            Json::Null => Json::Null,
            Json::Bool(b) => Json::Bool(*b),
            Json::PosInt(u) => Json::PosInt(*u),
            Json::NegInt(i) => Json::NegInt(*i),
            Json::Float(bits) => Json::Float(*bits),
            Json::Str(s) => Json::Str(s.clone()),
            Json::Arr(items) => {
                let mut out: Vec<Json> = Vec::new();
                let mut i: usize = 0;
                #[verifier::loop_isolation(false)]
                while i < items.len()
                    invariant
                        i <= items.len(),
                        out.deep_view() =~= items.deep_view().take(i as int),
                    decreases items.len() - i,
                {
                    proof {
                        assert(decreases_to!(*self => items@[i as int])) by {
                            assert(decreases_to!(*self => *items));
                            assert(decreases_to!(*items => items@));
                            assert(decreases_to!(items@ => items@[i as int]));
                        }
                    }
                    out.push(items[i].clone());
                    i = i + 1;
                }
                proof {
                    assert(out.deep_view() =~= items.deep_view());
                    lemma_arr_model(out);
                    lemma_arr_model(*items);
                }
                Json::Arr(out)
            },
            Json::Obj(fields) => {
                let mut out: Vec<(String, Json)> = Vec::new();
                let mut i: usize = 0;
                #[verifier::loop_isolation(false)]
                while i < fields.len()
                    invariant
                        i <= fields.len(),
                        out.deep_view() =~= fields.deep_view().take(i as int),
                    decreases fields.len() - i,
                {
                    proof {
                        assert(decreases_to!(*self => fields@[i as int].1)) by {
                            assert(decreases_to!(*self => *fields));
                            assert(decreases_to!(*fields => fields@));
                            assert(decreases_to!(fields@ => fields@[i as int]));
                            assert(decreases_to!(fields@[i as int] => fields@[i as int].1));
                        }
                    }
                    let pair = &fields[i];
                    out.push((pair.0.clone(), pair.1.clone()));
                    i = i + 1;
                }
                proof {
                    assert(out.deep_view() =~= fields.deep_view());
                    lemma_obj_model(out);
                    lemma_obj_model(*fields);
                }
                Json::Obj(out)
            },
        }
    }
}

/// The JSON wire form of a value: integers that fit a signed 64-bit number
/// serialize as (signed) integers, larger unsigned ones keep their magnitude,
/// enums serialize as their name, lists serialize elementwise.
pub open spec fn json_of(v: ValueModel) -> JsonModel
    decreases v,
{
    match v {
        ValueModel::Null => JsonModel::Null,
        ValueModel::Boolean(b) => JsonModel::Bool(b),
        ValueModel::Int64(i) => if i >= 0 {
            JsonModel::PosInt(i as u64)
        } else {
            JsonModel::NegInt(i)
        },
        ValueModel::Uint64(u) => JsonModel::PosInt(u),
        ValueModel::Float64Bits(bits) => JsonModel::Float(bits),
        ValueModel::Str(s) => JsonModel::Str(s),
        ValueModel::Enum(s) => JsonModel::Str(s),
        ValueModel::List(items) => {
            proof {
                assert forall|i: int| 0 <= i < items.len() implies decreases_to!(
                    v => items[i]) by {
                    assert(decreases_to!(v => v->List_0));
                    assert(decreases_to!(v->List_0 => v->List_0[i]));
                }
            }
            JsonModel::Arr(
                Seq::new(
                    items.len(),
                    |i: int|
                        if 0 <= i < items.len() {
                            json_of(items[i])
                        } else {
                            JsonModel::Null
                        },
                ),
            )
        },
    }
}

/// Decoding a JSON document back into a value: a non-negative integer that
/// fits a signed 64-bit number decodes as signed, a JSON string decodes as a
/// string (never as an enum), and a JSON object is not a value at all.
pub open spec fn value_of_json(j: JsonModel) -> Option<ValueModel>
    decreases j, 1int,
{
    match j {
        JsonModel::Null => Some(ValueModel::Null),
        JsonModel::Bool(b) => Some(ValueModel::Boolean(b)),
        JsonModel::PosInt(u) => if u <= i64::MAX as u64 {
            Some(ValueModel::Int64(u as i64))
        } else {
            Some(ValueModel::Uint64(u))
        },
        JsonModel::NegInt(i) => Some(ValueModel::Int64(i)),
        JsonModel::Float(bits) => Some(ValueModel::Float64Bits(bits)),
        JsonModel::Str(s) => Some(ValueModel::Str(s)),
        JsonModel::Arr(items) => {
            proof {
                assert(decreases_to!(j => j->Arr_0));
            }
            match values_of_json(items) {
                Some(vs) => Some(ValueModel::List(vs)),
                None => None,
            }
        },
        JsonModel::Obj(_) => None,
    }
}

/// Decode a sequence of JSON documents elementwise; the whole sequence
/// decodes only if every element does.
pub open spec fn values_of_json(items: Seq<JsonModel>) -> Option<Seq<ValueModel>>
    decreases items, 0int,
{
    if items.len() == 0 {
        Some(Seq::empty())
    } else {
        proof {
            assert(decreases_to!(items => items[0]));
            assert(decreases_to!(items => items.drop_first()));
        }
        let head = value_of_json(items[0]);
        let tail = values_of_json(items.drop_first());
        if head is Some && tail is Some {
            Some(seq![head.unwrap()] + tail.unwrap())
        } else {
            None
        }
    }
}

/// A sequence of JSON documents decodes exactly when each element decodes,
/// and then it decodes elementwise.
pub proof fn lemma_values_of_json_index(items: Seq<JsonModel>)
    ensures
        (values_of_json(items) is Some) <==> (forall|i: int|
            0 <= i < items.len() ==> #[trigger] value_of_json(items[i]) is Some),
        values_of_json(items) is Some ==> values_of_json(items).unwrap().len() == items.len(),
        values_of_json(items) is Some ==> forall|i: int|
            0 <= i < items.len() ==> #[trigger] values_of_json(items).unwrap()[i] == value_of_json(
                items[i],
            ).unwrap(),
    decreases items.len(),
{
    if items.len() == 0 {
    } else {
        lemma_values_of_json_index(items.drop_first());
        assert(forall|i: int|
            1 <= i < items.len() ==> items.drop_first()[i - 1] == #[trigger] items[i]);
        if values_of_json(items) is Some {
            let out = values_of_json(items).unwrap();
            let tail = values_of_json(items.drop_first()).unwrap();
            assert(out == seq![value_of_json(items[0]).unwrap()] + tail);
            assert forall|i: int| 0 <= i < items.len() implies #[trigger] out[i] == value_of_json(
                items[i],
            ).unwrap() by {
                if i >= 1 {
                    assert(out[i] == tail[i - 1]);
                    assert(tail[i - 1] == value_of_json(items.drop_first()[i - 1]).unwrap());
                }
            }
        } else {
            if value_of_json(items[0]) is Some {
                assert(values_of_json(items.drop_first()) is None);
                let k = choose|k: int|
                    0 <= k < items.drop_first().len() && !(#[trigger] value_of_json(
                        items.drop_first()[k],
                    ) is Some);
                assert(items[k + 1] == items.drop_first()[k]);
                assert(!(value_of_json(items[k + 1]) is Some));
            }
        }
    }
}

/// The canonical form of a value: what survives a trip over the wire.
/// An enum turns into the string of its name, and a non-negative integer is
/// always represented as signed when it fits.
pub open spec fn canon(v: ValueModel) -> ValueModel
    decreases v,
{
    match v {
        ValueModel::Uint64(u) => if u <= i64::MAX as u64 {
            ValueModel::Int64(u as i64)
        } else {
            ValueModel::Uint64(u)
        },
        ValueModel::Enum(s) => ValueModel::Str(s),
        ValueModel::List(items) => {
            proof {
                assert forall|i: int| 0 <= i < items.len() implies decreases_to!(
                    v => items[i]) by {
                    assert(decreases_to!(v => v->List_0));
                    assert(decreases_to!(v->List_0 => v->List_0[i]));
                }
            }
            ValueModel::List(
                Seq::new(
                    items.len(),
                    |i: int|
                        if 0 <= i < items.len() {
                            canon(items[i])
                        } else {
                            ValueModel::Null
                        },
                ),
            )
        },
        _ => v,
    }
}

/// A value already in canonical form round-trips over the wire unchanged.
pub open spec fn is_canonical(v: ValueModel) -> bool {
    canon(v) == v
}

/// Value round-trip law: encoding a value to its JSON wire form and decoding
/// it back always succeeds and yields the canonical form of the value; on
/// values already canonical the round trip is the identity.
pub proof fn lemma_value_round_trip(v: ValueModel)
    ensures
        value_of_json(json_of(v)) == Some(canon(v)),
        is_canonical(v) ==> value_of_json(json_of(v)) == Some(v),
    decreases v,
{
    match v {
        ValueModel::List(items) => {
            let enc = json_of(v)->Arr_0;
            assert(enc.len() == items.len());
            assert forall|i: int| 0 <= i < enc.len() implies #[trigger] value_of_json(enc[i])
                == Some(canon(items[i])) by {
                lemma_value_round_trip(items[i]);
                assert(enc[i] == json_of(items[i]));
            }
            lemma_values_of_json_index(enc);
            assert(values_of_json(enc) is Some);
            let dec = values_of_json(enc).unwrap();
            assert(dec.len() == enc.len());
            assert forall|i: int| 0 <= i < enc.len() implies dec[i] == canon(v)->List_0[i] by {
                assert(dec[i] == value_of_json(enc[i]).unwrap());
                assert(canon(v)->List_0[i] == canon(items[i]));
            }
            assert(dec =~= canon(v)->List_0);
            assert(ValueModel::List(dec) =~= canon(v));
            assert(value_of_json(json_of(v)) == Some(ValueModel::List(dec)));
        },
        _ => {},
    }
}

/// Canonicalization does not change the wire form: a value and its canonical
/// form encode to the same JSON document.
pub proof fn lemma_canon_same_wire_form(v: ValueModel)
    ensures
        json_of(canon(v)) == json_of(v),
    decreases v,
{
    match v {
        ValueModel::List(items) => {
            let canoned = canon(v)->List_0;
            assert(canoned.len() == items.len());
            assert forall|i: int| 0 <= i < items.len() implies #[trigger] json_of(canoned[i])
                == json_of(items[i]) by {
                assert(canoned[i] == canon(items[i]));
                lemma_canon_same_wire_form(items[i]);
            }
            assert forall|i: int| 0 <= i < items.len() implies json_of(canon(v))->Arr_0[i]
                == json_of(v)->Arr_0[i] by {
                assert(json_of(canon(v))->Arr_0[i] == json_of(canoned[i]));
                assert(json_of(v)->Arr_0[i] == json_of(items[i]));
            }
            assert(json_of(canon(v))->Arr_0.len() == items.len());
            assert(json_of(v)->Arr_0.len() == items.len());
            assert(json_of(canon(v))->Arr_0 =~= json_of(v)->Arr_0);
            assert(json_of(canon(v)) =~= json_of(v));
        },
        _ => {},
    }
}

/// Convert a value to its JSON wire form.
pub fn from_field_value(value: &Value) -> (r: Json)
    ensures
        r.deep_view() == json_of(value.deep_view()),
    decreases value,
{
    match value {
        Value::Null => Json::Null,
        Value::Boolean(b) => Json::Bool(*b),
        Value::Int64(i) => {
            if *i >= 0 {
                Json::PosInt(*i as u64)
            } else {
                Json::NegInt(*i)
            }
        },
        Value::Uint64(u) => Json::PosInt(*u),
        Value::Float64Bits(bits) => Json::Float(*bits),
        Value::Str(s) => Json::Str(s.clone()),
        Value::Enum(s) => Json::Str(s.clone()),
        Value::List(items) => {
            let ghost lv = value.deep_view()->List_0;
            let mut out: Vec<Json> = Vec::new();
            let mut i: usize = 0;
            #[verifier::loop_isolation(false)]
            while i < items.len()
                invariant
                    i <= items.len(),
                    out@.len() == i as int,
                    forall|k: int| 0 <= k < i ==> (#[trigger] out@[k]).deep_view() == json_of(
                        lv[k],
                    ),
                decreases items.len() - i,
            {
                proof {
                    assert(lv[i as int] == value_model(items@[i as int]));
                    assert(decreases_to!(*value => items@[i as int])) by {
                        assert(decreases_to!(*value => *items));
                        assert(decreases_to!(*items => items@));
                        assert(decreases_to!(items@ => items@[i as int]));
                    }
                }
                out.push(from_field_value(&items[i]));
                i = i + 1;
            }
            proof {
                assert(out.deep_view() =~= json_of(value.deep_view())->Arr_0);
                assert(json_model(Json::Arr(out))->Arr_0 =~= out.deep_view());
                assert(json_model(Json::Arr(out)) =~= json_of(value.deep_view()));
            }
            Json::Arr(out)
        },
    }
}

/// Decode a JSON document into a value; a JSON object (anywhere in the
/// document) is not a value, so decoding it yields `None`.
pub fn from_json_value(value: &Json) -> (r: Option<Value>)
    ensures
        r.deep_view() == value_of_json(value.deep_view()),
    decreases value,
{
    match value {
        Json::Null => Some(Value::Null),
        Json::Bool(b) => Some(Value::Boolean(*b)),
        Json::PosInt(u) => {
            if *u <= i64::MAX as u64 {
                Some(Value::Int64(*u as i64))
            } else {
                Some(Value::Uint64(*u))
            }
        },
        Json::NegInt(i) => Some(Value::Int64(*i)),
        Json::Float(bits) => Some(Value::Float64Bits(*bits)),
        Json::Str(s) => Some(Value::Str(s.clone())),
        Json::Arr(items) => {
            let ghost jv = value.deep_view()->Arr_0;
            let mut out: Vec<Value> = Vec::new();
            let mut i: usize = 0;
            #[verifier::loop_isolation(false)]
            while i < items.len()
                invariant
                    i <= items.len(),
                    forall|k: int| 0 <= k < i ==> #[trigger] value_of_json(jv[k]) is Some,
                    out@.len() == i as int,
                    forall|k: int| 0 <= k < i ==> (#[trigger] out@[k]).deep_view()
                        == value_of_json(jv[k]).unwrap(),
                decreases items.len() - i,
            {
                proof {
                    assert(jv[i as int] == json_model(items@[i as int]));
                    assert(decreases_to!(*value => items@[i as int])) by {
                        assert(decreases_to!(*value => *items));
                        assert(decreases_to!(*items => items@));
                        assert(decreases_to!(items@ => items@[i as int]));
                    }
                }
                match from_json_value(&items[i]) {
                    Some(v) => {
                        out.push(v);
                    },
                    None => {
                        proof {
                            assert(value_of_json(jv[i as int]) is None);
                            lemma_values_of_json_index(jv);
                            assert(values_of_json(jv) is None);
                            assert(value_of_json(value.deep_view()) is None);
                        }
                        return None;
                    },
                }
                i = i + 1;
            }
            proof {
                lemma_values_of_json_index(jv);
                assert(values_of_json(jv) is Some);
                assert(out.deep_view() =~= values_of_json(jv).unwrap());
                assert(value_model(Value::List(out))->List_0 =~= out.deep_view());
                assert(value_of_json(value.deep_view()) == Some(
                    ValueModel::List(values_of_json(jv).unwrap()),
                ));
                assert(value_model(Value::List(out)) =~= ValueModel::List(
                    values_of_json(jv).unwrap(),
                ));
            }
            Some(Value::List(out))
        },
        Json::Obj(_) => None,
    }
}

} // verus!
