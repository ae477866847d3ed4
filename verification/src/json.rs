//! JSON values as the registry's payload and result type.
//!
//! Handlers receive and return JSON. The registry never inspects the
//! shape beyond what its own helpers expose, so the value type is a
//! plain tree: objects are association lists whose first binding for
//! a name wins.

use vstd::prelude::*;

verus! {

broadcast use
    vstd::std_specs::vec::group_vec_axioms,
    vstd::seq::group_seq_axioms,
    vstd::seq_lib::group_seq_lib_default;

/// Mathematical model of a JSON value.
pub enum JsonVal {
    Null,
    Bool(bool),
    Int(int),
    Str(Seq<char>),
    Arr(Seq<JsonVal>),
    Obj(Seq<(Seq<char>, JsonVal)>),
}

/// One named field of a JSON object.
pub struct JsonMember {
    pub name: String,
    pub value: JsonValue,
}

/// A JSON value: null, boolean, integer, string, array or object.
/// Objects keep their fields in insertion order; lookup returns the
/// first binding for a name.
pub enum JsonValue {
    Null,
    Bool(bool),
    Int(i64),
    Str(String),
    Arr(Vec<JsonValue>),
    Obj(Vec<JsonMember>),
}

/// Views of an array's elements, in order.
pub open spec fn arr_view(items: Seq<JsonValue>) -> Seq<JsonVal>
    decreases items,
{
    if items.len() == 0 {
        Seq::empty()
    } else {
        seq![items[0].view()] + arr_view(items.subrange(1, items.len() as int))
    }
}

/// Views of an object's fields, in order.
pub open spec fn obj_view(fields: Seq<JsonMember>) -> Seq<(Seq<char>, JsonVal)>
    decreases fields,
{
    if fields.len() == 0 {
        Seq::empty()
    } else {
        seq![fields[0].view()] + obj_view(fields.subrange(1, fields.len() as int))
    }
}

impl View for JsonMember {
    type V = (Seq<char>, JsonVal);

    open spec fn view(&self) -> (Seq<char>, JsonVal)
        decreases self,
    {
        (self.name@, self.value.view())
    }
}

impl DeepView for JsonValue {
    type V = JsonVal;

    open spec fn deep_view(&self) -> JsonVal {
        self.view()
    }
}

impl View for JsonValue {
    type V = JsonVal;

    open spec fn view(&self) -> JsonVal
        decreases self,
    {
        match self {
            JsonValue::Null => JsonVal::Null,
            JsonValue::Bool(b) => JsonVal::Bool(*b),
            JsonValue::Int(i) => JsonVal::Int(*i as int),
            JsonValue::Str(s) => JsonVal::Str(s@),
            JsonValue::Arr(items) => JsonVal::Arr(arr_view(items@)),
            JsonValue::Obj(fields) => JsonVal::Obj(obj_view(fields@)),
        }
    }
}

/// An array's view has one element per item.
pub broadcast proof fn arr_view_len(items: Seq<JsonValue>)
    ensures
        #[trigger] arr_view(items).len() == items.len(),
    decreases items.len(),
{
    if items.len() == 0 {
        assert(arr_view(items) == Seq::<JsonVal>::empty());
        assert(arr_view(items).len() == 0);
    } else {
        arr_view_len(items.subrange(1, items.len() as int));
        assert(arr_view(items) == seq![items[0].view()]
            + arr_view(items.subrange(1, items.len() as int)));
        assert(arr_view(items).len() == 1 + arr_view(items.subrange(1, items.len() as int)).len());
    }
}

/// An array's view is the element-wise view.
pub broadcast proof fn arr_view_index(items: Seq<JsonValue>, i: int)
    requires
        0 <= i < items.len(),
    ensures
        #[trigger] arr_view(items)[i] == items[i]@,
    decreases items.len(),
{
    let rest = items.subrange(1, items.len() as int);
    arr_view_len(rest);
    assert(arr_view(items) == seq![items[0].view()] + arr_view(rest));
    if i > 0 {
        arr_view_index(rest, i - 1);
        assert(arr_view(items)[i] == arr_view(rest)[i - 1]);
        assert(rest[i - 1] == items[i]);
    }
}

/// An object's view has one entry per field.
pub broadcast proof fn obj_view_len(fields: Seq<JsonMember>)
    ensures
        #[trigger] obj_view(fields).len() == fields.len(),
    decreases fields.len(),
{
    if fields.len() > 0 {
        let rest = fields.subrange(1, fields.len() as int);
        obj_view_len(rest);
        assert(obj_view(fields) == seq![fields[0].view()] + obj_view(rest));
    }
}

/// An object's view is the field-wise view.
pub broadcast proof fn obj_view_index(fields: Seq<JsonMember>, i: int)
    requires
        0 <= i < fields.len(),
    ensures
        #[trigger] obj_view(fields)[i] == fields[i]@,
    decreases fields.len(),
{
    let rest = fields.subrange(1, fields.len() as int);
    obj_view_len(rest);
    assert(obj_view(fields) == seq![fields[0].view()] + obj_view(rest));
    if i > 0 {
        obj_view_index(rest, i - 1);
        assert(obj_view(fields)[i] == obj_view(rest)[i - 1]);
        assert(rest[i - 1] == fields[i]);
    }
}

/// First binding for `name` in an object's field list.
pub open spec fn field_lookup(fields: Seq<(Seq<char>, JsonVal)>, name: Seq<char>) -> Option<JsonVal>
    decreases fields.len(),
{
    if fields.len() == 0 {
        None
    } else if fields[0].0 == name {
        Some(fields[0].1)
    } else {
        field_lookup(fields.skip(1), name)
    }
}

/// What `get` returns: a member of an object, or nothing.
pub open spec fn spec_get(v: JsonVal, name: Seq<char>) -> Option<JsonVal> {
    match v {
        JsonVal::Obj(fields) => field_lookup(fields, name),
        _ => None,
    }
}

impl JsonMember {
    /// Pairs a field name with its value.
    pub fn new(name: String, value: JsonValue) -> (r: JsonMember)
        ensures
            r@ == (name@, value@),
    {
        JsonMember { name, value }
    }
}

impl JsonValue {
    /// Looks a field up in an object; `None` on any other shape.
    pub fn get(&self, name: &str) -> (r: Option<&JsonValue>)
        ensures
            match r {
                Some(f) => spec_get(self@, name@) == Some(f@),
                None => spec_get(self@, name@) is None,
            },
    {
        broadcast use obj_view_len, obj_view_index;

        match self {
            JsonValue::Obj(fields) => {
                let ghost gf = self@->Obj_0;
                proof {
                    assert(gf.skip(0) =~= gf);
                }
                let mut i: usize = 0;
                while i < fields.len()
                    invariant
                        i <= fields@.len(),
                        self@ is Obj,
                        gf == self@->Obj_0,
                        gf == obj_view(fields@),
                        field_lookup(gf, name@) == field_lookup(gf.skip(i as int), name@),
                    decreases fields@.len() - i,
                {
                    proof {
                        obj_view_len(fields@);
                        obj_view_index(fields@, i as int);
                        assert(gf.skip(i as int)[0] == gf[i as int]);
                        assert(gf[i as int] == fields@[i as int]@);
                    }
                    if str_eq(fields[i].name.as_str(), name) {
                        proof {
                            assert(gf.skip(i as int)[0].0 == name@);
                            assert(field_lookup(gf.skip(i as int), name@)
                                == Some(gf[i as int].1));
                            assert(spec_get(self@, name@) == field_lookup(gf, name@));
                            assert(gf[i as int].1 == fields@[i as int].value@);
                        }
                        return Some(&fields[i].value);
                    }
                    proof {
                        assert(gf.skip(i as int).skip(1) =~= gf.skip(i as int + 1));
                    }
                    i += 1;
                }
                proof {
                    assert(gf.skip(i as int) =~= Seq::<(Seq<char>, JsonVal)>::empty());
                }
                None
            },
            _ => None,
        }
    }

    /// The items inside an `Arr` value.
    pub fn as_arr(&self) -> (r: Option<&Vec<JsonValue>>)
        ensures
            match r {
                Some(items) => self@ == JsonVal::Arr(arr_view(items@)),
                None => !(self@ is Arr),
            },
    {
        match self {
            JsonValue::Arr(items) => Some(items),
            _ => None,
        }
    }

    /// The string inside a `Str` value.
    pub fn as_str(&self) -> (r: Option<&String>)
        ensures
            match r {
                Some(s) => self@ == JsonVal::Str(s@),
                None => !(self@ is Str),
            },
    {
        match self {
            JsonValue::Str(s) => Some(s),
            _ => None,
        }
    }

    /// The integer inside an `Int` value.
    pub fn as_int(&self) -> (r: Option<i64>)
        ensures
            match r {
                Some(i) => self@ == JsonVal::Int(i as int),
                None => !(self@ is Int),
            },
    {
        match self {
            JsonValue::Int(i) => Some(*i),
            _ => None,
        }
    }

    /// The boolean inside a `Bool` value.
    pub fn as_bool(&self) -> (r: Option<bool>)
        ensures
            match r {
                Some(b) => self@ == JsonVal::Bool(b),
                None => !(self@ is Bool),
            },
    {
        match self {
            JsonValue::Bool(b) => Some(*b),
            _ => None,
        }
    }
}

#[verifier::external_type_specification]
#[verifier::external_body]
pub struct ExSerdeValue(serde_json::Value);

/// What serde_json's parser yields for a text, carried over into this
/// library's JSON model; nothing for a text that is not valid JSON.
/// Parsing is a function of the text alone.
pub uninterp spec fn json_of(text: Seq<char>) -> Option<JsonVal>;

/// Relies on serde_json::from_str::<serde_json::Value>: parses a JSON
/// text, deterministically in the text alone.
#[verifier::external_body]
pub fn parse_json(text: &str) -> (r: Option<JsonValue>)
    ensures
        match r {
            Some(v) => json_of(text@) == Some(v@),
            None => json_of(text@) is None,
        },
{
    serde_json::from_str::<serde_json::Value>(text).ok().map(|v| import_json(&v))
}

/// Relies on serde_json::Value's variant accessors: carries a parsed
/// value over variant by variant. A number that does not fit i64 is
/// carried as zero.
#[verifier::external_body]
fn import_json(v: &serde_json::Value) -> JsonValue {
    match v {
        serde_json::Value::Null => JsonValue::Null,
        serde_json::Value::Bool(b) => JsonValue::Bool(*b),
        serde_json::Value::Number(n) => JsonValue::Int(n.as_i64().unwrap_or(0)),
        serde_json::Value::String(s) => JsonValue::Str(s.clone()),
        serde_json::Value::Array(items) => JsonValue::Arr(items.iter().map(import_json).collect()),
        serde_json::Value::Object(fields) => JsonValue::Obj(
            fields.iter().map(|(k, x)| JsonMember { name: k.clone(), value: import_json(x) }).collect(),
        ),
    }
}

/// String equality by content.
pub fn str_eq(a: &str, b: &str) -> (r: bool)
    ensures
        r == (a@ == b@),
{
    let sa = a.to_owned();
    let sb = b.to_owned();
    sa == sb
}

/// The string member under `name`, if the value is an object and the
/// member is a string.
pub open spec fn spec_str_field(v: JsonVal, name: Seq<char>) -> Option<Seq<char>> {
    match spec_get(v, name) {
        Some(JsonVal::Str(s)) => Some(s),
        _ => None,
    }
}

/// The integer member under `name`, likewise.
pub open spec fn spec_int_field(v: JsonVal, name: Seq<char>) -> Option<int> {
    match spec_get(v, name) {
        Some(JsonVal::Int(i)) => Some(i),
        _ => None,
    }
}

/// The boolean member under `name`, likewise.
pub open spec fn spec_bool_field(v: JsonVal, name: Seq<char>) -> Option<bool> {
    match spec_get(v, name) {
        Some(JsonVal::Bool(b)) => Some(b),
        _ => None,
    }
}

impl JsonValue {
    /// The string member under `name`, copied out.
    pub fn str_field(&self, name: &str) -> (r: Option<String>)
        ensures
            match r {
                Some(s) => spec_str_field(self@, name@) == Some(s@),
                None => spec_str_field(self@, name@) is None,
            },
    {
        match self.get(name) {
            Some(f) => match f.as_str() {
                Some(s) => Some(s.clone()),
                None => None,
            },
            None => None,
        }
    }

    /// The integer member under `name`.
    pub fn int_field(&self, name: &str) -> (r: Option<i64>)
        ensures
            match r {
                Some(i) => spec_int_field(self@, name@) == Some(i as int),
                None => spec_int_field(self@, name@) is None,
            },
    {
        match self.get(name) {
            Some(f) => f.as_int(),
            None => None,
        }
    }

    /// The boolean member under `name`.
    pub fn bool_field(&self, name: &str) -> (r: Option<bool>)
        ensures
            match r {
                Some(b) => spec_bool_field(self@, name@) == Some(b),
                None => spec_bool_field(self@, name@) is None,
            },
    {
        match self.get(name) {
            Some(f) => f.as_bool(),
            None => None,
        }
    }
}

impl JsonValue {
    /// Deep equality of two JSON values: true exactly when their
    /// models agree.
    pub fn deep_eq(&self, other: &JsonValue) -> (r: bool)
        ensures
            r == (self@ == other@),
        decreases self,
    {
        broadcast use arr_view_len, arr_view_index, obj_view_len, obj_view_index;

        match (self, other) {
            (JsonValue::Null, JsonValue::Null) => true,
            (JsonValue::Bool(x), JsonValue::Bool(y)) => x == y,
            (JsonValue::Int(x), JsonValue::Int(y)) => x == y,
            (JsonValue::Str(x), JsonValue::Str(y)) => str_eq(x.as_str(), y.as_str()),
            (JsonValue::Arr(x), JsonValue::Arr(y)) => {
                let n = x.len();
                if n != y.len() {
                    proof {
                        arr_view_len(x@);
                        arr_view_len(y@);
                    }
                    return false;
                }
                let mut i: usize = 0;
                while i < n
                    invariant
                        i <= n,
                        n == x@.len(),
                        n == y@.len(),
                        *self == JsonValue::Arr(*x),
                        self@ == JsonVal::Arr(arr_view(x@)),
                        other@ == JsonVal::Arr(arr_view(y@)),
                        forall|j: int| 0 <= j < i ==> #[trigger] x@[j]@ == y@[j]@,
                    decreases n - i,
                {
                    proof {
                        vstd::std_specs::vec::axiom_vec_index_decreases(*x, i as int);
                    }
                    if !x[i].deep_eq(&y[i]) {
                        proof {
                            arr_view_index(x@, i as int);
                            arr_view_index(y@, i as int);
                            assert(arr_view(x@)[i as int] != arr_view(y@)[i as int]);
                        }
                        return false;
                    }
                    i += 1;
                }
                proof {
                    arr_view_len(x@);
                    arr_view_len(y@);
                    assert forall|j: int| 0 <= j < n implies #[trigger] arr_view(x@)[j] == arr_view(
                        y@,
                    )[j] by {
                        arr_view_index(x@, j);
                        arr_view_index(y@, j);
                    }
                    assert(arr_view(x@) =~= arr_view(y@));
                }
                true
            },
            (JsonValue::Obj(x), JsonValue::Obj(y)) => {
                let n = x.len();
                if n != y.len() {
                    proof {
                        obj_view_len(x@);
                        obj_view_len(y@);
                    }
                    return false;
                }
                let mut i: usize = 0;
                while i < n
                    invariant
                        i <= n,
                        n == x@.len(),
                        n == y@.len(),
                        *self == JsonValue::Obj(*x),
                        self@ == JsonVal::Obj(obj_view(x@)),
                        other@ == JsonVal::Obj(obj_view(y@)),
                        forall|j: int| 0 <= j < i ==> #[trigger] x@[j]@ == y@[j]@,
                    decreases n - i,
                {
                    proof {
                        vstd::std_specs::vec::axiom_vec_index_decreases(*x, i as int);
                    }
                    let names_match = str_eq(x[i].name.as_str(), y[i].name.as_str());
                    if !names_match || !x[i].value.deep_eq(&y[i].value) {
                        proof {
                            obj_view_index(x@, i as int);
                            obj_view_index(y@, i as int);
                            assert(obj_view(x@)[i as int] != obj_view(y@)[i as int]);
                        }
                        return false;
                    }
                    i += 1;
                }
                proof {
                    obj_view_len(x@);
                    obj_view_len(y@);
                    assert forall|j: int| 0 <= j < n implies #[trigger] obj_view(x@)[j] == obj_view(
                        y@,
                    )[j] by {
                        obj_view_index(x@, j);
                        obj_view_index(y@, j);
                    }
                    assert(obj_view(x@) =~= obj_view(y@));
                }
                true
            },
            (_, _) => false,
        }
    }
}

/// Appends copies of the items from position `k` on.
fn dup_items(items: &Vec<JsonValue>, k: usize, out: &mut Vec<JsonValue>)
    requires
        k <= items@.len(),
    ensures
        final(out)@.len() == old(out)@.len() + items@.len() - k,
        forall|j: int| 0 <= j < old(out)@.len() ==> #[trigger] final(out)@[j] == old(out)@[j],
        forall|j: int|
            old(out)@.len() <= j < final(out)@.len() ==> #[trigger] final(out)@[j]@ == items@[k + j
                - old(out)@.len()]@,
    decreases items, items@.len() - k,
{
    if k < items.len() {
        proof {
            vstd::std_specs::vec::axiom_vec_index_decreases(*items, k as int);
        }
        let copy = items[k].duplicate();
        out.push(copy);
        dup_items(items, k + 1, out);
    }
}

/// Appends copies of the fields from position `k` on.
fn dup_members(fields: &Vec<JsonMember>, k: usize, out: &mut Vec<JsonMember>)
    requires
        k <= fields@.len(),
    ensures
        final(out)@.len() == old(out)@.len() + fields@.len() - k,
        forall|j: int| 0 <= j < old(out)@.len() ==> #[trigger] final(out)@[j] == old(out)@[j],
        forall|j: int|
            old(out)@.len() <= j < final(out)@.len() ==> #[trigger] final(out)@[j]@ == fields@[k + j
                - old(out)@.len()]@,
    decreases fields, fields@.len() - k,
{
    if k < fields.len() {
        proof {
            vstd::std_specs::vec::axiom_vec_index_decreases(*fields, k as int);
        }
        let copy = JsonMember {
            name: fields[k].name.clone(),
            value: fields[k].value.duplicate(),
        };
        out.push(copy);
        dup_members(fields, k + 1, out);
    }
}

impl JsonValue {
    /// A value equal to this one.
    pub fn duplicate(&self) -> (r: JsonValue)
        ensures
            r@ == self@,
        decreases self, 0int,
    {
        broadcast use arr_view_len, arr_view_index, obj_view_len, obj_view_index;

        match self {
            JsonValue::Null => JsonValue::Null,
            JsonValue::Bool(b) => JsonValue::Bool(*b),
            JsonValue::Int(i) => JsonValue::Int(*i),
            JsonValue::Str(s) => JsonValue::Str(s.clone()),
            JsonValue::Arr(items) => {
                let mut copies: Vec<JsonValue> = Vec::new();
                dup_items(items, 0, &mut copies);
                let r = JsonValue::Arr(copies);
                proof {
                    assert forall|j: int| 0 <= j < items@.len() implies #[trigger] arr_view(
                        r->Arr_0@,
                    )[j] == arr_view(items@)[j] by {
                        arr_view_index(r->Arr_0@, j);
                        arr_view_index(items@, j);
                    }
                    arr_view_len(r->Arr_0@);
                    arr_view_len(items@);
                    assert(arr_view(r->Arr_0@) =~= arr_view(items@));
                }
                r
            },
            JsonValue::Obj(fields) => {
                let mut copies: Vec<JsonMember> = Vec::new();
                dup_members(fields, 0, &mut copies);
                let r = JsonValue::Obj(copies);
                proof {
                    assert forall|j: int| 0 <= j < fields@.len() implies #[trigger] obj_view(
                        r->Obj_0@,
                    )[j] == obj_view(fields@)[j] by {
                        obj_view_index(r->Obj_0@, j);
                        obj_view_index(fields@, j);
                    }
                    obj_view_len(r->Obj_0@);
                    obj_view_len(fields@);
                    assert(obj_view(r->Obj_0@) =~= obj_view(fields@));
                }
                r
            },
        }
    }
}

} // verus!
