//! A plain model of the JSON values that requests and stored snapshots carry,
//! and typed field access on JSON objects.
use vstd::prelude::*;

verus! {

/// A JSON value. Numbers are kept as unsigned or negative integers; a number
/// with a fraction or an exponent is only marked as such.
#[derive(Debug)]
pub enum JsonValue {
    Null,
    Bool(bool),
    U64(u64),
    I64(i64),
    Float,
    Str(String),
    Array(Vec<JsonValue>),
    Object(JsonMap),
}

/// A JSON object as its entries in order. A later entry for a key shadows an
/// earlier one.
#[derive(Debug)]
pub struct JsonMap {
    pub entries: Vec<(String, JsonValue)>,
}

/// The value that `entries` holds for `key`: the one of its last entry with
/// that key.
pub open spec fn lookup(entries: Seq<(String, JsonValue)>, key: Seq<char>) -> Option<JsonValue>
    decreases entries.len(),
{
    if entries.len() == 0 {
        None
    } else if entries.last().0@ == key {
        Some(entries.last().1)
    } else {
        lookup(entries.drop_last(), key)
    }
}

/// Whether `b` holds the same JSON as `a`: the same kind, the same text
/// and numbers, and items and entries that are the same in turn.
pub open spec fn same_value(a: JsonValue, b: JsonValue) -> bool
    decreases a,
{
    match a {
        JsonValue::Str(x) => b matches JsonValue::Str(y) && x@ == y@,
        JsonValue::Array(x) => b matches JsonValue::Array(y) && x@.len() == y@.len() && forall|i: int|
            0 <= i < x@.len() ==> same_value(#[trigger] x@[i], y@[i]),
        JsonValue::Object(x) => b matches JsonValue::Object(y) && x.entries@.len() == y.entries@.len()
            && forall|i: int|
            0 <= i < x.entries@.len() ==> (#[trigger] x.entries@[i]).0@ == y.entries@[i].0@ && same_value(
                x.entries@[i].1,
                y.entries@[i].1,
            ),
        _ => a == b,
    }
}

impl JsonValue {
    /// A copy of the value.
    pub fn copy(&self) -> (r: JsonValue)
        ensures
            same_value(*self, r),
        decreases self,
    {
        match self {
            JsonValue::Null => JsonValue::Null,
            JsonValue::Bool(b) => JsonValue::Bool(*b),
            JsonValue::U64(n) => JsonValue::U64(*n),
            JsonValue::I64(n) => JsonValue::I64(*n),
            JsonValue::Float => JsonValue::Float,
            JsonValue::Str(s) => JsonValue::Str(s.clone()),
            JsonValue::Array(items) => JsonValue::Array(copy_items(items)),
            JsonValue::Object(m) => JsonValue::Object(JsonMap { entries: copy_entries(&m.entries) }),
        }
    }
}

/// A copy of a list of values.
fn copy_items(v: &Vec<JsonValue>) -> (r: Vec<JsonValue>)
    ensures
        r@.len() == v@.len(),
        forall|i: int| 0 <= i < v@.len() ==> same_value(#[trigger] v@[i], r@[i]),
    decreases v,
{
    broadcast use vstd::std_specs::vec::group_vec_axioms;
    let mut out: Vec<JsonValue> = Vec::new();
    let mut i: usize = 0;
    while i < v.len()
        invariant
            i <= v@.len(),
            out@.len() == i,
            forall|j: int| 0 <= j < i ==> same_value(#[trigger] v@[j], out@[j]),
        decreases v@.len() - i,
    {
        assert(decreases_to!(v => v[i as int]));
        out.push(v[i].copy());
        i = i + 1;
    }
    out
}

/// A copy of a list of object entries.
fn copy_entries(v: &Vec<(String, JsonValue)>) -> (r: Vec<(String, JsonValue)>)
    ensures
        r@.len() == v@.len(),
        forall|i: int|
            0 <= i < v@.len() ==> (#[trigger] v@[i]).0@ == r@[i].0@ && same_value(v@[i].1, r@[i].1),
    decreases v,
{
    broadcast use vstd::std_specs::vec::group_vec_axioms;
    let mut out: Vec<(String, JsonValue)> = Vec::new();
    let mut i: usize = 0;
    while i < v.len()
        invariant
            i <= v@.len(),
            out@.len() == i,
            forall|j: int|
                0 <= j < i ==> (#[trigger] v@[j]).0@ == out@[j].0@ && same_value(v@[j].1, out@[j].1),
        decreases v@.len() - i,
    {
        assert(decreases_to!(v => v[i as int]));
        let e = (v[i].0.clone(), v[i].1.copy());
        out.push(e);
        i = i + 1;
    }
    out
}

impl JsonMap {
    pub open spec fn get_spec(&self, key: Seq<char>) -> Option<JsonValue> {
        lookup(self.entries@, key)
    }

    /// An object with no entries.
    pub fn new() -> (r: JsonMap)
        ensures
            r.entries@.len() == 0,
    {
        JsonMap { entries: Vec::new() }
    }

    /// Sets `key` to `value`.
    pub fn insert(&mut self, key: String, value: JsonValue)
        ensures
            final(self).entries@ == old(self).entries@.push((key, value)),
    {
        self.entries.push((key, value));
    }

    /// The value held for `key`, if any.
    pub fn get(&self, key: &str) -> (r: Option<&JsonValue>)
        ensures
            r matches Some(v) ==> self.get_spec(key@) == Some(*v),
            r is None ==> self.get_spec(key@) is None,
    {
        let k = String::from_str(key);
        let mut found: Option<&JsonValue> = None;
        let mut i: usize = 0;
        while i < self.entries.len()
            invariant
                i <= self.entries@.len(),
                k@ == key@,
                found matches Some(v) ==> lookup(self.entries@.subrange(0, i as int), key@) == Some(*v),
                found is None ==> lookup(self.entries@.subrange(0, i as int), key@) is None,
            decreases self.entries@.len() - i,
        {
            proof {
                assert(self.entries@.subrange(0, i + 1).drop_last() =~= self.entries@.subrange(0, i as int));
            }
            if self.entries[i].0 == k {
                found = Some(&self.entries[i].1);
            }
            i = i + 1;
        }
        assert(self.entries@.subrange(0, i as int) =~= self.entries@);
        found
    }
}

/// The message for a field that is absent.
pub open spec fn missing_msg(name: Seq<char>) -> Seq<char> {
    name + " does not exist"@
}

/// The message for a field of the wrong kind; `kind` reads e.g. ` is not str`.
pub open spec fn kind_msg(name: Seq<char>, kind: Seq<char>) -> Seq<char> {
    name + kind
}

/// The name of the kind of a value.
pub open spec fn kind_name(v: JsonValue) -> Seq<char> {
    match v {
        JsonValue::Str(_) => "string"@,
        JsonValue::U64(_) => "u64"@,
        JsonValue::I64(_) => "i64"@,
        JsonValue::Float => "f64"@,
        JsonValue::Object(_) => "object"@,
        JsonValue::Array(_) => "array"@,
        JsonValue::Bool(_) => "bool"@,
        JsonValue::Null => "null"@,
    }
}

/// The text of field `name` of `m`, or the message that reading it gives.
pub open spec fn str_field(m: JsonMap, name: Seq<char>) -> Result<Seq<char>, Seq<char>> {
    match m.get_spec(name) {
        None => Err(missing_msg(name)),
        Some(JsonValue::Str(s)) => Ok(s@),
        Some(_) => Err(kind_msg(name, " is not str"@)),
    }
}

/// The unsigned integer of field `name` of `m`, or the message that reading it
/// gives.
pub open spec fn u64_field(m: JsonMap, name: Seq<char>) -> Result<u64, Seq<char>> {
    match m.get_spec(name) {
        None => Err(missing_msg(name)),
        Some(JsonValue::U64(n)) => Ok(n),
        Some(_) => Err(kind_msg(name, " is not u64"@)),
    }
}

/// The texts of the items of `a`, where every item is a string.
pub open spec fn str_items(a: Seq<JsonValue>) -> Option<Seq<Seq<char>>> {
    if forall|i: int| 0 <= i < a.len() ==> (#[trigger] a[i]) is Str {
        Some(a.map_values(|x: JsonValue| x->Str_0@))
    } else {
        None
    }
}

/// The texts of the array field `name` of `m`, or the message that reading it
/// gives.
pub open spec fn str_list_field(m: JsonMap, name: Seq<char>) -> Result<Seq<Seq<char>>, Seq<char>> {
    match m.get_spec(name) {
        None => Err(missing_msg(name)),
        Some(JsonValue::Array(a)) => match str_items(a@) {
            Some(items) => Ok(items),
            None => Err(kind_msg(name, " is not str array"@)),
        },
        Some(_) => Err(kind_msg(name, " is not array"@)),
    }
}

/// The views of a sequence of strings.
pub open spec fn views(v: Seq<String>) -> Seq<Seq<char>> {
    v.map_values(|s: String| s@)
}

/// Field `name` of `params`, or an error when it is absent.
pub fn unwrap<'a>(params: &'a JsonMap, name: &str) -> (r: Result<&'a JsonValue, String>)
    ensures
        r matches Ok(v) ==> params.get_spec(name@) == Some(*v),
        r matches Err(m) ==> params.get_spec(name@) is None && m@ == missing_msg(name@),
{
    match params.get(name) {
        None => {
            let mut m = String::from_str(name);
            m.append(" does not exist");
            Err(m)
        },
        Some(v) => Ok(v),
    }
}

/// The message `name` followed by `kind`.
fn kind_error(name: &str, kind: &str) -> (r: String)
    ensures
        r@ == kind_msg(name@, kind@),
{
    let mut m = String::from_str(name);
    m.append(kind);
    m
}

/// String field `name` of `params`.
pub fn get_str<'a>(params: &'a JsonMap, name: &str) -> (r: Result<&'a str, String>)
    ensures
        r matches Ok(s) ==> str_field(*params, name@) == Ok::<Seq<char>, Seq<char>>(s@),
        r matches Err(m) ==> str_field(*params, name@) == Err::<Seq<char>, Seq<char>>(m@),
{
    match unwrap(params, name) {
        Err(m) => Err(m),
        Ok(JsonValue::Str(s)) => Ok(s.as_str()),
        Ok(_) => Err(kind_error(name, " is not str")),
    }
}

/// String field `name` of `params`, copied.
pub fn get_string(params: &JsonMap, name: &str) -> (r: Result<String, String>)
    ensures
        r matches Ok(s) ==> str_field(*params, name@) == Ok::<Seq<char>, Seq<char>>(s@),
        r matches Err(m) ==> str_field(*params, name@) == Err::<Seq<char>, Seq<char>>(m@),
{
    match get_str(params, name) {
        Ok(s) => Ok(String::from_str(s)),
        Err(m) => Err(m),
    }
}

/// Unsigned integer field `name` of `params`.
pub fn get_u64(params: &JsonMap, name: &str) -> (r: Result<u64, String>)
    ensures
        r matches Ok(n) ==> u64_field(*params, name@) == Ok::<u64, Seq<char>>(n),
        r matches Err(m) ==> u64_field(*params, name@) == Err::<u64, Seq<char>>(m@),
{
    match unwrap(params, name) {
        Err(m) => Err(m),
        Ok(JsonValue::U64(n)) => Ok(*n),
        Ok(_) => Err(kind_error(name, " is not u64")),
    }
}

/// Object field `name` of `params`.
pub fn get_object<'a>(params: &'a JsonMap, name: &str) -> (r: Result<&'a JsonMap, String>)
    ensures
        r matches Ok(o) ==> params.get_spec(name@) == Some(JsonValue::Object(*o)),
        r matches Err(m) ==> match params.get_spec(name@) {
            None => m@ == missing_msg(name@),
            Some(v) => !(v is Object) && m@ == kind_msg(name@, " is not object"@),
        },
{
    match unwrap(params, name) {
        Err(m) => Err(m),
        Ok(JsonValue::Object(o)) => Ok(o),
        Ok(_) => Err(kind_error(name, " is not object")),
    }
}

/// Array field `name` of `params`.
pub fn get_array<'a>(params: &'a JsonMap, name: &str) -> (r: Result<&'a Vec<JsonValue>, String>)
    ensures
        r matches Ok(a) ==> params.get_spec(name@) == Some(JsonValue::Array(*a)),
        r matches Err(m) ==> match params.get_spec(name@) {
            None => m@ == missing_msg(name@),
            Some(v) => !(v is Array) && m@ == kind_msg(name@, " is not array"@),
        },
{
    match unwrap(params, name) {
        Err(m) => Err(m),
        Ok(JsonValue::Array(a)) => Ok(a),
        Ok(_) => Err(kind_error(name, " is not array")),
    }
}

/// The texts of array field `name` of `params`, whose items must all be
/// strings.
pub fn get_string_vec(params: &JsonMap, name: &str) -> (r: Result<Vec<String>, String>)
    ensures
        r matches Ok(v) ==> str_list_field(*params, name@) == Ok::<Seq<Seq<char>>, Seq<char>>(views(v@)),
        r matches Err(m) ==> str_list_field(*params, name@) == Err::<Seq<Seq<char>>, Seq<char>>(m@),
{
    let a = match get_array(params, name) {
        Err(m) => { return Err(m); },
        Ok(a) => a,
    };
    let mut out: Vec<String> = Vec::new();
    let mut i: usize = 0;
    while i < a.len()
        invariant
            params.get_spec(name@) == Some(JsonValue::Array(*a)),
            i <= a@.len(),
            out@.len() == i,
            forall|j: int| 0 <= j < i ==> (#[trigger] a@[j]) is Str && out@[j]@ == a@[j]->Str_0@,
        decreases a@.len() - i,
    {
        match &a[i] {
            JsonValue::Str(s) => out.push(s.clone()),
            _ => {
                proof {
                    assert(!(a@[i as int] is Str));
                    assert(str_items(a@) is None);
                }
                return Err(kind_error(name, " is not str array"));
            },
        }
        i = i + 1;
    }
    assert(views(out@) =~= a@.map_values(|x: JsonValue| x->Str_0@));
    Ok(out)
}

/// The message for a name that `pick` does not find.
pub open spec fn not_member_msg(name: Seq<char>) -> Seq<char> {
    name + " does not belong to map"@
}

/// The fields `names` of `params`, copied into a new object in that order.
/// Fails on the first name that `params` does not hold.
pub fn pick(params: &JsonMap, names: Vec<&str>) -> (r: Result<JsonMap, String>)
    ensures
        r is Ok <==> forall|i: int| 0 <= i < names@.len() ==> params.get_spec((#[trigger] names@[i])@) is Some,
        r matches Ok(m) ==> {
            &&& m.entries@.len() == names@.len()
            &&& forall|i: int|
                0 <= i < names@.len() ==> (#[trigger] m.entries@[i]).0@ == names@[i]@ && same_value(
                    params.get_spec(names@[i]@)->Some_0,
                    m.entries@[i].1,
                )
        },
        r matches Err(msg) ==> exists|i: int|
            0 <= i < names@.len() && params.get_spec((#[trigger] names@[i])@) is None && msg@ == not_member_msg(
                names@[i]@,
            ) && forall|j: int| 0 <= j < i ==> params.get_spec((#[trigger] names@[j])@) is Some,
{
    let mut values = JsonMap::new();
    let mut i: usize = 0;
    while i < names.len()
        invariant
            i <= names@.len(),
            values.entries@.len() == i,
            forall|j: int| 0 <= j < i ==> params.get_spec((#[trigger] names@[j])@) is Some,
            forall|j: int|
                0 <= j < i ==> (#[trigger] values.entries@[j]).0@ == names@[j]@ && same_value(
                    params.get_spec(names@[j]@)->Some_0,
                    values.entries@[j].1,
                ),
        decreases names@.len() - i,
    {
        let name = names[i];
        match params.get(name) {
            None => {
                let mut m = String::from_str(name);
                m.append(" does not belong to map");
                return Err(m);
            },
            Some(v) => {
                values.insert(String::from_str(name), v.copy());
            },
        }
        i = i + 1;
    }
    Ok(values)
}

/// The name of the kind of `value`.
pub fn get_type(value: &JsonValue) -> (r: Result<String, String>)
    ensures
        r matches Ok(t) && t@ == kind_name(*value),
{
    let t = match value {
        JsonValue::Str(_) => "string",
        JsonValue::U64(_) => "u64",
        JsonValue::I64(_) => "i64",
        JsonValue::Float => "f64",
        JsonValue::Object(_) => "object",
        JsonValue::Array(_) => "array",
        JsonValue::Bool(_) => "bool",
        JsonValue::Null => "null",
    };
    Ok(String::from_str(t))
}

} // verus!
