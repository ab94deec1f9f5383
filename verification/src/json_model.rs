//! A structured (JSON-like) value: the shape of tool-call arguments, of the
//! request body sent to the completion endpoint, and of its reply.
//!
//! The executable type `JsonVal` holds the data as plain values; its view is
//! the mathematical `JsonSpec`, which the contracts speak of.

use vstd::prelude::*;

verus! {

broadcast use vstd::std_specs::vec::axiom_vec_index_decreases;

/// A structured document: object / array / scalar tree.
/// Numbers are carried as their literal text, so that a value read off the
/// wire can be passed through unchanged.
pub enum JsonVal {
    Null,
    Bool(bool),
    Num(String),
    Str(String),
    Arr(Vec<JsonVal>),
    Obj(Vec<(String, JsonVal)>),
}

/// The mathematical model of a `JsonVal`.
#[verifier::ext_equal]
pub enum JsonSpec {
    Null,
    Bool(bool),
    Num(Seq<char>),
    Str(Seq<char>),
    Arr(Seq<JsonSpec>),
    Obj(Seq<(Seq<char>, JsonSpec)>),
}

pub open spec fn json_view(v: JsonVal) -> JsonSpec
    decreases v,
{
    match v {
        JsonVal::Null => JsonSpec::Null,
        JsonVal::Bool(b) => JsonSpec::Bool(b),
        JsonVal::Num(s) => JsonSpec::Num(s@),
        JsonVal::Str(s) => JsonSpec::Str(s@),
        JsonVal::Arr(a) => JsonSpec::Arr(json_view_vec(a)),
        JsonVal::Obj(m) => JsonSpec::Obj(json_view_fields(m)),
    }
}

pub open spec fn json_view_vec(a: Vec<JsonVal>) -> Seq<JsonSpec>
    decreases a,
{
    Seq::new(
        a@.len(),
        |i: int|
            if 0 <= i < a@.len() {
                json_view(a[i])
            } else {
                JsonSpec::Null
            },
    )
}

pub open spec fn json_view_fields(m: Vec<(String, JsonVal)>) -> Seq<(Seq<char>, JsonSpec)>
    decreases m,
{
    Seq::new(
        m@.len(),
        |i: int|
            if 0 <= i < m@.len() {
                json_view_field(m[i])
            } else {
                (Seq::empty(), JsonSpec::Null)
            },
    )
}

pub open spec fn json_view_field(e: (String, JsonVal)) -> (Seq<char>, JsonSpec)
    decreases e,
{
    (e.0@, json_view(e.1))
}

impl View for JsonVal {
    type V = JsonSpec;

    open spec fn view(&self) -> JsonSpec {
        json_view(*self)
    }
}

impl Clone for JsonVal {
    /// A clone models the same document.
    fn clone(&self) -> (r: Self)
        ensures
            r@ == self@,
    {
        clone_json(self)
    }
}

/// A deep copy of a structured value.
pub fn clone_json(v: &JsonVal) -> (r: JsonVal)
    ensures
        r@ == v@,
    decreases *v,
{
    match v {
        JsonVal::Null => JsonVal::Null,
        JsonVal::Bool(b) => JsonVal::Bool(*b),
        JsonVal::Num(s) => JsonVal::Num(s.clone()),
        JsonVal::Str(s) => JsonVal::Str(s.clone()),
        JsonVal::Arr(a) => {
            let out = clone_json_vec(a);
            let r = JsonVal::Arr(out);
            proof {
                let s1 = r@->Arr_0;
                let s2 = v@->Arr_0;
                assert forall|j: int| 0 <= j < s1.len() implies s1[j] == s2[j] by {
                    assert(out[j]@ == a[j]@);
                }
                assert(s1 =~= s2);
            }
            r
        },
        JsonVal::Obj(m) => {
            let out = clone_json_fields(m);
            let r = JsonVal::Obj(out);
            proof {
                let s1 = r@->Obj_0;
                let s2 = v@->Obj_0;
                assert forall|j: int| 0 <= j < s1.len() implies s1[j] == s2[j] by {
                    assert(s1.len() == out@.len());
                    assert(s1[j] == json_view_field(out@[j]));
                    assert(s2[j] == json_view_field(m@[j]));
                    assert(out[j].0@ == m[j].0@ && out[j].1@ == m[j].1@);
                    assert(json_view_field(out@[j]).0 == json_view_field(m@[j]).0);
                    assert(json_view_field(out@[j]).1 == json_view_field(m@[j]).1);
                }
                assert(s1 =~= s2);
            }
            r
        },
    }
}

/// A deep copy of each element of an array.
fn clone_json_vec(a: &Vec<JsonVal>) -> (out: Vec<JsonVal>)
    ensures
        out.len() == a.len(),
        forall|j: int| 0 <= j < a.len() ==> out[j]@ == a[j]@,
    decreases *a,
{
    let mut out: Vec<JsonVal> = Vec::new();
    let mut i: usize = 0;
    while i < a.len()
        invariant
            i <= a.len(),
            out.len() == i,
            forall|j: int| 0 <= j < i ==> out[j]@ == a[j]@,
        decreases a.len() - i,
    {
        out.push(clone_json(&a[i]));
        i += 1;
    }
    out
}

/// A deep copy of each field of an object.
fn clone_json_fields(m: &Vec<(String, JsonVal)>) -> (out: Vec<(String, JsonVal)>)
    ensures
        out.len() == m.len(),
        forall|j: int| 0 <= j < m.len() ==> out[j].0@ == m[j].0@ && out[j].1@ == m[j].1@,
    decreases *m,
{
    let mut out: Vec<(String, JsonVal)> = Vec::new();
    let mut i: usize = 0;
    while i < m.len()
        invariant
            i <= m.len(),
            out.len() == i,
            forall|j: int| 0 <= j < i ==> out[j].0@ == m[j].0@ && out[j].1@ == m[j].1@,
        decreases m.len() - i,
    {
        let entry = clone_json_field(&m[i]);
        out.push(entry);
        i += 1;
    }
    out
}

/// A deep copy of one field of an object.
fn clone_json_field(e: &(String, JsonVal)) -> (out: (String, JsonVal))
    ensures
        out.0@ == e.0@ && out.1@ == e.1@,
    decreases *e,
{
    (e.0.clone(), clone_json(&e.1))
}

/// The view of an object's field vector, element by element.
pub proof fn lemma_obj_fields_view(m: Vec<(String, JsonVal)>)
    ensures
        json_view_fields(m).len() == m@.len(),
        forall|j: int| 0 <= j < m@.len() ==> json_view_fields(m)[j] == (m@[j].0@, m@[j].1@),
{
    assert forall|j: int| 0 <= j < m@.len() implies json_view_fields(m)[j] == (
        m@[j].0@,
        m@[j].1@,
    ) by {
        assert(json_view_fields(m)[j] == json_view_field(m@[j]));
    }
}

/// The view of an array's element vector, element by element.
pub proof fn lemma_arr_view(a: Vec<JsonVal>)
    ensures
        json_view_vec(a).len() == a@.len(),
        forall|j: int| 0 <= j < a@.len() ==> json_view_vec(a)[j] == a@[j]@,
{
    assert forall|j: int| 0 <= j < a@.len() implies json_view_vec(a)[j] == a@[j]@ by {
        assert(json_view_vec(a)[j] == json_view(a@[j]));
    }
}

/// Pushing onto a vector appends to its deep view.
pub proof fn lemma_push_deep_view<T: DeepView>(v: Vec<T>, x: T, w: Vec<T>)
    requires
        w@ == v@.push(x),
    ensures
        w.deep_view() =~= v.deep_view().push(x.deep_view()),
{
    assert forall|j: int| 0 <= j < w@.len() implies w.deep_view()[j] == v.deep_view().push(
        x.deep_view(),
    )[j] by {
        assert(w.deep_view()[j] == w@[j].deep_view());
        if j < v@.len() {
            assert(v.deep_view()[j] == v@[j].deep_view());
        }
    }
}

/// The first binding of key `k` among the fields of an object, if any.
pub open spec fn obj_get(fields: Seq<(Seq<char>, JsonSpec)>, k: Seq<char>) -> Option<JsonSpec>
    decreases fields.len(),
{
    if fields.len() == 0 {
        None
    } else if fields[0].0 == k {
        Some(fields[0].1)
    } else {
        obj_get(fields.drop_first(), k)
    }
}

/// Looking a key up in a value: `None` unless the value is an object with
/// that key among its fields.
pub open spec fn jget(v: JsonSpec, k: Seq<char>) -> Option<JsonSpec> {
    match v {
        JsonSpec::Obj(fields) => obj_get(fields, k),
        _ => None,
    }
}

/// The text of a string value, if the lookup found one.
pub open spec fn jstr(v: Option<JsonSpec>) -> Option<Seq<char>> {
    match v {
        Some(JsonSpec::Str(s)) => Some(s),
        _ => None,
    }
}

/// String comparison, specified over the character sequences.
pub fn str_eq(a: &str, b: &str) -> (r: bool)
    ensures
        r == (a@ == b@),
{
    let sa: String = a.to_owned();
    let sb: String = b.to_owned();
    sa == sb
}

/// Looks `key` up in `v`: the executable form of `jget`.
pub fn get_field<'a>(v: &'a JsonVal, key: &str) -> (r: Option<&'a JsonVal>)
    ensures
        match r {
            Some(f) => jget(v@, key@) == Some(f@),
            None => jget(v@, key@) is None,
        },
{
    match v {
        JsonVal::Obj(m) => {
            let ghost fields = v@->Obj_0;
            proof {
                assert(fields.skip(0) =~= fields);
                assert forall|j: int| 0 <= j < m.len() implies fields[j] == (m[j].0@, m[j].1@) by {
                    assert(fields[j] == json_view_field(m@[j]));
                }
            }
            let mut i: usize = 0;
            while i < m.len()
                invariant
                    i <= m.len(),
                    *v matches JsonVal::Obj(mm) && mm == *m,
                    fields == v@->Obj_0,
                    v@ is Obj,
                    fields.len() == m.len(),
                    forall|j: int|
                        0 <= j < m.len() ==> fields[j] == (m[j].0@, m[j].1@),
                    obj_get(fields, key@) == obj_get(fields.skip(i as int), key@),
                decreases m.len() - i,
            {
                proof {
                    assert(fields.skip(i as int)[0] == fields[i as int]);
                }
                if str_eq(m[i].0.as_str(), key) {
                    return Some(&m[i].1);
                }
                proof {
                    assert(fields.skip(i as int).drop_first() =~= fields.skip(i as int + 1));
                }
                i += 1;
            }
            proof {
                assert(fields.skip(m.len() as int) =~= Seq::<(Seq<char>, JsonSpec)>::empty());
            }
            None
        },
        _ => None,
    }
}

/// A string value.
pub fn sval(s: &str) -> (r: JsonVal)
    ensures
        r@ == JsonSpec::Str(s@),
{
    JsonVal::Str(s.to_owned())
}

/// An array of one element.
pub fn arr1(v: JsonVal) -> (r: JsonVal)
    ensures
        r@ == JsonSpec::Arr(seq![v@]),
{
    let mut a: Vec<JsonVal> = Vec::new();
    a.push(v);
    let r = JsonVal::Arr(a);
    proof {
        lemma_arr_view(a);
        assert(json_view_vec(a) =~= seq![v@]);
    }
    r
}

/// An object of one field.
pub fn obj1(k1: &str, v1: JsonVal) -> (r: JsonVal)
    ensures
        r@ == JsonSpec::Obj(seq![(k1@, v1@)]),
{
    let mut m: Vec<(String, JsonVal)> = Vec::new();
    m.push((k1.to_owned(), v1));
    let r = JsonVal::Obj(m);
    proof {
        lemma_obj_fields_view(m);
        assert(json_view_fields(m) =~= seq![(k1@, v1@)]);
    }
    r
}

/// An object of two fields, in order.
pub fn obj2(k1: &str, v1: JsonVal, k2: &str, v2: JsonVal) -> (r: JsonVal)
    ensures
        r@ == JsonSpec::Obj(seq![(k1@, v1@), (k2@, v2@)]),
{
    let mut m: Vec<(String, JsonVal)> = Vec::new();
    m.push((k1.to_owned(), v1));
    m.push((k2.to_owned(), v2));
    let r = JsonVal::Obj(m);
    proof {
        lemma_obj_fields_view(m);
        assert(json_view_fields(m) =~= seq![(k1@, v1@), (k2@, v2@)]);
    }
    r
}

/// An object of three fields, in order.
pub fn obj3(k1: &str, v1: JsonVal, k2: &str, v2: JsonVal, k3: &str, v3: JsonVal) -> (r: JsonVal)
    ensures
        r@ == JsonSpec::Obj(seq![(k1@, v1@), (k2@, v2@), (k3@, v3@)]),
{
    let mut m: Vec<(String, JsonVal)> = Vec::new();
    m.push((k1.to_owned(), v1));
    m.push((k2.to_owned(), v2));
    m.push((k3.to_owned(), v3));
    let r = JsonVal::Obj(m);
    proof {
        lemma_obj_fields_view(m);
        assert(json_view_fields(m) =~= seq![(k1@, v1@), (k2@, v2@), (k3@, v3@)]);
    }
    r
}

/// The borrowed text of a string value: the executable form of `jstr`
/// applied to the value itself.
pub fn as_text<'a>(v: &'a JsonVal) -> (r: Option<&'a String>)
    ensures
        match r {
            Some(s) => v@ == JsonSpec::Str(s@),
            None => !(v@ is Str),
        },
{
    match v {
        JsonVal::Str(s) => Some(s),
        _ => None,
    }
}

} // verus!
