use vstd::prelude::*;

verus! {

/// A JSON value tree: the dynamically typed model of a parsed document.
///
/// An object keeps its entries in document order. Keys are not deduplicated
/// at this level; a lookup takes the first entry with a matching key.
#[derive(Debug)]
pub enum Json {
    Null,
    Bool(bool),
    /// A JSON number. Carries the value when the number is an integer that
    /// fits in `i64`; any other number is kept only as an opaque marker,
    /// since nothing in this library reads non-integer numbers.
    Num(Option<i64>),
    Str(String),
    Arr(Vec<Json>),
    Obj(Vec<(String, Json)>),
}

/// The entry sequence of an object; empty for every other variant.
pub open spec fn entries_of(v: Json) -> Seq<(String, Json)> {
    match v {
        Json::Obj(es) => es@,
        _ => Seq::empty(),
    }
}

/// The character sequence of a string value; empty for every other variant.
pub open spec fn chars_of(v: Json) -> Seq<char> {
    match v {
        Json::Str(s) => s@,
        _ => Seq::empty(),
    }
}

/// The element sequence of an array value; empty for every other variant.
pub open spec fn elems_of(v: Json) -> Seq<Json> {
    match v {
        Json::Arr(a) => a@,
        _ => Seq::empty(),
    }
}

/// The first value stored under `key`, scanning the entries in order.
pub open spec fn lookup_spec(entries: Seq<(String, Json)>, key: Seq<char>) -> Option<Json>
    decreases entries.len(),
{
    if entries.len() == 0 {
        None
    } else if entries[0].0@ == key {
        Some(entries[0].1)
    } else {
        lookup_spec(entries.drop_first(), key)
    }
}

/// The character sequences of the string elements of `elems`, in order;
/// a non-string element contributes nothing.
pub open spec fn string_values(elems: Seq<Json>) -> Seq<Seq<char>>
    decreases elems.len(),
{
    if elems.len() == 0 {
        Seq::empty()
    } else {
        string_values(elems.drop_last()) + (match elems.last() {
            Json::Str(s) => seq![s@],
            _ => Seq::empty(),
        })
    }
}

/// Projects a JSON array onto its string elements, keeping their order and
/// silently dropping every element that is not a string.
pub fn extract_strings(elems: &Vec<Json>) -> (r: Vec<String>)
    ensures
        r@.map_values(|s: String| s@) == string_values(elems@),
{
    let mut out: Vec<String> = Vec::new();
    let n = elems.len();
    proof {
        assert(elems@.take(0) =~= Seq::<Json>::empty());
    }
    for i in 0..n
        invariant
            n == elems@.len(),
            out@.map_values(|s: String| s@) == string_values(elems@.take(i as int)),
    {
        match &elems[i] {
            Json::Str(s) => {
                out.push(s.clone());
            },
            _ => {},
        }
        proof {
            assert(elems@.take(i + 1).drop_last() =~= elems@.take(i as int));
            assert(elems@.take(i + 1).last() == elems@[i as int]);
            assert(out@.map_values(|s: String| s@) =~= string_values(elems@.take(i + 1)));
        }
    }
    proof {
        assert(elems@.take(n as int) =~= elems@);
    }
    out
}

/// Finds the first entry whose key equals `key`.
pub fn lookup<'a>(entries: &'a Vec<(String, Json)>, key: &String) -> (r: Option<&'a Json>)
    ensures
        r is Some <==> lookup_spec(entries@, key@) is Some,
        r matches Some(j) ==> lookup_spec(entries@, key@) == Some(*j),
{
    let n = entries.len();
    proof {
        assert(entries@.skip(0) =~= entries@);
    }
    for i in 0..n
        invariant
            n == entries@.len(),
            lookup_spec(entries@, key@) == lookup_spec(entries@.skip(i as int), key@),
    {
        if entries[i].0.eq(key) {
            proof {
                assert(entries@.skip(i as int)[0] == entries@[i as int]);
            }
            return Some(&entries[i].1);
        }
        proof {
            assert(entries@.skip(i as int).drop_first() =~= entries@.skip(i + 1));
        }
    }
    proof {
        assert(entries@.skip(n as int) =~= Seq::<(String, Json)>::empty());
    }
    None
}

} // verus!
