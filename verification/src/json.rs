//! The library's own model of an untyped document tree. A listing body is
//! turned into a `Json` value at the crate's edge; everything the harvesting
//! rules read from a listing is read from this type, so the rules themselves
//! are verified. Numeric payloads are not read by any rule, so a number is
//! kept only as the fact that one was present.

use vstd::prelude::*;

verus! {

/// One node of an untyped document tree.
#[derive(Debug)]
pub enum Json {
    Null,
    Bool(bool),
    /// A numeric scalar; no harvesting rule reads its value.
    Num,
    Str(String),
    Arr(Vec<Json>),
    /// Members in the document's own iteration order.
    Obj(Vec<(String, Json)>),
}

/// The first member of `pairs` named `key`, if any.
pub open spec fn obj_lookup(pairs: Seq<(String, Json)>, key: Seq<char>) -> Option<Json>
    decreases pairs.len(),
{
    if pairs.len() == 0 {
        None
    } else if pairs[0].0@ == key {
        Some(pairs[0].1)
    } else {
        obj_lookup(pairs.drop_first(), key)
    }
}

/// The member of `v` named `key`, when `v` is an object that has one.
pub open spec fn member_of(v: Json, key: Seq<char>) -> Option<Json> {
    match v {
        Json::Obj(pairs) => obj_lookup(pairs@, key),
        _ => None,
    }
}

/// The value of `key` in `v`, or `Null` when `v` is not an object or has no
/// such member — the way an untyped document is indexed.
pub open spec fn field_of(v: Json, key: Seq<char>) -> Json {
    match member_of(v, key) {
        Some(w) => w,
        None => Json::Null,
    }
}

proof fn lemma_obj_lookup_none(pairs: Seq<(String, Json)>, key: Seq<char>)
    requires
        forall|j: int| 0 <= j < pairs.len() ==> pairs[j].0@ != key,
    ensures
        obj_lookup(pairs, key) is None,
    decreases pairs.len(),
{
    if pairs.len() > 0 {
        lemma_obj_lookup_none(pairs.drop_first(), key);
    }
}

proof fn lemma_obj_lookup_first(pairs: Seq<(String, Json)>, key: Seq<char>, i: int)
    requires
        0 <= i < pairs.len(),
        pairs[i].0@ == key,
        forall|j: int| 0 <= j < i ==> pairs[j].0@ != key,
    ensures
        obj_lookup(pairs, key) == Some(pairs[i].1),
    decreases i,
{
    if i > 0 {
        lemma_obj_lookup_first(pairs.drop_first(), key, i - 1);
    }
}

/// Character-by-character string comparison.
pub fn str_eq(a: &str, b: &str) -> (r: bool)
    ensures
        r == (a@ == b@),
{
    let na = a.unicode_len();
    let nb = b.unicode_len();
    if na != nb {
        return false;
    }
    let mut i: usize = 0;
    while i < na
        invariant
            na == a@.len(),
            na == b@.len(),
            i <= na,
            forall|j: int| 0 <= j < i ==> a@[j] == b@[j],
        decreases na - i,
    {
        let ca = a.get_char(i);
        let cb = b.get_char(i);
        if ca != cb {
            return false;
        }
        i = i + 1;
    }
    proof {
        assert(a@ =~= b@);
    }
    true
}

impl Json {
    /// The member of this node named `key`, if this node is an object that
    /// has one; the first such member when names repeat.
    pub fn get<'a>(&'a self, key: &str) -> (r: Option<&'a Json>)
        ensures
            r matches Some(w) ==> member_of(*self, key@) == Some(*w),
            r is None ==> member_of(*self, key@) is None,
    {
        match self {
            Json::Obj(pairs) => {
                let n = pairs.len();
                let mut i: usize = 0;
                while i < n
                    invariant
                        *self == Json::Obj(*pairs),
                        n == pairs@.len(),
                        i <= n,
                        forall|j: int| 0 <= j < i ==> pairs@[j].0@ != key@,
                    decreases n - i,
                {
                    if str_eq(pairs[i].0.as_str(), key) {
                        proof {
                            lemma_obj_lookup_first(pairs@, key@, i as int);
                        }
                        return Some(&pairs[i].1);
                    }
                    i = i + 1;
                }
                proof {
                    lemma_obj_lookup_none(pairs@, key@);
                }
                None
            },
            _ => None,
        }
    }
}

} // verus!
