//! A small JSON document model.
//!
//! The lifecycle protocol exchanges JSON documents: the inbound request
//! envelope, the caller-defined resource properties, and the outbound
//! response body. This module gives those documents a concrete, fully
//! specified shape. Parsing raw text into this shape (and rendering it
//! back out) is the collaborating host's concern; everything in the
//! protocol logic works on [`Json`] values and is specified against
//! their mathematical view, [`JsonView`].

use vstd::prelude::*;

verus! {

/// The mathematical shape of a JSON document: what a [`Json`] value
/// denotes, with strings as character sequences.
///
/// Object members are kept as an ordered sequence of key/value pairs, so
/// that an encoding contract can pin down exactly which keys appear and
/// in which order they are emitted.
pub enum JsonView {
    /// JSON `null`.
    Null,
    /// A JSON boolean.
    Bool(bool),
    /// A JSON integer number.
    Int(i64),
    /// A JSON string.
    Str(Seq<char>),
    /// A JSON array.
    Arr(Seq<JsonView>),
    /// A JSON object, as an ordered sequence of key/value members.
    Obj(Seq<(Seq<char>, JsonView)>),
}

/// An executable JSON document.
///
/// Numbers are restricted to signed 64-bit integers: the protocol itself
/// exchanges only strings and nested structure, and integer-valued
/// caller data round-trips exactly.
#[derive(Debug, PartialEq)]
pub enum Json {
    /// JSON `null`.
    Null,
    /// A JSON boolean.
    Bool(bool),
    /// A JSON integer number.
    Int(i64),
    /// A JSON string.
    Str(String),
    /// A JSON array.
    Arr(Vec<Json>),
    /// A JSON object, as an ordered list of key/value members.
    Obj(Vec<(String, Json)>),
}

/// The document a [`Json`] value denotes.
pub open spec fn json_view(j: Json) -> JsonView
    decreases j,
    via json_view_decreases
{
    match j {
        Json::Null => JsonView::Null,
        Json::Bool(b) => JsonView::Bool(b),
        Json::Int(i) => JsonView::Int(i),
        Json::Str(s) => JsonView::Str(s@),
        Json::Arr(items) => JsonView::Arr(
            Seq::new(
                items@.len(),
                |i: int|
                    if 0 <= i < items@.len() {
                        json_view(items@[i])
                    } else {
                        JsonView::Null
                    },
            ),
        ),
        Json::Obj(members) => JsonView::Obj(
            Seq::new(
                members@.len(),
                |i: int|
                    if 0 <= i < members@.len() {
                        (members@[i].0@, json_view(members@[i].1))
                    } else {
                        (Seq::empty(), JsonView::Null)
                    },
            ),
        ),
    }
}

#[via_fn]
proof fn json_view_decreases(j: Json) {
    match j {
        Json::Arr(items) => {
            assert forall|i: int| 0 <= i < items@.len() implies decreases_to!(j => items@[i]) by {
                assert(decreases_to!(j => j->Arr_0@[i]));
            }
        },
        Json::Obj(members) => {
            assert forall|i: int| 0 <= i < members@.len() implies decreases_to!(
                j => members@[i].1,
            ) by {
                assert(decreases_to!(j => j->Obj_0@[i].1));
            }
        },
        _ => {},
    }
}

impl View for Json {
    type V = JsonView;

    #[verifier::inline]
    open spec fn view(&self) -> JsonView {
        json_view(*self)
    }
}

/// The value of the first member of `members` whose key is `key`, if any.
///
/// JSON allows duplicate keys; like most decoders, the protocol reads the
/// first occurrence and ignores the rest.
pub open spec fn spec_lookup(members: Seq<(Seq<char>, JsonView)>, key: Seq<char>) -> Option<
    JsonView,
>
    decreases members.len(),
{
    if members.len() == 0 {
        None
    } else if members[0].0 == key {
        Some(members[0].1)
    } else {
        spec_lookup(members.drop_first(), key)
    }
}

/// The member of `j` named `key`, if `j` is an object that has one.
pub open spec fn spec_get(j: JsonView, key: Seq<char>) -> Option<JsonView> {
    match j {
        JsonView::Obj(members) => spec_lookup(members, key),
        _ => None,
    }
}

/// The member of `j` named `key`, if `j` is an object and that member is
/// a string.
pub open spec fn spec_get_str(j: JsonView, key: Seq<char>) -> Option<Seq<char>> {
    match spec_get(j, key) {
        Some(JsonView::Str(s)) => Some(s),
        _ => None,
    }
}

proof fn lemma_lookup_found(members: Seq<(Seq<char>, JsonView)>, key: Seq<char>, k: int)
    requires
        0 <= k < members.len(),
        forall|i: int| 0 <= i < k ==> members[i].0 != key,
        members[k].0 == key,
    ensures
        spec_lookup(members, key) == Some(members[k].1),
    decreases k,
{
    if k > 0 {
        lemma_lookup_found(members.drop_first(), key, k - 1);
    }
}

proof fn lemma_lookup_absent(members: Seq<(Seq<char>, JsonView)>, key: Seq<char>)
    requires
        forall|i: int| 0 <= i < members.len() ==> members[i].0 != key,
    ensures
        spec_lookup(members, key) is None,
    decreases members.len(),
{
    if members.len() > 0 {
        lemma_lookup_absent(members.drop_first(), key);
    }
}

impl Json {
    /// Looks up the member named `key`, reading the first occurrence when
    /// the key is repeated. Returns `None` when this document is not an
    /// object or has no such member.
    #[verifier::loop_isolation(false)]
    pub fn get<'a>(&'a self, key: &str) -> (r: Option<&'a Json>)
        ensures
            match r {
                Some(v) => spec_get(self@, key@) == Some(v@),
                None => spec_get(self@, key@) is None,
            },
    {
        let members = match self {
            Json::Obj(members) => members,
            _ => { return None },
        };
        let key_owned: String = key.to_owned();
        let mut k: usize = 0;
        while k < members.len()
            invariant
                k <= members.len(),
                forall|i: int|
                    0 <= i < k ==> json_view(*self)->Obj_0[i].0 != key@,
            decreases members.len() - k,
        {
            if members[k].0.eq(&key_owned) {
                proof {
                    lemma_lookup_found(json_view(*self)->Obj_0, key@, k as int);
                }
                return Some(&members[k].1);
            }
            k += 1;
        }
        proof {
            lemma_lookup_absent(json_view(*self)->Obj_0, key@);
        }
        None
    }

    /// Looks up the member named `key` and returns it when it is a string.
    pub fn get_str<'a>(&'a self, key: &str) -> (r: Option<&'a String>)
        ensures
            match r {
                Some(s) => spec_get_str(self@, key@) == Some(s@),
                None => spec_get_str(self@, key@) is None,
            },
    {
        match self.get(key) {
            Some(Json::Str(s)) => Some(s),
            _ => None,
        }
    }
}

impl Clone for Json {
    /// A deep copy that denotes exactly the same document.
    #[verifier::loop_isolation(false)]
    fn clone(&self) -> (res: Json)
        ensures
            res@ == self@,
        decreases self,
    {
        match self {
            Json::Null => Json::Null,
            Json::Bool(b) => Json::Bool(*b),
            Json::Int(i) => Json::Int(*i),
            Json::Str(s) => Json::Str(s.clone()),
            Json::Arr(items) => {
                let mut out: Vec<Json> = Vec::new();
                let mut k: usize = 0;
                while k < items.len()
                    invariant
                        k <= items.len(),
                        out.len() == k,
                        forall|i: int| 0 <= i < k ==> out@[i]@ == items@[i]@,
                    decreases items.len() - k,
                {
                    proof {
                        let ghost jj: Json = *self;
                        assert(decreases_to!(jj => jj->Arr_0@[k as int]));
                    }
                    out.push(items[k].clone());
                    k += 1;
                }
                proof {
                    assert(json_view(Json::Arr(out))->Arr_0 =~= json_view(
                        Json::Arr(*items),
                    )->Arr_0);
                }
                Json::Arr(out)
            },
            Json::Obj(members) => {
                let mut out: Vec<(String, Json)> = Vec::new();
                let mut k: usize = 0;
                while k < members.len()
                    invariant
                        k <= members.len(),
                        out.len() == k,
                        forall|i: int|
                            0 <= i < k ==> out@[i].0@ == members@[i].0@ && out@[i].1@
                                == members@[i].1@,
                    decreases members.len() - k,
                {
                    proof {
                        let ghost jj: Json = *self;
                        assert(decreases_to!(jj => jj->Obj_0@[k as int].1));
                    }
                    out.push((members[k].0.clone(), members[k].1.clone()));
                    k += 1;
                }
                proof {
                    assert(json_view(Json::Obj(out))->Obj_0 =~= json_view(
                        Json::Obj(*members),
                    )->Obj_0);
                }
                Json::Obj(out)
            },
        }
    }
}

} // verus!
