//! A JSON document model: the values that surface detection reads.

use vstd::prelude::*;

verus! {

/// A JSON value. Numbers keep their textual form; objects keep their members
/// in document order.
#[derive(Debug, PartialEq)]
pub enum Json {
    Null,
    Bool(bool),
    Number(String),
    String(String),
    Array(Vec<Json>),
    Object(Vec<(String, Json)>),
}

/// The mathematical value of a JSON document: strings as character sequences.
pub ghost enum JsonModel {
    Null,
    Bool(bool),
    Number(Seq<char>),
    String(Seq<char>),
    Array(Seq<JsonModel>),
    Object(Seq<(Seq<char>, JsonModel)>),
}

impl View for Json {
    type V = JsonModel;

    open spec fn view(&self) -> JsonModel
        decreases self,
    {
        match self {
            Json::Null => JsonModel::Null,
            Json::Bool(b) => JsonModel::Bool(*b),
            Json::Number(n) => JsonModel::Number(n@),
            Json::String(s) => JsonModel::String(s@),
            Json::Array(items) => JsonModel::Array(
                Seq::new(
                    items@.len(),
                    |i: int|
                        if 0 <= i < items@.len() {
                            items@[i].view()
                        } else {
                            JsonModel::Null
                        },
                ),
            ),
            Json::Object(members) => JsonModel::Object(
                Seq::new(
                    members@.len(),
                    |i: int|
                        if 0 <= i < members@.len() {
                            member_model(members@[i])
                        } else {
                            (Seq::empty(), JsonModel::Null)
                        },
                ),
            ),
        }
    }
}

/// The mathematical value of an object member: its key and its value.
pub open spec fn member_model(member: (String, Json)) -> (Seq<char>, JsonModel)
    decreases member,
{
    (member.0@, member.1.view())
}

/// Whether some member of an object carries the given key.
pub open spec fn members_have_key(members: Seq<(String, Json)>, key: Seq<char>) -> bool {
    exists|i: int| 0 <= i < members.len() && #[trigger] members[i].0@ == key
}

/// A key lookup sees every member, wherever it stands: an object has a key
/// exactly when the member at some position carries it, so the order and the
/// number of the other members never hide a key.
pub proof fn lemma_key_lookup_sees_every_member(members: Seq<(String, Json)>, key: Seq<char>)
    ensures
        members_have_key(members, key) <==> exists|i: int|
            0 <= i < members.len() && members[i].0@ == key,
        forall|i: int| 0 <= i < members.len() && members[i].0@ == key ==> members_have_key(
            members,
            key,
        ),
        forall|other: Seq<(String, Json)>|
            #![trigger members_have_key(members + other, key)]
            members_have_key(members, key) ==> members_have_key(members + other, key)
                && members_have_key(other + members, key),
{
    assert forall|other: Seq<(String, Json)>|
        #![trigger members_have_key(members + other, key)]
        members_have_key(members, key) implies members_have_key(members + other, key)
            && members_have_key(other + members, key) by {
        let i = choose|i: int| 0 <= i < members.len() && #[trigger] members[i].0@ == key;
        assert((members + other)[i] == members[i]);
        assert((other + members)[other.len() + i] == members[i]);
    }
}

/// The view keeps every part of a document: scalars keep their value and text,
/// arrays keep each item in place, objects keep each member's key and value in
/// place.
pub proof fn lemma_view_keeps_every_part(j: Json)
    ensures
        j matches Json::Bool(b) ==> j@ == JsonModel::Bool(b),
        j matches Json::Number(n) ==> j@ == JsonModel::Number(n@),
        j matches Json::String(t) ==> j@ == JsonModel::String(t@),
        j matches Json::Null ==> j@ == JsonModel::Null,
        j matches Json::Array(items) ==> (j@ matches JsonModel::Array(xs) && xs.len()
            == items@.len() && forall|i: int| 0 <= i < xs.len() ==> xs[i] == items@[i]@),
        j matches Json::Object(members) ==> (j@ matches JsonModel::Object(xs) && xs.len()
            == members@.len() && forall|i: int|
            0 <= i < xs.len() ==> xs[i].0 == members@[i].0@ && xs[i].1 == members@[i].1@),
{
    if let Json::Object(members) = j {
        if let JsonModel::Object(xs) = j@ {
            assert forall|i: int| 0 <= i < xs.len() implies xs[i].0 == members@[i].0@ && xs[i].1
                == members@[i].1@ by {
                assert(xs[i] == member_model(members@[i]));
            }
        }
    }
}

impl Json {
    /// The members of an object, or `None` for any other value.
    pub open spec fn object_members(&self) -> Option<Seq<(String, Json)>> {
        match self {
            Json::Object(members) => Some(members@),
            _ => None,
        }
    }

    /// The members of an object, or `None` for any other value.
    pub fn as_object(&self) -> (r: Option<&Vec<(String, Json)>>)
        ensures
            match self {
                Json::Object(members) => r == Some(members),
                _ => r is None,
            },
    {
        match self {
            Json::Object(members) => Some(members),
            _ => None,
        }
    }

    /// A copy of this value, equal to it in every part.
    #[verifier::loop_isolation(false)]
    pub fn duplicate(&self) -> (r: Json)
        ensures
            r@ == self@,
        decreases self,
    {
        match self {
            Json::Null => Json::Null,
            Json::Bool(b) => Json::Bool(*b),
            Json::Number(n) => Json::Number(n.clone()),
            Json::String(s) => Json::String(s.clone()),
            Json::Array(items) => {
                let mut out: Vec<Json> = Vec::new();
                let mut i: usize = 0;
                while i < items.len()
                    invariant
                        i <= items@.len(),
                        out@.len() == i,
                        forall|j: int| 0 <= j < i ==> out@[j]@ == items@[j]@,
                    decreases items@.len() - i,
                {
                    assert(decreases_to!(*items => items@));
                    assert(decreases_to!(items@ => items@[i as int]));
                    let item = items[i].duplicate();
                    out.push(item);
                    i = i + 1;
                }
                let r = Json::Array(out);
                assert(r@ == self@) by {
                    assert(r->Array_0@.len() == items@.len());
                    if let JsonModel::Array(a) = r@ {
                        if let JsonModel::Array(b) = self@ {
                            assert(a =~= b);
                        }
                    }
                }
                r
            },
            Json::Object(members) => {
                let mut out: Vec<(String, Json)> = Vec::new();
                let mut i: usize = 0;
                while i < members.len()
                    invariant
                        i <= members@.len(),
                        out@.len() == i,
                        forall|j: int| 0 <= j < i ==> out@[j].0@ == members@[j].0@ && out@[j].1@ == members@[j].1@,
                    decreases members@.len() - i,
                {
                    assert(decreases_to!(*members => members@));
                    assert(decreases_to!(members@ => members@[i as int]));
                    assert(decreases_to!(members@[i as int] => members@[i as int].1));
                    let value = members[i].1.duplicate();
                    let key = members[i].0.clone();
                    out.push((key, value));
                    i = i + 1;
                }
                let r = Json::Object(out);
                assert(r@ == self@) by {
                    if let JsonModel::Object(a) = r@ {
                        if let JsonModel::Object(b) = self@ {
                            assert forall|k: int| 0 <= k < a.len() implies a[k] == b[k] by {
                                assert(a[k] == member_model(out@[k]));
                                assert(b[k] == member_model(members@[k]));
                            }
                            assert(a =~= b);
                        }
                    }
                }
                r
            },
        }
    }
}

/// Whether some member of an object carries the given key.
pub fn members_contain_key(members: &Vec<(String, Json)>, key: &str) -> (r: bool)
    ensures
        r == members_have_key(members@, key@),
{
    let mut i: usize = 0;
    while i < members.len()
        invariant
            i <= members@.len(),
            forall|j: int| 0 <= j < i ==> members@[j].0@ != key@,
        decreases members@.len() - i,
    {
        if str_eq(members[i].0.as_str(), key) {
            return true;
        }
        i = i + 1;
    }
    false
}

/// Character-wise string equality.
pub fn str_eq(a: &str, b: &str) -> (r: bool)
    ensures
        r == (a@ == b@),
{
    let n = a.unicode_len();
    let m = b.unicode_len();
    if n != m {
        return false;
    }
    let mut i: usize = 0;
    while i < n
        invariant
            n == a@.len(),
            m == b@.len(),
            n == m,
            i <= n,
            forall|j: int| 0 <= j < i ==> a@[j] == b@[j],
        decreases n - i,
    {
        if a.get_char(i) != b.get_char(i) {
            return false;
        }
        i = i + 1;
    }
    assert(a@ =~= b@);
    true
}

} // verus!
