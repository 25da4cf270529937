//! A JSON document as the library holds it, and its mathematical model.
//!
//! Objects keep their members in a vector of `(key, value)` pairs; the
//! model of an object is the sequence of its members, with keys taken as
//! character sequences. Member lookup, insertion and removal follow the
//! semantics of a JSON map: a lookup finds the member with the given key,
//! an insertion replaces the value of an existing member in place or adds a
//! new member at the end, and a removal takes the member out.
use vstd::prelude::*;

verus! {

/// A JSON value. Numbers are kept in their textual form.
#[derive(Debug, PartialEq)]
pub enum Json {
    Null,
    Bool(bool),
    Number(String),
    Str(String),
    Array(Vec<Json>),
    Object(Vec<(String, Json)>),
}

/// The mathematical model of a JSON value.
pub enum JsonV {
    Null,
    Bool(bool),
    Number(Seq<char>),
    Str(Seq<char>),
    Array(Seq<JsonV>),
    Object(Seq<(Seq<char>, JsonV)>),
}

/// The members of an object, in their order.
pub type Members = Seq<(Seq<char>, JsonV)>;

pub open spec fn json_view(j: Json) -> JsonV
    decreases j, 1int,
{
    match j {
        Json::Null => JsonV::Null,
        Json::Bool(b) => JsonV::Bool(b),
        Json::Number(n) => JsonV::Number(n@),
        Json::Str(s) => JsonV::Str(s@),
        Json::Array(v) => JsonV::Array(items_view(v@)),
        Json::Object(m) => JsonV::Object(members_view(m@)),
    }
}

pub open spec fn items_view(s: Seq<Json>) -> Seq<JsonV>
    decreases s, 0int,
{
    Seq::new(
        s.len(),
        |i: int|
            if 0 <= i < s.len() {
                json_view(s[i])
            } else {
                JsonV::Null
            },
    )
}

pub open spec fn members_view(s: Seq<(String, Json)>) -> Members
    decreases s, 0int,
{
    Seq::new(
        s.len(),
        |i: int|
            if 0 <= i < s.len() {
                (s[i].0@, json_view(s[i].1))
            } else {
                (Seq::empty(), JsonV::Null)
            },
    )
}

impl View for Json {
    type V = JsonV;

    open spec fn view(&self) -> JsonV {
        json_view(*self)
    }
}

/// The model of an optional string.
pub open spec fn opt_view(o: Option<String>) -> Option<Seq<char>> {
    match o {
        Some(s) => Some(s@),
        None => None,
    }
}

/// The JSON value of an optional string: the string, or `null`.
pub open spec fn opt_str_json(o: Option<Seq<char>>) -> JsonV {
    match o {
        Some(s) => JsonV::Str(s),
        None => JsonV::Null,
    }
}

/// `i` is the position of the first member named `k`.
pub open spec fn is_key_at(m: Members, k: Seq<char>, i: int) -> bool {
    &&& 0 <= i < m.len()
    &&& m[i].0 == k
    &&& forall|j: int| 0 <= j < i ==> m[j].0 != k
}

/// Position of the member named `k`, or -1 when there is none.
pub open spec fn member_index(m: Members, k: Seq<char>) -> int {
    if exists|i: int| is_key_at(m, k, i) {
        choose|i: int| is_key_at(m, k, i)
    } else {
        -1
    }
}

/// The value of the member named `k`.
pub open spec fn member(m: Members, k: Seq<char>) -> Option<JsonV> {
    let i = member_index(m, k);
    if i >= 0 {
        Some(m[i].1)
    } else {
        None
    }
}

/// `m` with member `k` set to `v`: replaced in place, or added at the end.
pub open spec fn with_member(m: Members, k: Seq<char>, v: JsonV) -> Members {
    let i = member_index(m, k);
    if i >= 0 {
        m.update(i, (k, v))
    } else {
        m.push((k, v))
    }
}

/// `m` without its member named `k`.
pub open spec fn without_member(m: Members, k: Seq<char>) -> Members {
    let i = member_index(m, k);
    if i >= 0 {
        m.remove(i)
    } else {
        m
    }
}

/// No two members share a key (true of every object a JSON parser produces).
pub open spec fn unique_keys(m: Members) -> bool {
    forall|i: int, j: int| 0 <= i < m.len() && 0 <= j < m.len() && i != j ==> m[i].0 != m[j].0
}

/// No object of the value, at its top level or as a direct member of it,
/// has two members with one key, as in every value a JSON parser produces.
pub open spec fn json_wf(j: JsonV) -> bool {
    match j {
        JsonV::Object(m) => unique_keys(m) && forall|i: int|
            0 <= i < m.len() ==> (#[trigger] m[i].1 matches JsonV::Object(sm) ==> unique_keys(sm)),
        _ => true,
    }
}

/// The members of an object value.
pub open spec fn object_members(j: JsonV) -> Option<Members> {
    match j {
        JsonV::Object(m) => Some(m),
        _ => None,
    }
}

/// The array holds the string `t`.
pub open spec fn contains_str(a: Seq<JsonV>, t: Seq<char>) -> bool {
    exists|i: int| 0 <= i < a.len() && a[i] == JsonV::Str(t)
}

/// Every element of the array is a string.
pub open spec fn all_strings(a: Seq<JsonV>) -> bool {
    forall|i: int| 0 <= i < a.len() ==> a[i] is Str
}

/// Every element up to the first one equal to the string `t` is a string.
pub open spec fn strings_up_to(a: Seq<JsonV>, t: Seq<char>) -> bool {
    forall|i: int|
        0 <= i < a.len() && (forall|j: int| 0 <= j < i ==> a[j] != JsonV::Str(t)) ==> a[i] is Str
}

/// No string occurs twice in the array.
pub open spec fn no_repeated_strings(a: Seq<JsonV>) -> bool {
    forall|i: int, j: int|
        0 <= i < a.len() && 0 <= j < a.len() && i != j && a[i] is Str ==> a[i] != a[j]
}

pub proof fn lemma_key_at_unique(m: Members, k: Seq<char>, i: int, j: int)
    requires
        is_key_at(m, k, i),
        is_key_at(m, k, j),
    ensures
        i == j,
{
    if i < j {
        assert(m[i].0 != k);
    } else if j < i {
        assert(m[j].0 != k);
    }
}

/// What `member_index` is: the first position of `k`, or -1 when `k` is absent.
pub proof fn lemma_member_index(m: Members, k: Seq<char>)
    ensures
        member_index(m, k) == -1 <==> (forall|i: int| 0 <= i < m.len() ==> m[i].0 != k),
        member_index(m, k) != -1 ==> is_key_at(m, k, member_index(m, k)),
        forall|i: int| is_key_at(m, k, i) ==> member_index(m, k) == i,
{
    if exists|i: int| is_key_at(m, k, i) {
        let c = choose|i: int| is_key_at(m, k, i);
        assert forall|i: int| is_key_at(m, k, i) implies member_index(m, k) == i by {
            lemma_key_at_unique(m, k, i, c);
        }
        assert(m[c].0 == k);
    } else {
        assert forall|i: int| 0 <= i < m.len() implies m[i].0 != k by {
            if m[i].0 == k {
                let found = least_key_pos(m, k, i);
                assert(is_key_at(m, k, found));
            }
        }
    }
}

/// The least position holding `k`, at or before `i`.
proof fn least_key_pos(m: Members, k: Seq<char>, i: int) -> (r: int)
    requires
        0 <= i < m.len(),
        m[i].0 == k,
    ensures
        is_key_at(m, k, r),
    decreases i,
{
    if exists|j: int| 0 <= j < i && m[j].0 == k {
        let j = choose|j: int| 0 <= j < i && m[j].0 == k;
        least_key_pos(m, k, j)
    } else {
        i
    }
}

/// Reading back a member that was just set gives the value set; other members are untouched.
pub proof fn lemma_with_member(m: Members, k: Seq<char>, v: JsonV, k2: Seq<char>)
    ensures
        member(with_member(m, k, v), k) == Some(v),
        k2 != k ==> member(with_member(m, k, v), k2) == member(m, k2),
        k2 != k ==> member_index(with_member(m, k, v), k2) == member_index(m, k2),
{
    let m2 = with_member(m, k, v);
    lemma_member_index(m, k);
    lemma_member_index(m, k2);
    lemma_member_index(m2, k);
    lemma_member_index(m2, k2);
    let i = member_index(m, k);
    if i >= 0 {
        assert(is_key_at(m2, k, i));
    } else {
        assert(is_key_at(m2, k, m.len() as int));
    }
    if k2 != k {
        let i2 = member_index(m, k2);
        if i2 >= 0 {
            assert(is_key_at(m2, k2, i2));
        } else {
            assert forall|j: int| 0 <= j < m2.len() implies m2[j].0 != k2 by {
                if j < m.len() && j != i {
                    assert(m2[j] == m[j]);
                }
            }
        }
    }
}

/// Setting a member to the value it already holds changes nothing.
pub proof fn lemma_with_same_member(m: Members, k: Seq<char>, v: JsonV)
    requires
        member(m, k) == Some(v),
    ensures
        with_member(m, k, v) == m,
{
    lemma_member_index(m, k);
    let i = member_index(m, k);
    assert(with_member(m, k, v) =~= m);
}

/// Removing a member leaves the values of the other members as they were.
pub proof fn lemma_without_member_other(m: Members, k: Seq<char>, k2: Seq<char>)
    requires
        k2 != k,
    ensures
        member(without_member(m, k), k2) == member(m, k2),
{
    let m2 = without_member(m, k);
    lemma_member_index(m, k);
    lemma_member_index(m, k2);
    lemma_member_index(m2, k2);
    let i = member_index(m, k);
    if i >= 0 {
        let i2 = member_index(m, k2);
        if i2 >= 0 {
            if i2 < i {
                assert(is_key_at(m2, k2, i2));
            } else {
                assert(is_key_at(m2, k2, i2 - 1));
            }
        } else {
            assert forall|j: int| 0 <= j < m2.len() implies m2[j].0 != k2 by {
                if j < i {
                    assert(m2[j] == m[j]);
                } else {
                    assert(m2[j] == m[j + 1]);
                }
            }
        }
    }
}

/// A removed member can no longer be found when keys are unique, and keys
/// stay unique.
pub proof fn lemma_without_member(m: Members, k: Seq<char>)
    requires
        unique_keys(m),
    ensures
        member(without_member(m, k), k) is None,
        unique_keys(without_member(m, k)),
{
    let m2 = without_member(m, k);
    lemma_member_index(m, k);
    lemma_member_index(m2, k);
    let i = member_index(m, k);
    if i >= 0 {
        assert forall|j: int| 0 <= j < m2.len() implies m2[j].0 != k by {
            if j < i {
                assert(m2[j] == m[j]);
            } else {
                assert(m2[j] == m[j + 1]);
            }
        }
        assert forall|a: int, b: int|
            0 <= a < m2.len() && 0 <= b < m2.len() && a != b implies m2[a].0 != m2[b].0 by {
            let a1 = if a < i { a } else { a + 1 };
            let b1 = if b < i { b } else { b + 1 };
            assert(m2[a] == m[a1]);
            assert(m2[b] == m[b1]);
        }
    }
}

/// Setting a member keeps keys unique.
pub proof fn lemma_with_member_unique(m: Members, k: Seq<char>, v: JsonV)
    requires
        unique_keys(m),
    ensures
        unique_keys(with_member(m, k, v)),
{
    lemma_member_index(m, k);
    let m2 = with_member(m, k, v);
    let i = member_index(m, k);
    assert forall|a: int, b: int|
        0 <= a < m2.len() && 0 <= b < m2.len() && a != b implies m2[a].0 != m2[b].0 by {
        if i < 0 {
            if a == m.len() {
                assert(m[b].0 != k);
            } else if b == m.len() {
                assert(m[a].0 != k);
            }
        }
    }
}

/// Setting a member twice keeps the second value only.
pub proof fn lemma_with_member_twice(m: Members, k: Seq<char>, v1: JsonV, v2: JsonV)
    ensures
        with_member(with_member(m, k, v1), k, v2) == with_member(m, k, v2),
{
    let m1 = with_member(m, k, v1);
    lemma_member_index(m, k);
    lemma_member_index(m1, k);
    let i = member_index(m, k);
    if i >= 0 {
        assert(is_key_at(m1, k, i));
        assert(with_member(m1, k, v2) =~= with_member(m, k, v2));
    } else {
        assert(is_key_at(m1, k, m.len() as int));
        assert(with_member(m1, k, v2) =~= with_member(m, k, v2));
    }
}

/// A member that is set and then removed leaves no trace beside another
/// member set in between.
pub proof fn lemma_set_then_remove(m: Members, k: Seq<char>, v: JsonV, k2: Seq<char>, v2: JsonV)
    requires
        k != k2,
    ensures
        without_member(with_member(with_member(m, k, v), k2, v2), k) == without_member(
            with_member(m, k2, v2),
            k,
        ),
{
    let m1 = with_member(m, k, v);
    let m2 = with_member(m1, k2, v2);
    let n1 = with_member(m, k2, v2);
    lemma_member_index(m, k);
    lemma_member_index(m, k2);
    lemma_with_member(m, k, v, k2);
    lemma_with_member(m1, k2, v2, k);
    lemma_with_member(m, k2, v2, k);
    lemma_member_index(m1, k);
    lemma_member_index(m2, k);
    lemma_member_index(n1, k);
    let j = member_index(m, k);
    let i = member_index(m, k2);
    if j >= 0 {
        assert(is_key_at(m1, k, j));
        assert(member_index(m2, k) == j);
        assert(member_index(n1, k) == j);
        assert(without_member(m2, k) =~= without_member(n1, k));
    } else {
        assert(is_key_at(m1, k, m.len() as int));
        assert(member_index(m2, k) == m.len() as int);
        assert(member_index(n1, k) == -1);
        assert(without_member(m2, k) =~= without_member(n1, k));
    }
}

/// Setting a member of well-formed data to a value whose own members (if
/// it is an object) have distinct keys keeps the data well-formed.
pub proof fn lemma_wf_with_member(m: Members, k: Seq<char>, v: JsonV)
    requires
        json_wf(JsonV::Object(m)),
        v matches JsonV::Object(vm) ==> unique_keys(vm),
    ensures
        json_wf(JsonV::Object(with_member(m, k, v))),
{
    lemma_with_member_unique(m, k, v);
    lemma_member_index(m, k);
    let m2 = with_member(m, k, v);
    let i = member_index(m, k);
    assert forall|j: int| 0 <= j < m2.len() implies (#[trigger] m2[j].1 matches JsonV::Object(
        sm,
    ) ==> unique_keys(sm)) by {
        if j < m.len() && j != i {
            assert(m2[j] == m[j]);
        }
    }
}

/// The key of a member, compared with a string.
pub fn key_is(key: &String, name: &str) -> (r: bool)
    ensures
        r == (key@ == name@),
{
    let owned = name.to_owned();
    *key == owned
}

/// Position of the member named `key`.
pub fn find_member(members: &Vec<(String, Json)>, key: &str) -> (r: Option<usize>)
    ensures
        match r {
            Some(i) => i as int == member_index(members_view(members@), key@),
            None => member_index(members_view(members@), key@) == -1,
        },
{
    let ghost mv = members_view(members@);
    proof {
        lemma_member_index(mv, key@);
    }
    let mut i: usize = 0;
    while i < members.len()
        invariant
            0 <= i <= members.len(),
            mv == members_view(members@),
            mv.len() == members@.len(),
            forall|j: int| 0 <= j < i ==> mv[j].0 != key@,
        decreases members.len() - i,
    {
        assert(mv[i as int].0 == members@[i as int].0@);
        if key_is(&members[i].0, key) {
            assert(is_key_at(mv, key@, i as int));
            return Some(i);
        }
        i = i + 1;
    }
    None
}

/// The value of the member named `key`.
pub fn get_member<'a>(members: &'a Vec<(String, Json)>, key: &str) -> (r: Option<&'a Json>)
    ensures
        match r {
            Some(v) => member(members_view(members@), key@) == Some(v@),
            None => member(members_view(members@), key@) is None,
        },
{
    match find_member(members, key) {
        Some(i) => {
            assert(members_view(members@)[i as int].1 == members@[i as int].1@);
            Some(&members[i].1)
        },
        None => None,
    }
}

/// Sets member `key` to `value`, returning the value it replaced.
pub fn insert_member(members: &mut Vec<(String, Json)>, key: String, value: Json) -> (previous:
    Option<Json>)
    ensures
        members_view(final(members)@) == with_member(members_view(old(members)@), key@, value@),
        match previous {
            Some(p) => member(members_view(old(members)@), key@) == Some(p@),
            None => member(members_view(old(members)@), key@) is None,
        },
{
    let ghost mv = members_view(members@);
    let ghost kv = key@;
    let ghost vv = value@;
    match find_member(members, key.as_str()) {
        Some(i) => {
            let (_k, old_value) = members.remove(i);
            members.insert(i, (key, value));
            assert(members_view(members@) =~= mv.update(i as int, (kv, vv)));
            Some(old_value)
        },
        None => {
            members.push((key, value));
            assert(members_view(members@) =~= mv.push((kv, vv)));
            None
        },
    }
}

/// Removes member `key`, returning its value.
pub fn remove_member(members: &mut Vec<(String, Json)>, key: &str) -> (removed: Option<Json>)
    ensures
        members_view(final(members)@) == without_member(members_view(old(members)@), key@),
        match removed {
            Some(p) => member(members_view(old(members)@), key@) == Some(p@),
            None => member(members_view(old(members)@), key@) is None,
        },
{
    let ghost mv = members_view(members@);
    match find_member(members, key) {
        Some(i) => {
            let (_k, old_value) = members.remove(i);
            assert(members_view(members@) =~= mv.remove(i as int));
            Some(old_value)
        },
        None => None,
    }
}

/// A string owned by the caller, equal to `s`.
pub fn owned(s: &str) -> (r: String)
    ensures
        r@ == s@,
{
    s.to_owned()
}

/// A copy of an optional string.
pub fn copy_opt(o: &Option<String>) -> (r: Option<String>)
    ensures
        opt_view(r) == opt_view(*o),
{
    match o {
        Some(s) => Some(s.clone()),
        None => None,
    }
}

/// The JSON value of an optional string: the string, or `null`.
pub fn opt_string_json(o: Option<String>) -> (r: Json)
    ensures
        r@ == opt_str_json(opt_view(o)),
{
    match o {
        Some(s) => Json::Str(s),
        None => Json::Null,
    }
}

} // verus!
