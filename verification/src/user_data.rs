//! The subscription record kept in a user's data.
//!
//! A user's data is a JSON object. Its member `"subscription"` is an object
//! that holds the subscribed topics (`"topics"`), where the subscriptions
//! came from (`"sources"`), whether the user is subscribed at all
//! (`"subscribed"`), the subscriber's contact details, and the state of the
//! double opt-in (`"confirmation_key"`, `"confirmed"`).
use vstd::prelude::*;
use vstd::pervasive::unreached;
use crate::json::{
    Json, JsonV, Members, all_strings, contains_str, copy_opt, find_member, get_member,
    insert_member, items_view, json_view, lemma_member_index, lemma_with_member, member,
    members_view, object_members, opt_str_json, opt_string_json, opt_view, owned, remove_member,
    strings_up_to, with_member, without_member,
};
use crate::subscriber::Subscriber;
use crate::text::{signed_decimal, signed_decimal_text};

verus! {

/// `a` with every occurrence of the string `t` left out.
pub open spec fn without_str(a: Seq<JsonV>, t: Seq<char>) -> Seq<JsonV>
    decreases a.len(),
{
    if a.len() == 0 {
        a
    } else {
        let rest = without_str(a.drop_last(), t);
        if a.last() == JsonV::Str(t) {
            rest
        } else {
            rest.push(a.last())
        }
    }
}

/// The subscription object of a user's data, when there is one.
pub open spec fn subscription_object(data: JsonV) -> Option<Members> {
    match data {
        JsonV::Object(m) => match member(m, "subscription"@) {
            Some(JsonV::Object(sm)) => Some(sm),
            _ => None,
        },
        _ => None,
    }
}

/// The `"subscription"` member is absent or an object.
pub open spec fn subscription_slot_ok(m: Members) -> bool {
    match member(m, "subscription"@) {
        Some(JsonV::Object(_)) => true,
        Some(_) => false,
        None => true,
    }
}

/// The member `key` of a subscription object, with `item` added to it as a
/// string if it is not already there, and whether it was added.
pub open spec fn list_with_item(sub: Members, key: Seq<char>, item: Seq<char>) -> (Members, bool) {
    match member(sub, key) {
        Some(JsonV::Array(a)) => if contains_str(a, item) {
            (sub, false)
        } else {
            (with_member(sub, key, JsonV::Array(a.push(JsonV::Str(item)))), true)
        },
        Some(_) => (sub, false),
        None => (with_member(sub, key, JsonV::Array(seq![JsonV::Str(item)])), true),
    }
}

/// Adding `item` to the list `key` can be done: the list is absent, or an
/// array whose elements are strings up to the first copy of `item`.
pub open spec fn list_item_ok(sub: Members, key: Seq<char>, item: Seq<char>) -> bool {
    match member(sub, key) {
        Some(JsonV::Array(a)) => strings_up_to(a, item),
        Some(_) => false,
        None => true,
    }
}

/// A user's data with `item` added to the list `key` of its subscription, and
/// whether it was added. Without a subscription, one is made that holds the
/// list `[item]` and an empty list `other`.
pub open spec fn subscription_with_item(data: Members, key: Seq<char>, other: Seq<char>, item: Seq<
    char,
>) -> (Members, bool) {
    match member(data, "subscription"@) {
        Some(JsonV::Object(sm)) => {
            let r = list_with_item(sm, key, item);
            (with_member(data, "subscription"@, JsonV::Object(r.0)), r.1)
        },
        Some(_) => (data, false),
        None => (
            with_member(
                data,
                "subscription"@,
                JsonV::Object(
                    seq![(key, JsonV::Array(seq![JsonV::Str(item)])), (other, JsonV::Array(seq![]))],
                ),
            ),
            true,
        ),
    }
}

/// Adding `item` to the list `key` of the subscription can be done.
pub open spec fn subscription_item_ok(data: Members, key: Seq<char>, item: Seq<char>) -> bool {
    match member(data, "subscription"@) {
        Some(JsonV::Object(sm)) => list_item_ok(sm, key, item),
        Some(_) => false,
        None => true,
    }
}

/// The subscription object of a new subscriber.
pub open spec fn new_subscription(name: Option<Seq<char>>, phone: Option<Seq<char>>, email: Option<Seq<char>>) -> Members {
    seq![
        ("subscribed"@, JsonV::Bool(true)),
        ("topics"@, JsonV::Array(seq![])),
        ("sources"@, JsonV::Array(seq![])),
        ("name"@, opt_str_json(name)),
        ("phone"@, opt_str_json(phone)),
        ("email"@, opt_str_json(email)),
        ("double_optin"@, JsonV::Bool(false)),
    ]
}

/// A user's data with the subscription marked subscribed and the subscriber's
/// details recorded, and whether the subscription was not marked subscribed
/// before (`"subscribed"` absent, or not `true`).
pub open spec fn with_subscriber(data: Members, name: Option<Seq<char>>, phone: Option<Seq<char>>, email: Option<Seq<char>>) -> (Members, bool) {
    match member(data, "subscription"@) {
        Some(JsonV::Object(sm)) => {
            let s1 = with_member(sm, "subscribed"@, JsonV::Bool(true));
            let s2 = match name {
                Some(n) => with_member(s1, "name"@, JsonV::Str(n)),
                None => s1,
            };
            let s3 = match phone {
                Some(p) => with_member(s2, "phone"@, JsonV::Str(p)),
                None => s2,
            };
            let s4 = match email {
                Some(e) => with_member(s3, "email"@, JsonV::Str(e)),
                None => s3,
            };
            (with_member(data, "subscription"@, JsonV::Object(s4)), !is_true(member(sm, "subscribed"@)))
        },
        Some(_) => (data, false),
        None => (
            with_member(
                data,
                "subscription"@,
                JsonV::Object(new_subscription(name, phone, email)),
            ),
            true,
        ),
    }
}

/// The members of a user's data after a subscription, and whether a new
/// subscription was made (a topic added, or `"subscribed"` set where it was
/// not `true`).
pub open spec fn subscribed_members(
    data: Members,
    topic: Option<Seq<char>>,
    source: Option<Seq<char>>,
    name: Option<Seq<char>>,
    phone: Option<Seq<char>>,
    email: Option<Seq<char>>,
) -> (Members, bool) {
    let p1 = match topic {
        Some(t) => subscription_with_item(data, "topics"@, "sources"@, t),
        None => (data, false),
    };
    let p2 = match source {
        Some(s) => subscription_with_item(p1.0, "sources"@, "topics"@, s),
        None => (p1.0, false),
    };
    let p3 = with_subscriber(p2.0, name, phone, email);
    (p3.0, p1.1 || p3.1)
}

/// A subscription can be recorded in this data: it is an object, its
/// subscription is absent or an object, and the lists that get an item are
/// absent or arrays of strings up to the item.
pub open spec fn subscribe_ok(data: JsonV, topic: Option<Seq<char>>, source: Option<Seq<char>>) -> bool {
    match data {
        JsonV::Object(m) => {
            &&& subscription_slot_ok(m)
            &&& (topic matches Some(t) ==> subscription_item_ok(m, "topics"@, t))
            &&& (source matches Some(s) ==> subscription_item_ok(m, "sources"@, s))
        },
        _ => false,
    }
}

/// Whether a new subscription was made, and the user's data after it.
pub open spec fn subscribed_data(
    data: JsonV,
    topic: Option<Seq<char>>,
    source: Option<Seq<char>>,
    name: Option<Seq<char>>,
    phone: Option<Seq<char>>,
    email: Option<Seq<char>>,
) -> (bool, JsonV) {
    match data {
        JsonV::Object(m) => {
            let r = subscribed_members(m, topic, source, name, phone, email);
            (r.1, JsonV::Object(r.0))
        },
        _ => (false, data),
    }
}

/// The array holds the string `item`.
fn contains_string(items: &Vec<Json>, item: &String) -> (r: bool)
    requires
        strings_up_to(items_view(items@), item@),
    ensures
        r == contains_str(items_view(items@), item@),
{
    let ghost a = items_view(items@);
    let mut i: usize = 0;
    while i < items.len()
        invariant
            0 <= i <= items.len(),
            a == items_view(items@),
            a.len() == items@.len(),
            strings_up_to(a, item@),
            forall|j: int| 0 <= j < i ==> a[j] != JsonV::Str(item@),
        decreases items.len() - i,
    {
        assert(a[i as int] == items@[i as int]@);
        match &items[i] {
            Json::Str(s) => {
                if *s == *item {
                    assert(a[i as int] == JsonV::Str(item@));
                    return true;
                }
            },
            _ => {
                assert(a[i as int] is Str);
                return unreached();
            },
        }
        i = i + 1;
    }
    false
}

/// Adds `item` to the list `key` of a subscription object unless it is there.
fn add_to_list(sub: &mut Vec<(String, Json)>, key: &str, item: String) -> (added: bool)
    requires
        list_item_ok(members_view(old(sub)@), key@, item@),
    ensures
        (members_view(final(sub)@), added) == list_with_item(
            members_view(old(sub)@),
            key@,
            item@,
        ),
{
    let ghost sv = members_view(sub@);
    let ghost iv = item@;
    proof {
        lemma_member_index(sv, key@);
    }
    match find_member(sub, key) {
        Some(j) => {
            let (k, list) = sub.remove(j);
            assert(list@ == sv[j as int].1);
            match list {
                Json::Array(mut a) => {
                    let ghost av = items_view(a@);
                    let found = contains_string(&a, &item);
                    if !found {
                        a.push(Json::Str(item));
                        assert(items_view(a@) =~= av.push(JsonV::Str(iv)));
                    }
                    sub.insert(j, (k, Json::Array(a)));
                    assert(members_view(sub@) =~= sv.update(j as int, (key@, JsonV::Array(items_view(a@)))));
                    if found {
                        assert(members_view(sub@) =~= sv);
                    }
                    !found
                },
                _ => unreached(),
            }
        },
        None => {
            let v = vec![Json::Str(item)];
            assert(items_view(v@) =~= seq![JsonV::Str(iv)]);
            let _ = insert_member(sub, owned(key), Json::Array(v));
            true
        },
    }
}

/// Adds `item` to the list `key` of the subscription in a user's data.
fn add_to_subscription_list(data: &mut Vec<(String, Json)>, key: &str, other: &str, item: String) -> (added: bool)
    requires
        subscription_item_ok(members_view(old(data)@), key@, item@),
    ensures
        (members_view(final(data)@), added) == subscription_with_item(
            members_view(old(data)@),
            key@,
            other@,
            item@,
        ),
{
    let ghost dv = members_view(data@);
    let ghost iv = item@;
    proof {
        lemma_member_index(dv, "subscription"@);
    }
    match find_member(data, "subscription") {
        Some(i) => {
            let (k, sub) = data.remove(i);
            assert(sub@ == dv[i as int].1);
            match sub {
                Json::Object(mut sm) => {
                    let added = add_to_list(&mut sm, key, item);
                    data.insert(i, (k, Json::Object(sm)));
                    assert(members_view(data@) =~= dv.update(i as int, ("subscription"@, JsonV::Object(members_view(sm@)))));
                    added
                },
                _ => unreached(),
            }
        },
        None => {
            let fresh = vec![
                (owned(key), Json::Array(vec![Json::Str(item)])),
                (owned(other), Json::Array(Vec::new())),
            ];
            let ghost expected = seq![(key@, JsonV::Array(seq![JsonV::Str(iv)])), (other@, JsonV::Array(seq![]))];
            assert(members_view(fresh@) =~= expected) by {
                assert(items_view(fresh@[0].1->Array_0@) =~= seq![JsonV::Str(iv)]);
                assert(items_view(fresh@[1].1->Array_0@) =~= Seq::<JsonV>::empty());
            }
            let _ = insert_member(data, owned("subscription"), Json::Object(fresh));
            true
        },
    }
}

/// Marks the subscription subscribed and records the subscriber's details.
fn put_subscriber(data: &mut Vec<(String, Json)>, subscriber: &Subscriber) -> (fresh: bool)
    requires
        subscription_slot_ok(members_view(old(data)@)),
    ensures
        (members_view(final(data)@), fresh) == with_subscriber(
            members_view(old(data)@),
            opt_view(subscriber.name),
            opt_view(subscriber.phone),
            opt_view(subscriber.email),
        ),
{
    let ghost dv = members_view(data@);
    proof {
        lemma_member_index(dv, "subscription"@);
    }
    match find_member(data, "subscription") {
        Some(i) => {
            let (k, sub) = data.remove(i);
            assert(sub@ == dv[i as int].1);
            match sub {
                Json::Object(mut sm) => {
                    let previous = insert_member(&mut sm, owned("subscribed"), Json::Bool(true));
                    let fresh = match previous {
                        Some(Json::Bool(b)) => !b,
                        _ => true,
                    };
                    match &subscriber.name {
                        Some(n) => {
                            let _ = insert_member(&mut sm, owned("name"), Json::Str(n.clone()));
                        },
                        None => {},
                    }
                    match &subscriber.phone {
                        Some(p) => {
                            let _ = insert_member(&mut sm, owned("phone"), Json::Str(p.clone()));
                        },
                        None => {},
                    }
                    match &subscriber.email {
                        Some(e) => {
                            let _ = insert_member(&mut sm, owned("email"), Json::Str(e.clone()));
                        },
                        None => {},
                    }
                    data.insert(i, (k, Json::Object(sm)));
                    assert(members_view(data@) =~= dv.update(
                        i as int,
                        ("subscription"@, JsonV::Object(members_view(sm@))),
                    ));
                    fresh
                },
                _ => unreached(),
            }
        },
        None => {
            let fresh = vec![
                (owned("subscribed"), Json::Bool(true)),
                (owned("topics"), Json::Array(Vec::new())),
                (owned("sources"), Json::Array(Vec::new())),
                (owned("name"), opt_string_json(copy_opt(&subscriber.name))),
                (owned("phone"), opt_string_json(copy_opt(&subscriber.phone))),
                (owned("email"), opt_string_json(copy_opt(&subscriber.email))),
                (owned("double_optin"), Json::Bool(false)),
            ];
            assert(members_view(fresh@) =~= new_subscription(
                opt_view(subscriber.name),
                opt_view(subscriber.phone),
                opt_view(subscriber.email),
            )) by {
                assert(items_view(fresh@[1].1->Array_0@) =~= Seq::<JsonV>::empty());
                assert(items_view(fresh@[2].1->Array_0@) =~= Seq::<JsonV>::empty());
            }
            let _ = insert_member(data, owned("subscription"), Json::Object(fresh));
            true
        },
    }
}

/// Adding an item to one list of the subscription leaves another list of it
/// as it was, and keeps the subscription an object.
pub proof fn lemma_other_list_kept(data: Members, key: Seq<char>, other: Seq<char>, item: Seq<char>, item2: Seq<char>)
    requires
        key != other,
        subscription_item_ok(data, key, item),
    ensures
        subscription_item_ok(data, other, item2) ==> subscription_item_ok(
            subscription_with_item(data, key, other, item).0,
            other,
            item2,
        ),
        subscription_slot_ok(subscription_with_item(data, key, other, item).0),
{
    let d2 = subscription_with_item(data, key, other, item).0;
    match member(data, "subscription"@) {
        Some(JsonV::Object(sm)) => {
            let r = list_with_item(sm, key, item);
            lemma_with_member(data, "subscription"@, JsonV::Object(r.0), "subscription"@);
            match member(sm, key) {
                Some(JsonV::Array(a)) => {
                    if !contains_str(a, item) {
                        lemma_with_member(sm, key, JsonV::Array(a.push(JsonV::Str(item))), other);
                    }
                },
                _ => {
                    lemma_with_member(sm, key, JsonV::Array(seq![JsonV::Str(item)]), other);
                },
            }
        },
        _ => {
            let fresh = seq![(key, JsonV::Array(seq![JsonV::Str(item)])), (other, JsonV::Array(seq![]))];
            lemma_with_member(data, "subscription"@, JsonV::Object(fresh), "subscription"@);
            lemma_member_index(fresh, other);
            assert(crate::json::is_key_at(fresh, other, 1));
            assert(member(fresh, other) == Some(JsonV::Array(seq![])));
        },
    }
}

/// Records a subscription in a user's data: `topic` is added to the
/// subscription's topics and `source` to its sources, unless they are there
/// already; the subscription is marked subscribed and the subscriber's name,
/// phone and email, where given, are stored. A subscription that does not
/// exist is made.
///
/// Returns whether a new subscription was made, and the updated data. The
/// flag is false when the user was already subscribed, to this topic or to
/// everything.
pub fn add_subscription_info(
    data: Json,
    topic: Option<String>,
    source: Option<String>,
    subscriber: &Subscriber,
) -> (r: (bool, Json))
    requires
        subscribe_ok(data@, opt_view(topic), opt_view(source)),
    ensures
        (r.0, r.1@) == subscribed_data(
            data@,
            opt_view(topic),
            opt_view(source),
            opt_view(subscriber.name),
            opt_view(subscriber.phone),
            opt_view(subscriber.email),
        ),
{
    match data {
        Json::Object(mut m) => {
            let ghost m0 = members_view(m@);
            proof {
                lemma_distinct_keys();
                if topic is Some {
                    let t = topic->0@;
                    let s2 = if source is Some { source->0@ } else { t };
                    lemma_other_list_kept(m0, "topics"@, "sources"@, t, s2);
                }
            }
            let subscribed = add_optional_item(&mut m, "topics", "sources", topic);
            let _ = add_optional_item(&mut m, "sources", "topics", source);
            proof {
                if source is Some {
                    lemma_other_list_kept(subscribed_step(m0, opt_view(topic)), "sources"@, "topics"@, source->0@, source->0@);
                }
            }
            let fresh = put_subscriber(&mut m, subscriber);
            (subscribed || fresh, Json::Object(m))
        },
        _ => unreached(),
    }
}

/// The data after the topic step of a subscription.
pub open spec fn subscribed_step(data: Members, topic: Option<Seq<char>>) -> Members {
    match topic {
        Some(t) => subscription_with_item(data, "topics"@, "sources"@, t).0,
        None => data,
    }
}

/// Adds `item`, when there is one, to the list `key` of the subscription.
fn add_optional_item(data: &mut Vec<(String, Json)>, key: &str, other: &str, item: Option<String>) -> (added: bool)
    requires
        match item {
            Some(t) => subscription_item_ok(members_view(old(data)@), key@, t@),
            None => true,
        },
    ensures
        (members_view(final(data)@), added) == match item {
            Some(t) => subscription_with_item(members_view(old(data)@), key@, other@, t@),
            None => (members_view(old(data)@), false),
        },
{
    match item {
        Some(t) => add_to_subscription_list(data, key, other, t),
        None => false,
    }
}

/// The member names of a subscription are distinct.
pub proof fn lemma_distinct_keys()
    ensures
        "topics"@ != "sources"@,
        "subscribed"@ != "topics"@,
        "subscribed"@ != "sources"@,
        "subscribed"@ != "confirmed"@,
        "subscribed"@ != "name"@,
        "subscribed"@ != "confirmation_key"@,
        "name"@ != "topics"@,
        "name"@ != "confirmed"@,
        "name"@ != "confirmation_key"@,
        "phone"@ != "topics"@,
        "phone"@ != "confirmed"@,
        "phone"@ != "subscribed"@,
        "phone"@ != "name"@,
        "email"@ != "topics"@,
        "email"@ != "confirmed"@,
        "email"@ != "subscribed"@,
        "email"@ != "name"@,
        "email"@ != "phone"@,
        "confirmed"@ != "confirmation_key"@,
        "confirmed"@ != "topics"@,
        "confirmation_key"@ != "topics"@,
        "email"@ != "sources"@,
        "name"@ != "sources"@,
        "subscription"@ != "topics"@,
        "phone"@ != "sources"@,
{
    reveal_strlit("topics");
    reveal_strlit("sources");
    reveal_strlit("subscribed");
    reveal_strlit("confirmed");
    reveal_strlit("confirmation_key");
    reveal_strlit("name");
    reveal_strlit("phone");
    reveal_strlit("email");
    reveal_strlit("subscription");
    assert("email"@.len() != "sources"@.len());
    assert("name"@.len() != "sources"@.len());
    assert("subscription"@.len() != "topics"@.len());
    assert("phone"@.len() != "sources"@.len());
    assert("topics"@.len() != "sources"@.len());
    assert("subscribed"@.len() != "topics"@.len());
    assert("subscribed"@[1] != "sources"@[1]);
    assert("subscribed"@.len() != "confirmed"@.len());
    assert("subscribed"@.len() != "name"@.len());
    assert("subscribed"@.len() != "confirmation_key"@.len());
    assert("name"@.len() != "topics"@.len());
    assert("name"@.len() != "confirmed"@.len());
    assert("name"@.len() != "confirmation_key"@.len());
    assert("phone"@.len() != "topics"@.len());
    assert("phone"@.len() != "confirmed"@.len());
    assert("phone"@.len() != "subscribed"@.len());
    assert("phone"@.len() != "name"@.len());
    assert("email"@.len() != "topics"@.len());
    assert("email"@.len() != "confirmed"@.len());
    assert("email"@.len() != "subscribed"@.len());
    assert("email"@.len() != "name"@.len());
    assert("email"@[0] != "phone"@[0]);
    assert("confirmed"@.len() != "confirmation_key"@.len());
    assert("confirmed"@.len() != "topics"@.len());
    assert("confirmation_key"@.len() != "topics"@.len());
}

/// The members of a user's data after an unsubscription. With a topic, the
/// topic is taken out of the subscription's topics; without one, the
/// subscription is marked not subscribed and its topics are emptied. A
/// subscription that does not exist is made, with no topics and no sources.
pub open spec fn unsubscribed_members(data: Members, topic: Option<Seq<char>>) -> Members {
    match member(data, "subscription"@) {
        Some(JsonV::Object(sm)) => match topic {
            Some(t) => match member(sm, "topics"@) {
                Some(JsonV::Array(a)) => with_member(
                    data,
                    "subscription"@,
                    JsonV::Object(with_member(sm, "topics"@, JsonV::Array(without_str(a, t)))),
                ),
                _ => data,
            },
            None => with_member(
                data,
                "subscription"@,
                JsonV::Object(
                    with_member(
                        with_member(sm, "subscribed"@, JsonV::Bool(false)),
                        "topics"@,
                        JsonV::Array(seq![]),
                    ),
                ),
            ),
        },
        Some(_) => data,
        None => with_member(
            data,
            "subscription"@,
            JsonV::Object(
                match topic {
                    Some(_) => seq![
                        ("topics"@, JsonV::Array(seq![])),
                        ("sources"@, JsonV::Array(seq![])),
                    ],
                    None => seq![
                        ("topics"@, JsonV::Array(seq![])),
                        ("sources"@, JsonV::Array(seq![])),
                        ("subscribed"@, JsonV::Bool(false)),
                    ],
                },
            ),
        ),
    }
}

/// An unsubscription can be recorded in this data: it is an object; with a
/// topic, the topics of an existing subscription object are absent or an
/// array of strings; without one, the subscription is absent or an object.
pub open spec fn unsubscribe_ok(data: JsonV, topic: Option<Seq<char>>) -> bool {
    match data {
        JsonV::Object(m) => match topic {
            Some(_) => match member(m, "subscription"@) {
                Some(JsonV::Object(sm)) => match member(sm, "topics"@) {
                    Some(JsonV::Array(a)) => all_strings(a),
                    Some(_) => false,
                    None => true,
                },
                _ => true,
            },
            None => subscription_slot_ok(m),
        },
        _ => false,
    }
}

/// `items` without the strings equal to `t`, in their order.
fn strings_without(items: Vec<Json>, t: &String) -> (r: Vec<Json>)
    ensures
        items_view(r@) == without_str(items_view(items@), t@),
{
    let ghost orig = items_view(items@);
    let mut rest = items;
    let mut kept: Vec<Json> = Vec::new();
    let ghost mut n: int = 0;
    while rest.len() > 0
        invariant
            0 <= n <= orig.len(),
            items_view(rest@) == orig.skip(n),
            items_view(kept@) == without_str(orig.take(n), t@),
        decreases rest.len(),
    {
        let ghost old_rest = rest@;
        let ghost before = items_view(rest@);
        let x = rest.remove(0);
        assert(x == old_rest[0]);
        assert(before[0] == json_view(old_rest[0]));
        assert(before == orig.skip(n));
        assert(before.len() > 0);
        assert(orig.skip(n)[0] == orig[n]);
        assert(x@ == json_view(x));
        assert(x@ == orig[n]);
        assert(items_view(rest@) =~= orig.skip(n + 1)) by {
            assert forall|j: int| 0 <= j < rest@.len() implies items_view(rest@)[j] == orig.skip(
                n + 1,
            )[j] by {
                assert(rest@[j] == old_rest[j + 1]);
                assert(before[j + 1] == json_view(old_rest[j + 1]));
                assert(before[j + 1] == orig.skip(n)[j + 1]);
            }
        }
        assert(orig.take(n + 1).drop_last() =~= orig.take(n));
        let keep = match &x {
            Json::Str(s) => !(*s == *t),
            _ => true,
        };
        let ghost kv = items_view(kept@);
        if keep {
            kept.push(x);
            assert(items_view(kept@) =~= kv.push(orig[n]));
        }
        proof {
            n = n + 1;
        }
    }
    assert(orig.take(n) =~= orig);
    kept
}

/// Records an unsubscription in a user's data: with a topic, the topic is
/// removed from the subscription's topics; without one, the subscription is
/// marked not subscribed and all its topics are dropped.
pub fn remove_subscription_info(data: Json, topic: Option<String>) -> (r: Json)
    requires
        unsubscribe_ok(data@, opt_view(topic)),
    ensures
        r@ == JsonV::Object(unsubscribed_members(object_members(data@)->0, opt_view(topic))),
{
    match data {
        Json::Object(mut m) => {
            let ghost m0 = members_view(m@);
            proof {
                lemma_member_index(m0, "subscription"@);
            }
            match find_member(&m, "subscription") {
                Some(i) => {
                    let (k, sub) = m.remove(i);
                    assert(sub@ == m0[i as int].1);
                    let new_sub = match sub {
                        Json::Object(mut sm) => {
                            let ghost s0 = members_view(sm@);
                            match topic {
                                Some(t) => {
                                    proof {
                                        lemma_member_index(s0, "topics"@);
                                    }
                                    match find_member(&sm, "topics") {
                                        Some(j) => {
                                            let (tk, list) = sm.remove(j);
                                            assert(list@ == s0[j as int].1);
                                            match list {
                                                Json::Array(a) => {
                                                    let kept = strings_without(a, &t);
                                                    sm.insert(j, (tk, Json::Array(kept)));
                                                    assert(members_view(sm@) =~= s0.update(
                                                        j as int,
                                                        ("topics"@, JsonV::Array(items_view(kept@))),
                                                    ));
                                                },
                                                _ => {
                                                    return unreached();
                                                },
                                            }
                                        },
                                        None => {},
                                    }
                                },
                                None => {
                                    let _ = insert_member(
                                        &mut sm,
                                        owned("subscribed"),
                                        Json::Bool(false),
                                    );
                                    let _ = insert_member(
                                        &mut sm,
                                        owned("topics"),
                                        Json::Array(Vec::new()),
                                    );
                                    assert(items_view(Seq::<Json>::empty()) =~= Seq::<JsonV>::empty());
                                },
                            }
                            Json::Object(sm)
                        },
                        other => {
                            if topic.is_none() {
                                return unreached();
                            }
                            other
                        },
                    };
                    let ghost nv = new_sub@;
                    m.insert(i, (k, new_sub));
                    assert(members_view(m@) =~= m0.update(i as int, ("subscription"@, nv)));
                    proof {
                        if nv == m0[i as int].1 {
                            assert(members_view(m@) =~= m0);
                        }
                    }
                },
                None => {
                    let fresh = match topic {
                        Some(_) => vec![
                            (owned("topics"), Json::Array(Vec::new())),
                            (owned("sources"), Json::Array(Vec::new())),
                        ],
                        None => vec![
                            (owned("topics"), Json::Array(Vec::new())),
                            (owned("sources"), Json::Array(Vec::new())),
                            (owned("subscribed"), Json::Bool(false)),
                        ],
                    };
                    proof {
                        assert(items_view(Seq::<Json>::empty()) =~= Seq::<JsonV>::empty());
                        if topic is Some {
                            assert(members_view(fresh@) =~= seq![
                                ("topics"@, JsonV::Array(seq![])),
                                ("sources"@, JsonV::Array(seq![])),
                            ]);
                        } else {
                            assert(members_view(fresh@) =~= seq![
                                ("topics"@, JsonV::Array(seq![])),
                                ("sources"@, JsonV::Array(seq![])),
                                ("subscribed"@, JsonV::Bool(false)),
                            ]);
                        }
                    }
                    let _ = insert_member(&mut m, owned("subscription"), Json::Object(fresh));
                },
            }
            Json::Object(m)
        },
        _ => unreached(),
    }
}

/// The members of a user's data once the subscription is confirmed: the
/// subscription is marked confirmed and its confirmation key is dropped.
pub open spec fn verified_members(data: Members) -> Members {
    match member(data, "subscription"@) {
        Some(JsonV::Object(sm)) => with_member(
            data,
            "subscription"@,
            JsonV::Object(
                without_member(
                    with_member(sm, "confirmed"@, JsonV::Bool(true)),
                    "confirmation_key"@,
                ),
            ),
        ),
        _ => data,
    }
}

/// Marks the subscription in a user's data as confirmed, dropping its
/// confirmation key. The data must hold a subscription object.
pub fn mark_subscription_verified(user_data: Json) -> (r: Json)
    requires
        subscription_object(user_data@) is Some,
    ensures
        r@ == JsonV::Object(verified_members(object_members(user_data@)->0)),
{
    match user_data {
        Json::Object(mut m) => {
            let ghost m0 = members_view(m@);
            proof {
                lemma_member_index(m0, "subscription"@);
            }
            match find_member(&m, "subscription") {
                Some(i) => {
                    let (k, sub) = m.remove(i);
                    assert(sub@ == m0[i as int].1);
                    match sub {
                        Json::Object(mut sm) => {
                            let _ = insert_member(&mut sm, owned("confirmed"), Json::Bool(true));
                            let _ = remove_member(&mut sm, "confirmation_key");
                            m.insert(i, (k, Json::Object(sm)));
                            assert(members_view(m@) =~= m0.update(
                                i as int,
                                ("subscription"@, JsonV::Object(members_view(sm@))),
                            ));
                        },
                        _ => {
                            return unreached();
                        },
                    }
                },
                None => {
                    return unreached();
                },
            }
            Json::Object(m)
        },
        _ => unreached(),
    }
}

/// The members of a user's data with a confirmation key stored in its
/// subscription; a subscription that does not exist is made to hold it.
pub open spec fn with_confirmation_key(data: Members, key: Seq<char>) -> Members {
    match member(data, "subscription"@) {
        Some(JsonV::Object(sm)) => with_member(
            data,
            "subscription"@,
            JsonV::Object(with_member(sm, "confirmation_key"@, JsonV::Str(key))),
        ),
        Some(_) => data,
        None => with_member(
            data,
            "subscription"@,
            JsonV::Object(seq![("confirmation_key"@, JsonV::Str(key))]),
        ),
    }
}

/// Stores the key that confirms the subscription in a user's data.
pub fn add_confirmation_key_in_user(user_data: Json, key: &str) -> (r: Json)
    requires
        user_data@ is Object,
        subscription_slot_ok(object_members(user_data@)->0),
    ensures
        r@ == JsonV::Object(with_confirmation_key(object_members(user_data@)->0, key@)),
{
    match user_data {
        Json::Object(mut m) => {
            let ghost m0 = members_view(m@);
            proof {
                lemma_member_index(m0, "subscription"@);
            }
            match find_member(&m, "subscription") {
                Some(i) => {
                    let (k, sub) = m.remove(i);
                    assert(sub@ == m0[i as int].1);
                    match sub {
                        Json::Object(mut sm) => {
                            let _ = insert_member(
                                &mut sm,
                                owned("confirmation_key"),
                                Json::Str(owned(key)),
                            );
                            m.insert(i, (k, Json::Object(sm)));
                            assert(members_view(m@) =~= m0.update(
                                i as int,
                                ("subscription"@, JsonV::Object(members_view(sm@))),
                            ));
                        },
                        _ => {
                            return unreached();
                        },
                    }
                },
                None => {
                    let fresh = vec![(owned("confirmation_key"), Json::Str(owned(key)))];
                    assert(members_view(fresh@) =~= seq![("confirmation_key"@, JsonV::Str(key@))]);
                    let _ = insert_member(&mut m, owned("subscription"), Json::Object(fresh));
                },
            }
            Json::Object(m)
        },
        _ => unreached(),
    }
}

/// The value is the boolean `true`.
pub open spec fn is_true(v: Option<JsonV>) -> bool {
    v == Some(JsonV::Bool(true))
}

/// The user has subscribed (to `topic`, or to everything when there is no
/// topic) and has confirmed the subscription from the double opt-in email.
pub open spec fn subscription_active(topic: Option<Seq<char>>, data: JsonV) -> bool {
    match subscription_object(data) {
        Some(sm) => {
            let subscribed = match topic {
                Some(t) => match member(sm, "topics"@) {
                    Some(JsonV::Array(a)) => contains_str(a, t),
                    _ => false,
                },
                None => is_true(member(sm, "subscribed"@)),
            };
            subscribed && is_true(member(sm, "confirmed"@))
        },
        None => false,
    }
}

/// The subscription object of a user's data.
fn subscription_ref(user_data: &Json) -> (r: Option<&Vec<(String, Json)>>)
    ensures
        match r {
            Some(sm) => subscription_object(user_data@) == Some(members_view(sm@)),
            None => subscription_object(user_data@) is None,
        },
{
    match user_data {
        Json::Object(m) => match get_member(m, "subscription") {
            Some(Json::Object(sm)) => Some(sm),
            _ => None,
        },
        _ => None,
    }
}

/// The member `key` of an object holds `true`.
fn member_is_true(members: &Vec<(String, Json)>, key: &str) -> (r: bool)
    ensures
        r == is_true(member(members_view(members@), key@)),
{
    match get_member(members, key) {
        Some(Json::Bool(b)) => *b,
        _ => false,
    }
}

/// The array holds a string equal to `t`; other elements are passed over.
fn has_string(items: &Vec<Json>, t: &String) -> (r: bool)
    ensures
        r == contains_str(items_view(items@), t@),
{
    let ghost a = items_view(items@);
    let mut i: usize = 0;
    while i < items.len()
        invariant
            0 <= i <= items.len(),
            a == items_view(items@),
            a.len() == items@.len(),
            forall|j: int| 0 <= j < i ==> a[j] != JsonV::Str(t@),
        decreases items.len() - i,
    {
        assert(a[i as int] == items@[i as int]@);
        match &items[i] {
            Json::Str(s) => {
                if *s == *t {
                    return true;
                }
            },
            _ => {},
        }
        i = i + 1;
    }
    false
}

/// Whether the user has subscribed (to `topic`, or to everything when there
/// is no topic) and has confirmed the subscription by clicking the link in
/// the double opt-in email.
pub fn check_if_subscribed(topic: Option<String>, user_data: Json) -> (r: bool)
    ensures
        r == subscription_active(opt_view(topic), user_data@),
{
    match subscription_ref(&user_data) {
        Some(sm) => {
            let subscribed = match &topic {
                Some(t) => match get_member(sm, "topics") {
                    Some(Json::Array(a)) => has_string(a, t),
                    _ => false,
                },
                None => member_is_true(sm, "subscribed"),
            };
            let confirmed = member_is_true(sm, "confirmed");
            subscribed && confirmed
        },
        None => false,
    }
}

/// The subscriber's name stored in the subscription, or the empty string.
pub open spec fn subscription_name(data: JsonV) -> Seq<char> {
    match subscription_object(data) {
        Some(sm) => match member(sm, "name"@) {
            Some(JsonV::Str(n)) => n,
            _ => Seq::empty(),
        },
        None => Seq::empty(),
    }
}

/// The subscriber's name stored in the subscription of a user's data, or the
/// empty string when there is none.
pub fn get_name(user_data: &Json) -> (r: String)
    ensures
        r@ == subscription_name(user_data@),
{
    match subscription_ref(user_data) {
        Some(sm) => match get_member(sm, "name") {
            Some(Json::Str(n)) => n.clone(),
            _ => String::new(),
        },
        None => String::new(),
    }
}

/// The data of a user made for a new subscriber. A subscriber with an email
/// address gets the email identity with that address, and a subscription
/// identified by it; one without an address gets a subscription identified
/// by the phone number. The subscription holds the name too.
pub open spec fn new_user_members(
    name: Option<Seq<char>>,
    email: Option<Seq<char>>,
    phone: Option<Seq<char>>,
) -> Members {
    match email {
        Some(e) => seq![
            ("email"@, JsonV::Object(seq![
                ("emails"@, JsonV::Array(seq![JsonV::Str(e)])),
                ("identity"@, JsonV::Str(e)),
            ])),
            ("subscription"@, JsonV::Object(seq![
                ("identity"@, JsonV::Str(e)),
                ("name"@, opt_str_json(name)),
            ])),
        ],
        None => seq![
            ("subscription"@, JsonV::Object(seq![
                ("identity"@, opt_str_json(phone)),
                ("name"@, opt_str_json(name)),
            ])),
        ],
    }
}

/// The data of a user made for a new subscriber.
pub fn new_user_data(subscriber: &Subscriber) -> (r: Json)
    ensures
        r@ == JsonV::Object(
            new_user_members(
                opt_view(subscriber.name),
                opt_view(subscriber.email),
                opt_view(subscriber.phone),
            ),
        ),
{
    match &subscriber.email {
        Some(e) => {
            let emails = vec![Json::Str(e.clone())];
            assert(items_view(emails@) =~= seq![JsonV::Str(e@)]);
            let email_identity = vec![
                (owned("emails"), Json::Array(emails)),
                (owned("identity"), Json::Str(e.clone())),
            ];
            let subscription = vec![
                (owned("identity"), Json::Str(e.clone())),
                (owned("name"), opt_string_json(copy_opt(&subscriber.name))),
            ];
            assert(members_view(email_identity@) =~= seq![
                ("emails"@, JsonV::Array(seq![JsonV::Str(e@)])),
                ("identity"@, JsonV::Str(e@)),
            ]);
            assert(members_view(subscription@) =~= seq![
                ("identity"@, JsonV::Str(e@)),
                ("name"@, opt_str_json(opt_view(subscriber.name))),
            ]);
            let top = vec![
                (owned("email"), Json::Object(email_identity)),
                (owned("subscription"), Json::Object(subscription)),
            ];
            assert(members_view(top@) =~= new_user_members(
                opt_view(subscriber.name),
                opt_view(subscriber.email),
                opt_view(subscriber.phone),
            ));
            Json::Object(top)
        },
        None => {
            let subscription = vec![
                (owned("identity"), opt_string_json(copy_opt(&subscriber.phone))),
                (owned("name"), opt_string_json(copy_opt(&subscriber.name))),
            ];
            assert(members_view(subscription@) =~= seq![
                ("identity"@, opt_str_json(opt_view(subscriber.phone))),
                ("name"@, opt_str_json(opt_view(subscriber.name))),
            ]);
            let top = vec![(owned("subscription"), Json::Object(subscription))];
            assert(members_view(top@) =~= new_user_members(
                opt_view(subscriber.name),
                opt_view(subscriber.email),
                opt_view(subscriber.phone),
            ));
            Json::Object(top)
        },
    }
}

/// The session data that remembers which user subscribed.
pub open spec fn session_members(user_id: int) -> Members {
    seq![("subscription_uid"@, JsonV::Number(signed_decimal(user_id)))]
}

/// The session data that remembers which user subscribed.
pub fn subscription_session_data(user_id: i64) -> (r: Json)
    ensures
        r@ == JsonV::Object(session_members(user_id as int)),
{
    let m = vec![(owned("subscription_uid"), Json::Number(signed_decimal_text(user_id)))];
    assert(members_view(m@) =~= session_members(user_id as int));
    Json::Object(m)
}

/// Every element of the array is a string, up to the first copy of `item`.
fn strings_up_to_item(items: &Vec<Json>, item: &String) -> (r: bool)
    ensures
        r == strings_up_to(items_view(items@), item@),
{
    let ghost a = items_view(items@);
    let mut i: usize = 0;
    while i < items.len()
        invariant
            0 <= i <= items.len(),
            a == items_view(items@),
            a.len() == items@.len(),
            forall|j: int| 0 <= j < i ==> a[j] is Str && a[j] != JsonV::Str(item@),
        decreases items.len() - i,
    {
        assert(a[i as int] == items@[i as int]@);
        match &items[i] {
            Json::Str(s) => {
                if *s == *item {
                    assert forall|k: int|
                        0 <= k < a.len() && (forall|j: int|
                            0 <= j < k ==> a[j] != JsonV::Str(item@)) implies a[k] is Str by {
                        if k > i {
                            assert(a[i as int] == JsonV::Str(item@));
                        }
                    }
                    return true;
                }
            },
            _ => {
                return false;
            },
        }
        i = i + 1;
    }
    true
}

/// Every element of the array is a string.
fn every_element_a_string(items: &Vec<Json>) -> (r: bool)
    ensures
        r == all_strings(items_view(items@)),
{
    let ghost a = items_view(items@);
    let mut i: usize = 0;
    while i < items.len()
        invariant
            0 <= i <= items.len(),
            a == items_view(items@),
            a.len() == items@.len(),
            forall|j: int| 0 <= j < i ==> a[j] is Str,
        decreases items.len() - i,
    {
        assert(a[i as int] == items@[i as int]@);
        match &items[i] {
            Json::Str(_) => {},
            _ => {
                return false;
            },
        }
        i = i + 1;
    }
    true
}

/// The member `"subscription"` of an object's members.
fn subscription_member(m: &Vec<(String, Json)>) -> (r: Option<&Json>)
    ensures
        match r {
            Some(v) => member(members_view(m@), "subscription"@) == Some(v@),
            None => member(members_view(m@), "subscription"@) is None,
        },
{
    get_member(m, "subscription")
}

/// Whether `item` can be added to the list `key` of the subscription.
fn item_can_be_added(m: &Vec<(String, Json)>, key: &str, item: &String) -> (r: bool)
    ensures
        r == subscription_item_ok(members_view(m@), key@, item@),
{
    match subscription_member(m) {
        Some(Json::Object(sm)) => match get_member(sm, key) {
            Some(Json::Array(a)) => strings_up_to_item(a, item),
            Some(_) => false,
            None => true,
        },
        Some(_) => false,
        None => true,
    }
}

/// Whether a subscription can be recorded in this data (what
/// `add_subscription_info` requires).
pub fn can_record_subscription(data: &Json, topic: &Option<String>, source: &Option<String>) -> (r:
    bool)
    ensures
        r == subscribe_ok(data@, opt_view(*topic), opt_view(*source)),
{
    match data {
        Json::Object(m) => {
            let slot = match subscription_member(m) {
                Some(Json::Object(_)) => true,
                Some(_) => false,
                None => true,
            };
            let topic_ok = match topic {
                Some(t) => item_can_be_added(m, "topics", t),
                None => true,
            };
            let source_ok = match source {
                Some(s) => item_can_be_added(m, "sources", s),
                None => true,
            };
            slot && topic_ok && source_ok
        },
        _ => false,
    }
}

/// Whether an unsubscription can be recorded in this data (what
/// `remove_subscription_info` requires).
pub fn can_record_unsubscription(data: &Json, topic: &Option<String>) -> (r: bool)
    ensures
        r == unsubscribe_ok(data@, opt_view(*topic)),
{
    match data {
        Json::Object(m) => match topic {
            Some(_) => match subscription_member(m) {
                Some(Json::Object(sm)) => match get_member(sm, "topics") {
                    Some(Json::Array(a)) => every_element_a_string(a),
                    Some(_) => false,
                    None => true,
                },
                _ => true,
            },
            None => match subscription_member(m) {
                Some(Json::Object(_)) => true,
                Some(_) => false,
                None => true,
            },
        },
        _ => false,
    }
}

/// Whether the data is an object whose subscription is absent or an object
/// (what `add_confirmation_key_in_user` requires).
pub fn can_store_confirmation_key(data: &Json) -> (r: bool)
    ensures
        r == (data@ is Object && subscription_slot_ok(object_members(data@)->0)),
{
    match data {
        Json::Object(m) => match subscription_member(m) {
            Some(Json::Object(_)) => true,
            Some(_) => false,
            None => true,
        },
        _ => false,
    }
}

/// Whether the data holds a subscription object (what
/// `mark_subscription_verified` requires).
pub fn has_subscription_object(data: &Json) -> (r: bool)
    ensures
        r == (subscription_object(data@) is Some),
{
    subscription_ref(data).is_some()
}

} // verus!
