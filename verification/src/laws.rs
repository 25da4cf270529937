//! What holds of the subscription record across subscribe, unsubscribe and
//! confirmation.
use vstd::prelude::*;
use crate::json::{
    all_strings, json_wf, member_index, lemma_wf_with_member, lemma_with_member_unique, lemma_set_then_remove, lemma_with_member_twice,
    JsonV, Members, contains_str, is_key_at, lemma_member_index, lemma_with_member,
    lemma_without_member, lemma_with_same_member, lemma_without_member_other, member, no_repeated_strings, object_members,
    strings_up_to, unique_keys,
    with_member,
};
use crate::numbers::{lemma_signed_decimal_reads_back, parsed_i64};
use crate::text::signed_decimal;
use crate::user_data::{
    subscription_active, is_true, lemma_distinct_keys, list_with_item, new_subscription,
    subscribe_ok, subscribed_data, subscribed_members, subscription_item_ok, subscription_name,
    subscription_object, subscription_slot_ok, subscription_with_item, unsubscribe_ok,
    unsubscribed_members, verified_members, with_confirmation_key, with_subscriber, without_str,
};

verus! {

/// After adding `item` to the list `key`, the subscription is an object whose
/// list `key` holds `item`.
proof fn lemma_item_added(data: Members, key: Seq<char>, other: Seq<char>, item: Seq<char>)
    requires
        key != other,
        subscription_item_ok(data, key, item),
    ensures
        member(subscription_with_item(data, key, other, item).0, "subscription"@) matches Some(
            JsonV::Object(sm),
        ) && member(sm, key) matches Some(JsonV::Array(a)) && contains_str(a, item)
            && strings_up_to(a, item),
{
    let sub_key = "subscription"@;
    match member(data, sub_key) {
        Some(JsonV::Object(sm)) => {
            let r = list_with_item(sm, key, item);
            lemma_with_member(data, sub_key, JsonV::Object(r.0), sub_key);
            match member(sm, key) {
                Some(JsonV::Array(a)) => {
                    if !contains_str(a, item) {
                        let a2 = a.push(JsonV::Str(item));
                        lemma_with_member(sm, key, JsonV::Array(a2), key);
                        assert(a2[a.len() as int] == JsonV::Str(item));
                        assert forall|i: int|
                            0 <= i < a2.len() && (forall|j: int|
                                0 <= j < i ==> a2[j] != JsonV::Str(item)) implies a2[i] is Str by {
                            if i < a.len() {
                                assert(a2[i] == a[i]);
                                assert forall|j: int| 0 <= j < i implies a[j] != JsonV::Str(item) by {
                                    assert(a2[j] == a[j]);
                                }
                            }
                        }
                    }
                },
                _ => {
                    let a2 = seq![JsonV::Str(item)];
                    lemma_with_member(sm, key, JsonV::Array(a2), key);
                    assert(a2[0] == JsonV::Str(item));
                },
            }
        },
        _ => {
            let a2 = seq![JsonV::Str(item)];
            let fresh = seq![(key, JsonV::Array(a2)), (other, JsonV::Array(seq![]))];
            lemma_with_member(data, sub_key, JsonV::Object(fresh), sub_key);
            lemma_member_index(fresh, key);
            assert(is_key_at(fresh, key, 0));
            assert(a2[0] == JsonV::Str(item));
        },
    }
}

/// Adding an item to the list `key` of an existing subscription object leaves
/// its other members as they were.
pub(crate) proof fn lemma_item_keeps(
    data: Members,
    key: Seq<char>,
    other: Seq<char>,
    item: Seq<char>,
    k2: Seq<char>,
)
    requires
        k2 != key,
        member(data, "subscription"@) matches Some(JsonV::Object(_)),
    ensures
        member(subscription_with_item(data, key, other, item).0, "subscription"@) matches Some(
            JsonV::Object(sm2),
        ) && member(sm2, k2) == member(object_members(member(data, "subscription"@)->0)->0, k2),
{
    let sub_key = "subscription"@;
    let sm = object_members(member(data, sub_key)->0)->0;
    let r = list_with_item(sm, key, item);
    lemma_with_member(data, sub_key, JsonV::Object(r.0), sub_key);
    match member(sm, key) {
        Some(JsonV::Array(a)) => {
            if !contains_str(a, item) {
                lemma_with_member(sm, key, JsonV::Array(a.push(JsonV::Str(item))), k2);
            }
        },
        Some(_) => {},
        None => {
            lemma_with_member(sm, key, JsonV::Array(seq![JsonV::Str(item)]), k2);
        },
    }
}

/// What recording the subscriber leaves in the subscription object.
pub(crate) proof fn lemma_subscriber_recorded(
    data: Members,
    name: Option<Seq<char>>,
    phone: Option<Seq<char>>,
    email: Option<Seq<char>>,
    k2: Seq<char>,
)
    requires
        subscription_slot_ok(data),
    ensures
        member(with_subscriber(data, name, phone, email).0, "subscription"@) matches Some(
            JsonV::Object(sm3),
        ) && is_true(member(sm3, "subscribed"@)) && (email matches Some(e) ==> member(sm3, "email"@) == Some(
            JsonV::Str(e),
        )) && (name matches Some(n) ==> member(sm3, "name"@) == Some(JsonV::Str(n))) && (phone matches Some(
            p,
        ) ==> member(sm3, "phone"@) == Some(JsonV::Str(p))) && ((member(
            data,
            "subscription"@,
        ) matches Some(JsonV::Object(sm)) && k2 != "subscribed"@ && k2 != "name"@ && k2
            != "phone"@ && k2 != "email"@) ==> member(sm3, k2) == member(
            object_members(member(data, "subscription"@)->0)->0,
            k2,
        )),
{
    let sub_key = "subscription"@;
    lemma_distinct_keys();
    match member(data, sub_key) {
        Some(JsonV::Object(sm)) => {
            let s1 = with_member(sm, "subscribed"@, JsonV::Bool(true));
            let s2 = match name {
                Some(n) => with_member(s1, "name"@, JsonV::Str(n)),
                None => s1,
            };
            let s3 = match phone {
                Some(p) => with_member(s2, "phone"@, JsonV::Str(p)),
                None => s2,
            };
            let s4 = match email {
                Some(e) => with_member(s3, "email"@, JsonV::Str(e)),
                None => s3,
            };
            lemma_with_member(data, sub_key, JsonV::Object(s4), sub_key);
            lemma_with_member(sm, "subscribed"@, JsonV::Bool(true), k2);
            match email {
                Some(e) => {
                    lemma_with_member(s3, "email"@, JsonV::Str(e), "subscribed"@);
                    lemma_with_member(s3, "email"@, JsonV::Str(e), "name"@);
                    lemma_with_member(s3, "email"@, JsonV::Str(e), "phone"@);
                    lemma_with_member(s3, "email"@, JsonV::Str(e), "email"@);
                    lemma_with_member(s3, "email"@, JsonV::Str(e), k2);
                },
                None => {},
            }
            match name {
                Some(n) => {
                    lemma_with_member(s1, "name"@, JsonV::Str(n), "subscribed"@);
                    lemma_with_member(s1, "name"@, JsonV::Str(n), "name"@);
                    lemma_with_member(s1, "name"@, JsonV::Str(n), k2);
                },
                None => {},
            }
            match phone {
                Some(p) => {
                    lemma_with_member(s2, "phone"@, JsonV::Str(p), "subscribed"@);
                    lemma_with_member(s2, "phone"@, JsonV::Str(p), "name"@);
                    lemma_with_member(s2, "phone"@, JsonV::Str(p), "phone"@);
                    lemma_with_member(s2, "phone"@, JsonV::Str(p), k2);
                },
                None => {},
            }
        },
        _ => {
            let fresh = new_subscription(name, phone, email);
            lemma_with_member(data, sub_key, JsonV::Object(fresh), sub_key);
            lemma_member_index(fresh, "subscribed"@);
            lemma_member_index(fresh, "email"@);
            lemma_member_index(fresh, "name"@);
            lemma_member_index(fresh, "phone"@);
            assert(is_key_at(fresh, "subscribed"@, 0));
            assert(is_key_at(fresh, "name"@, 3));
            reveal_strlit("phone");
            reveal_strlit("name");
            reveal_strlit("sources");
            reveal_strlit("topics");
            reveal_strlit("subscribed");
            assert(is_key_at(fresh, "phone"@, 4));
            reveal_strlit("double_optin");
            reveal_strlit("email");
            assert(is_key_at(fresh, "email"@, 5));
        },
    }
}

/// A subscription is recorded: the subscription is an object marked
/// subscribed, holding the subscriber's email, name and phone where given, whose topics hold the
/// topic subscribed to and whose sources hold the source given.
pub proof fn law_subscription_recorded(
    data: JsonV,
    topic: Option<Seq<char>>,
    source: Option<Seq<char>>,
    name: Option<Seq<char>>,
    phone: Option<Seq<char>>,
    email: Option<Seq<char>>,
)
    requires
        subscribe_ok(data, topic, source),
    ensures
        subscription_object(subscribed_data(data, topic, source, name, phone, email).1) matches Some(
            sm,
        ) && is_true(member(sm, "subscribed"@)) && (email matches Some(e) ==> member(sm, "email"@)
            == Some(JsonV::Str(e))) && (name matches Some(n) ==> member(sm, "name"@) == Some(JsonV::Str(n))) && (phone matches Some(
            p,
        ) ==> member(sm, "phone"@) == Some(JsonV::Str(p))) && (topic matches Some(t) ==> member(
            sm,
            "topics"@,
        ) matches Some(JsonV::Array(a)) && contains_str(a, t) && strings_up_to(a, t)) && (source matches Some(
            s,
        ) ==> member(sm, "sources"@) matches Some(JsonV::Array(a)) && contains_str(a, s)
            && strings_up_to(a, s)),
{
    lemma_distinct_keys();
    let m0 = object_members(data)->0;
    let p1 = match topic {
        Some(t) => subscription_with_item(m0, "topics"@, "sources"@, t),
        None => (m0, false),
    };
    let p2 = match source {
        Some(s) => subscription_with_item(p1.0, "sources"@, "topics"@, s),
        None => (p1.0, false),
    };
    let p3 = with_subscriber(p2.0, name, phone, email);
    assert(subscribed_members(m0, topic, source, name, phone, email) == (p3.0, p1.1 || p3.1));
    // after the topic step
    match topic {
        Some(t) => {
            lemma_item_added(m0, "topics"@, "sources"@, t);
        },
        None => {},
    }
    assert(subscription_slot_ok(p1.0));
    // after the source step
    match source {
        Some(s) => {
            assert(subscription_item_ok(p1.0, "sources"@, s)) by {
                if topic is Some {
                    let t = topic->0;
                    match member(m0, "subscription"@) {
                        Some(JsonV::Object(_)) => {
                            lemma_item_keeps(m0, "topics"@, "sources"@, t, "sources"@);
                        },
                        _ => {
                            let fresh = seq![
                                ("topics"@, JsonV::Array(seq![JsonV::Str(t)])),
                                ("sources"@, JsonV::Array(seq![])),
                            ];
                            lemma_with_member(m0, "subscription"@, JsonV::Object(fresh), "subscription"@);
                            lemma_member_index(fresh, "sources"@);
                            assert(is_key_at(fresh, "sources"@, 1));
                        },
                    }
                }
            }
            lemma_item_added(p1.0, "sources"@, "topics"@, s);
            if topic is Some {
                lemma_item_keeps(p1.0, "sources"@, "topics"@, s, "topics"@);
            }
        },
        None => {},
    }
    assert(subscription_slot_ok(p2.0));
    lemma_subscriber_recorded(p2.0, name, phone, email, "topics"@);
    lemma_subscriber_recorded(p2.0, name, phone, email, "sources"@);
    lemma_with_member(p3.0, "subscription"@, JsonV::Null, "subscription"@);
}

/// The subscriber's name is what the subscription reports afterwards.
pub proof fn law_subscribed_name(
    data: JsonV,
    topic: Option<Seq<char>>,
    source: Option<Seq<char>>,
    name: Seq<char>,
    phone: Option<Seq<char>>,
    email: Option<Seq<char>>,
)
    requires
        subscribe_ok(data, topic, source),
    ensures
        subscription_name(subscribed_data(data, topic, source, Some(name), phone, email).1) == name,
{
    law_subscription_recorded(data, topic, source, Some(name), phone, email);
}

/// A subscription that is confirmed afterwards counts as subscribed, both to
/// the topic subscribed to and to everything.
pub proof fn law_confirmed_subscription_is_subscribed(
    data: JsonV,
    topic: Option<Seq<char>>,
    source: Option<Seq<char>>,
    name: Option<Seq<char>>,
    phone: Option<Seq<char>>,
    email: Option<Seq<char>>,
)
    requires
        subscribe_ok(data, topic, source),
    ensures
        ({
            let after = JsonV::Object(
                verified_members(
                    object_members(subscribed_data(data, topic, source, name, phone, email).1)->0,
                ),
            );
            subscription_active(topic, after) && subscription_active(None, after)
        }),
{
    law_subscription_recorded(data, topic, source, name, phone, email);
    lemma_distinct_keys();
    let d1 = object_members(subscribed_data(data, topic, source, name, phone, email).1)->0;
    let sm = subscription_object(subscribed_data(data, topic, source, name, phone, email).1)->0;
    let s1 = with_member(sm, "confirmed"@, JsonV::Bool(true));
    let s2 = crate::json::without_member(s1, "confirmation_key"@);
    lemma_with_member(d1, "subscription"@, JsonV::Object(s2), "subscription"@);
    lemma_with_member(sm, "confirmed"@, JsonV::Bool(true), "confirmed"@);
    lemma_with_member(sm, "confirmed"@, JsonV::Bool(true), "topics"@);
    lemma_with_member(sm, "confirmed"@, JsonV::Bool(true), "subscribed"@);
    lemma_without_member_other(s1, "confirmation_key"@, "confirmed"@);
    lemma_without_member_other(s1, "confirmation_key"@, "topics"@);
    lemma_without_member_other(s1, "confirmation_key"@, "subscribed"@);
}

/// `t` is gone from an array once every copy of it is left out.
proof fn lemma_without_str(a: Seq<JsonV>, t: Seq<char>)
    ensures
        !contains_str(without_str(a, t), t),
    decreases a.len(),
{
    if a.len() > 0 {
        lemma_without_str(a.drop_last(), t);
        let rest = without_str(a.drop_last(), t);
        if a.last() != JsonV::Str(t) {
            let r = rest.push(a.last());
            assert forall|i: int| 0 <= i < r.len() implies r[i] != JsonV::Str(t) by {
                if i < rest.len() {
                    assert(r[i] == rest[i]);
                }
            }
        }
    }
}

/// Unsubscribing from a topic leaves the user not subscribed to it.
pub proof fn law_unsubscribed_from_topic(data: JsonV, t: Seq<char>)
    requires
        unsubscribe_ok(data, Some(t)),
    ensures
        !subscription_active(Some(t), JsonV::Object(unsubscribed_members(object_members(data)->0, Some(t)))),
{
    lemma_distinct_keys();
    let m = object_members(data)->0;
    let sub_key = "subscription"@;
    match member(m, sub_key) {
        Some(JsonV::Object(sm)) => match member(sm, "topics"@) {
            Some(JsonV::Array(a)) => {
                let kept = without_str(a, t);
                let s2 = with_member(sm, "topics"@, JsonV::Array(kept));
                lemma_with_member(m, sub_key, JsonV::Object(s2), sub_key);
                lemma_with_member(sm, "topics"@, JsonV::Array(kept), "topics"@);
                lemma_without_str(a, t);
            },
            _ => {},
        },
        Some(_) => {},
        None => {
            let fresh = seq![("topics"@, JsonV::Array(seq![])), ("sources"@, JsonV::Array(seq![]))];
            lemma_with_member(m, sub_key, JsonV::Object(fresh), sub_key);
            lemma_member_index(fresh, "topics"@);
            assert(is_key_at(fresh, "topics"@, 0));
        },
    }
}

/// Unsubscribing without a topic marks the subscription not subscribed and
/// empties its topics, so the user is subscribed to nothing: neither to
/// everything nor to any topic.
pub proof fn law_unsubscribed_from_everything(data: JsonV, q: Option<Seq<char>>)
    requires
        unsubscribe_ok(data, None),
    ensures
        subscription_object(JsonV::Object(unsubscribed_members(object_members(data)->0, None))) matches Some(
            sm,
        ) && member(sm, "subscribed"@) == Some(JsonV::Bool(false)) && member(sm, "topics"@) == Some(
            JsonV::Array(seq![]),
        ),
        !subscription_active(q, JsonV::Object(unsubscribed_members(object_members(data)->0, None))),
{
    lemma_distinct_keys();
    let m = object_members(data)->0;
    let sub_key = "subscription"@;
    match member(m, sub_key) {
        Some(JsonV::Object(sm)) => {
            let s1 = with_member(sm, "subscribed"@, JsonV::Bool(false));
            let s2 = with_member(s1, "topics"@, JsonV::Array(seq![]));
            lemma_with_member(m, sub_key, JsonV::Object(s2), sub_key);
            lemma_with_member(sm, "subscribed"@, JsonV::Bool(false), "subscribed"@);
            lemma_with_member(s1, "topics"@, JsonV::Array(seq![]), "topics"@);
            lemma_with_member(s1, "topics"@, JsonV::Array(seq![]), "subscribed"@);
        },
        _ => {
            let fresh = seq![
                ("topics"@, JsonV::Array(seq![])),
                ("sources"@, JsonV::Array(seq![])),
                ("subscribed"@, JsonV::Bool(false)),
            ];
            lemma_with_member(m, sub_key, JsonV::Object(fresh), sub_key);
            lemma_member_index(fresh, "topics"@);
            lemma_member_index(fresh, "subscribed"@);
            assert(is_key_at(fresh, "topics"@, 0));
            assert(is_key_at(fresh, "subscribed"@, 2));
        },
    }
}

/// The subscription object of well-formed data has distinct member names.
proof fn lemma_wf_subscription(data: JsonV)
    requires
        json_wf(data),
        subscription_object(data) is Some,
    ensures
        unique_keys(subscription_object(data)->0),
{
    let m = object_members(data)->0;
    lemma_member_index(m, "subscription"@);
    let i = member_index(m, "subscription"@);
    assert(data == JsonV::Object(m));
    assert(i != -1);
    assert(0 <= i < m.len());
    assert(m[i].1 matches JsonV::Object(sm) ==> unique_keys(sm));
    assert(m[i].1 == JsonV::Object(subscription_object(data)->0));
}

/// Confirming a subscription marks it confirmed and leaves no confirmation
/// key behind.
pub proof fn law_confirmation_clears_key(data: JsonV)
    requires
        json_wf(data),
        subscription_object(data) is Some,
    ensures
        subscription_object(JsonV::Object(verified_members(object_members(data)->0))) matches Some(
            sm,
        ) && is_true(member(sm, "confirmed"@)) && member(sm, "confirmation_key"@) is None,
{
    lemma_distinct_keys();
    lemma_wf_subscription(data);
    let m = object_members(data)->0;
    let sm = subscription_object(data)->0;
    let s1 = with_member(sm, "confirmed"@, JsonV::Bool(true));
    let s2 = crate::json::without_member(s1, "confirmation_key"@);
    lemma_with_member(m, "subscription"@, JsonV::Object(s2), "subscription"@);
    lemma_with_member(sm, "confirmed"@, JsonV::Bool(true), "confirmed"@);
    lemma_without_member_other(s1, "confirmation_key"@, "confirmed"@);
    crate::json::lemma_with_member_unique(sm, "confirmed"@, JsonV::Bool(true));
    lemma_without_member(s1, "confirmation_key"@);
}

/// The confirmation key stored in a subscription is the key given.
pub proof fn law_confirmation_key_stored(data: JsonV, key: Seq<char>)
    requires
        data is Object,
        subscription_slot_ok(object_members(data)->0),
    ensures
        subscription_object(JsonV::Object(with_confirmation_key(object_members(data)->0, key))) matches Some(
            sm,
        ) && member(sm, "confirmation_key"@) == Some(JsonV::Str(key)),
{
    let m = object_members(data)->0;
    let sub_key = "subscription"@;
    match member(m, sub_key) {
        Some(JsonV::Object(sm)) => {
            let s1 = with_member(sm, "confirmation_key"@, JsonV::Str(key));
            lemma_with_member(m, sub_key, JsonV::Object(s1), sub_key);
            lemma_with_member(sm, "confirmation_key"@, JsonV::Str(key), "confirmation_key"@);
        },
        _ => {
            let fresh = seq![("confirmation_key"@, JsonV::Str(key))];
            lemma_with_member(m, sub_key, JsonV::Object(fresh), sub_key);
            lemma_member_index(fresh, "confirmation_key"@);
            assert(is_key_at(fresh, "confirmation_key"@, 0));
        },
    }
}

/// The list `k` of the subscription, when it is an array, has no string twice.
pub open spec fn list_without_repeats(data: Members, k: Seq<char>) -> bool {
    match member(data, "subscription"@) {
        Some(JsonV::Object(sm)) => match member(sm, k) {
            Some(JsonV::Array(a)) => no_repeated_strings(a),
            _ => true,
        },
        _ => true,
    }
}

proof fn lemma_push_new_string(a: Seq<JsonV>, t: Seq<char>)
    requires
        no_repeated_strings(a),
        !contains_str(a, t),
    ensures
        no_repeated_strings(a.push(JsonV::Str(t))),
{
    let b = a.push(JsonV::Str(t));
    assert forall|i: int, j: int|
        0 <= i < b.len() && 0 <= j < b.len() && i != j && b[i] is Str implies b[i] != b[j] by {
        if i < a.len() && j < a.len() {
            assert(b[i] == a[i] && b[j] == a[j]);
        } else if i == a.len() {
            assert(b[j] == a[j]);
        } else {
            assert(b[i] == a[i]);
        }
    }
}

/// Adding an item to one list keeps both lists free of repeated strings.
proof fn lemma_item_step_no_repeats(
    data: Members,
    key: Seq<char>,
    other: Seq<char>,
    item: Seq<char>,
    k: Seq<char>,
)
    requires
        key != other,
        k == key || k == other,
        subscription_item_ok(data, key, item),
        list_without_repeats(data, k),
    ensures
        list_without_repeats(subscription_with_item(data, key, other, item).0, k),
{
    let sub_key = "subscription"@;
    match member(data, sub_key) {
        Some(JsonV::Object(sm)) => {
            let r = list_with_item(sm, key, item);
            lemma_with_member(data, sub_key, JsonV::Object(r.0), sub_key);
            match member(sm, key) {
                Some(JsonV::Array(a)) => {
                    if !contains_str(a, item) {
                        let a2 = a.push(JsonV::Str(item));
                        lemma_with_member(sm, key, JsonV::Array(a2), k);
                        if k == key {
                            lemma_push_new_string(a, item);
                        }
                    }
                },
                Some(_) => {},
                None => {
                    lemma_with_member(sm, key, JsonV::Array(seq![JsonV::Str(item)]), k);
                },
            }
        },
        Some(_) => {},
        None => {
            let fresh = seq![(key, JsonV::Array(seq![JsonV::Str(item)])), (other, JsonV::Array(seq![]))];
            lemma_with_member(data, sub_key, JsonV::Object(fresh), sub_key);
            lemma_member_index(fresh, k);
            if k == key {
                assert(is_key_at(fresh, key, 0));
            } else {
                assert(is_key_at(fresh, other, 1));
            }
        },
    }
}

/// Recording the subscriber keeps the topics and sources free of repeats.
proof fn lemma_subscriber_step_no_repeats(
    data: Members,
    name: Option<Seq<char>>,
    phone: Option<Seq<char>>,
    email: Option<Seq<char>>,
    k: Seq<char>,
)
    requires
        k == "topics"@ || k == "sources"@,
        subscription_slot_ok(data),
        list_without_repeats(data, k),
    ensures
        list_without_repeats(with_subscriber(data, name, phone, email).0, k),
{
    lemma_distinct_keys();
    lemma_subscriber_recorded(data, name, phone, email, k);
    match member(data, "subscription"@) {
        Some(JsonV::Object(_)) => {},
        _ => {
            let fresh = new_subscription(name, phone, email);
            lemma_with_member(data, "subscription"@, JsonV::Object(fresh), "subscription"@);
            lemma_member_index(fresh, k);
            reveal_strlit("subscribed");
            reveal_strlit("topics");
            reveal_strlit("sources");
            if k == "topics"@ {
                assert(is_key_at(fresh, "topics"@, 1));
            } else {
                assert(is_key_at(fresh, "sources"@, 2));
            }
        },
    }
}

/// No topic and no source is added twice: when the subscription's topics
/// (or sources) hold no string twice, they still do after a subscription.
pub proof fn law_no_repeated_entries(
    data: JsonV,
    topic: Option<Seq<char>>,
    source: Option<Seq<char>>,
    name: Option<Seq<char>>,
    phone: Option<Seq<char>>,
    email: Option<Seq<char>>,
    k: Seq<char>,
)
    requires
        subscribe_ok(data, topic, source),
        k == "topics"@ || k == "sources"@,
        list_without_repeats(object_members(data)->0, k),
    ensures
        list_without_repeats(
            object_members(subscribed_data(data, topic, source, name, phone, email).1)->0,
            k,
        ),
{
    lemma_distinct_keys();
    let m0 = object_members(data)->0;
    let p1 = match topic {
        Some(t) => subscription_with_item(m0, "topics"@, "sources"@, t),
        None => (m0, false),
    };
    let p2 = match source {
        Some(s) => subscription_with_item(p1.0, "sources"@, "topics"@, s),
        None => (p1.0, false),
    };
    match topic {
        Some(t) => {
            lemma_item_step_no_repeats(m0, "topics"@, "sources"@, t, k);
            if source is Some {
                lemma_other_list_kept_ok(m0, t, source->0);
            }
        },
        None => {},
    }
    match source {
        Some(s) => {
            lemma_item_step_no_repeats(p1.0, "sources"@, "topics"@, s, k);
        },
        None => {},
    }
    lemma_slot_after_steps(m0, topic, source);
    lemma_subscriber_step_no_repeats(p2.0, name, phone, email, k);
}

/// After the topic step, the sources can still take the source.
proof fn lemma_other_list_kept_ok(m0: Members, t: Seq<char>, s: Seq<char>)
    requires
        subscription_item_ok(m0, "topics"@, t),
        subscription_item_ok(m0, "sources"@, s),
    ensures
        subscription_item_ok(subscription_with_item(m0, "topics"@, "sources"@, t).0, "sources"@, s),
{
    lemma_distinct_keys();
    crate::user_data::lemma_other_list_kept(m0, "topics"@, "sources"@, t, s);
}

/// After the topic and source steps the subscription is an object.
proof fn lemma_slot_after_steps(m0: Members, topic: Option<Seq<char>>, source: Option<Seq<char>>)
    requires
        subscribe_ok(JsonV::Object(m0), topic, source),
    ensures
        ({
            let p1 = match topic {
                Some(t) => subscription_with_item(m0, "topics"@, "sources"@, t),
                None => (m0, false),
            };
            let p2 = match source {
                Some(s) => subscription_with_item(p1.0, "sources"@, "topics"@, s),
                None => (p1.0, false),
            };
            subscription_slot_ok(p1.0) && subscription_slot_ok(p2.0) && (source matches Some(s)
                ==> subscription_item_ok(p1.0, "sources"@, s))
        }),
{
    lemma_distinct_keys();
    match topic {
        Some(t) => {
            let s2 = match source {
                Some(s) => s,
                None => t,
            };
            crate::user_data::lemma_other_list_kept(m0, "topics"@, "sources"@, t, s2);
        },
        None => {},
    }
    let p1 = match topic {
        Some(t) => subscription_with_item(m0, "topics"@, "sources"@, t),
        None => (m0, false),
    };
    match source {
        Some(s) => {
            crate::user_data::lemma_other_list_kept(p1.0, "sources"@, "topics"@, s, s);
        },
        None => {},
    }
}

/// Subscribing twice with the same request makes no new subscription the
/// second time and leaves the data as the first time left it.
pub proof fn law_subscribe_twice(
    data: JsonV,
    topic: Option<Seq<char>>,
    source: Option<Seq<char>>,
    name: Option<Seq<char>>,
    phone: Option<Seq<char>>,
    email: Option<Seq<char>>,
)
    requires
        subscribe_ok(data, topic, source),
    ensures
        ({
            let once = subscribed_data(data, topic, source, name, phone, email).1;
            subscribe_ok(once, topic, source) && subscribed_data(
                once,
                topic,
                source,
                name,
                phone,
                email,
            ) == (false, once)
        }),
{
    law_subscription_recorded(data, topic, source, name, phone, email);
    lemma_distinct_keys();
    let once = subscribed_data(data, topic, source, name, phone, email).1;
    let m1 = object_members(once)->0;
    let sm = subscription_object(once)->0;
    let sub_key = "subscription"@;
    assert(member(m1, sub_key) == Some(JsonV::Object(sm)));
    lemma_with_same_member(m1, sub_key, JsonV::Object(sm));
    // the topic and source steps change nothing
    match topic {
        Some(t) => {
            assert(list_with_item(sm, "topics"@, t) == (sm, false));
        },
        None => {},
    }
    match source {
        Some(s) => {
            assert(list_with_item(sm, "sources"@, s) == (sm, false));
        },
        None => {},
    }
    // recording the subscriber again changes nothing
    lemma_with_same_member(sm, "subscribed"@, JsonV::Bool(true));
    let s1 = with_member(sm, "subscribed"@, JsonV::Bool(true));
    let s2 = match name {
        Some(n) => with_member(s1, "name"@, JsonV::Str(n)),
        None => s1,
    };
    match name {
        Some(n) => {
            lemma_with_same_member(s1, "name"@, JsonV::Str(n));
        },
        None => {},
    }
    let s3 = match phone {
        Some(p) => with_member(s2, "phone"@, JsonV::Str(p)),
        None => s2,
    };
    match phone {
        Some(p) => {
            lemma_with_same_member(s2, "phone"@, JsonV::Str(p));
        },
        None => {},
    }
    match email {
        Some(e) => {
            lemma_with_same_member(s3, "email"@, JsonV::Str(e));
        },
        None => {},
    }
    assert(with_subscriber(m1, name, phone, email) == (m1, false));
}

/// Confirming a subscription after a confirmation key was stored gives the
/// same data as confirming it without the key: the key leaves no trace.
pub proof fn law_confirm_after_key(data: JsonV, key: Seq<char>)
    requires
        subscription_object(data) is Some,
    ensures
        verified_members(with_confirmation_key(object_members(data)->0, key)) == verified_members(
            object_members(data)->0,
        ),
{
    lemma_distinct_keys();
    let m = object_members(data)->0;
    let sm = subscription_object(data)->0;
    let ck = "confirmation_key"@;
    let cf = "confirmed"@;
    let sm1 = with_member(sm, ck, JsonV::Str(key));
    let m1 = with_member(m, "subscription"@, JsonV::Object(sm1));
    lemma_with_member(m, "subscription"@, JsonV::Object(sm1), "subscription"@);
    let done = crate::json::without_member(with_member(sm, cf, JsonV::Bool(true)), ck);
    lemma_set_then_remove(sm, ck, JsonV::Str(key), cf, JsonV::Bool(true));
    lemma_with_member_twice(m, "subscription"@, JsonV::Object(sm1), JsonV::Object(done));
}

/// With every copy of `t` left out, leaving `t` out again changes nothing.
proof fn lemma_without_str_twice(a: Seq<JsonV>, t: Seq<char>)
    ensures
        without_str(without_str(a, t), t) == without_str(a, t),
        all_strings(a) ==> all_strings(without_str(a, t)),
    decreases a.len(),
{
    if a.len() > 0 {
        lemma_without_str_twice(a.drop_last(), t);
        let rest = without_str(a.drop_last(), t);
        if all_strings(a) {
            assert forall|i: int| 0 <= i < a.len() - 1 implies a.drop_last()[i] is Str by {
                assert(a.drop_last()[i] == a[i]);
            }
        }
        if a.last() != JsonV::Str(t) {
            let r = rest.push(a.last());
            assert(r.drop_last() =~= rest);
            assert(r.last() == a.last());
            if all_strings(a) {
                assert(a[a.len() - 1] is Str);
                assert forall|i: int| 0 <= i < r.len() implies r[i] is Str by {
                    if i < rest.len() {
                        assert(r[i] == rest[i]);
                    }
                }
            }
        }
    }
}

/// Unsubscribing twice with the same request leaves the data as
/// unsubscribing once does.
pub proof fn law_unsubscribe_twice(data: JsonV, topic: Option<Seq<char>>)
    requires
        unsubscribe_ok(data, topic),
    ensures
        ({
            let once = unsubscribed_members(object_members(data)->0, topic);
            unsubscribe_ok(JsonV::Object(once), topic) && unsubscribed_members(once, topic) == once
        }),
{
    lemma_distinct_keys();
    let m = object_members(data)->0;
    let once = unsubscribed_members(m, topic);
    let sub_key = "subscription"@;
    let tk = "topics"@;
    let sk = "subscribed"@;
    match member(m, sub_key) {
        Some(JsonV::Object(sm)) => match topic {
            Some(t) => match member(sm, tk) {
                Some(JsonV::Array(a)) => {
                    let a1 = without_str(a, t);
                    let sm1 = with_member(sm, tk, JsonV::Array(a1));
                    lemma_with_member(m, sub_key, JsonV::Object(sm1), sub_key);
                    lemma_with_member(sm, tk, JsonV::Array(a1), tk);
                    lemma_without_str_twice(a, t);
                    lemma_with_same_member(sm1, tk, JsonV::Array(a1));
                    lemma_with_same_member(once, sub_key, JsonV::Object(sm1));
                },
                _ => {},
            },
            None => {
                let s1 = with_member(sm, sk, JsonV::Bool(false));
                let s2 = with_member(s1, tk, JsonV::Array(seq![]));
                lemma_with_member(m, sub_key, JsonV::Object(s2), sub_key);
                lemma_with_member(s1, tk, JsonV::Array(seq![]), sk);
                lemma_with_member(s1, tk, JsonV::Array(seq![]), tk);
                lemma_with_member(sm, sk, JsonV::Bool(false), sk);
                lemma_with_same_member(s2, sk, JsonV::Bool(false));
                lemma_with_same_member(s2, tk, JsonV::Array(seq![]));
                lemma_with_same_member(once, sub_key, JsonV::Object(s2));
            },
        },
        Some(_) => {},
        None => {
            let fresh = match topic {
                Some(_) => seq![
                    ("topics"@, JsonV::Array(seq![])),
                    ("sources"@, JsonV::Array(seq![])),
                ],
                None => seq![
                    ("topics"@, JsonV::Array(seq![])),
                    ("sources"@, JsonV::Array(seq![])),
                    ("subscribed"@, JsonV::Bool(false)),
                ],
            };
            lemma_with_member(m, sub_key, JsonV::Object(fresh), sub_key);
            lemma_member_index(fresh, tk);
            assert(is_key_at(fresh, tk, 0));
            lemma_with_same_member(fresh, tk, JsonV::Array(seq![]));
            assert(without_str(seq![], Seq::<char>::empty()) == Seq::<JsonV>::empty());
            if topic is None {
                lemma_member_index(fresh, sk);
                reveal_strlit("subscribed");
                reveal_strlit("sources");
                reveal_strlit("topics");
                assert(is_key_at(fresh, sk, 2));
                lemma_with_same_member(fresh, sk, JsonV::Bool(false));
            } else {
                let t = topic->0;
                assert(without_str(Seq::<JsonV>::empty(), t) == Seq::<JsonV>::empty());
            }
            lemma_with_same_member(once, sub_key, JsonV::Object(fresh));
        },
    }
}

/// A user id written in decimal into a tracker token is the id read back
/// from it.
pub proof fn law_token_round_trip(user_id: i64)
    ensures
        parsed_i64(signed_decimal(user_id as int)) == Some(user_id),
{
    lemma_signed_decimal_reads_back(user_id);
}

/// Confirming, storing a confirmation key and unsubscribing keep a user's
/// data well-formed: no object of it, nor its subscription, repeats a key.
pub proof fn law_updates_keep_data_well_formed(data: JsonV, topic: Option<Seq<char>>, key: Seq<char>)
    requires
        json_wf(data),
        data is Object,
    ensures
        subscription_object(data) is Some ==> json_wf(
            JsonV::Object(verified_members(object_members(data)->0)),
        ),
        subscription_slot_ok(object_members(data)->0) ==> json_wf(
            JsonV::Object(with_confirmation_key(object_members(data)->0, key)),
        ),
        unsubscribe_ok(data, topic) ==> json_wf(
            JsonV::Object(unsubscribed_members(object_members(data)->0, topic)),
        ),
{
    lemma_distinct_keys();
    let m = object_members(data)->0;
    let sub_key = "subscription"@;
    let ck = "confirmation_key"@;
    let tk = "topics"@;
    let sk = "subscribed"@;
    match member(m, sub_key) {
        Some(JsonV::Object(sm)) => {
            lemma_wf_subscription(data);
            // confirming
            let s1 = with_member(sm, "confirmed"@, JsonV::Bool(true));
            lemma_with_member_unique(sm, "confirmed"@, JsonV::Bool(true));
            lemma_without_member(s1, ck);
            lemma_wf_with_member(m, sub_key, JsonV::Object(crate::json::without_member(s1, ck)));
            // storing a key
            lemma_with_member_unique(sm, ck, JsonV::Str(key));
            lemma_wf_with_member(m, sub_key, JsonV::Object(with_member(sm, ck, JsonV::Str(key))));
            // unsubscribing
            match topic {
                Some(t) => match member(sm, tk) {
                    Some(JsonV::Array(a)) => {
                        let v = JsonV::Array(without_str(a, t));
                        lemma_with_member_unique(sm, tk, v);
                        lemma_wf_with_member(m, sub_key, JsonV::Object(with_member(sm, tk, v)));
                    },
                    _ => {},
                },
                None => {
                    let s2 = with_member(sm, sk, JsonV::Bool(false));
                    lemma_with_member_unique(sm, sk, JsonV::Bool(false));
                    lemma_with_member_unique(s2, tk, JsonV::Array(seq![]));
                    lemma_wf_with_member(
                        m,
                        sub_key,
                        JsonV::Object(with_member(s2, tk, JsonV::Array(seq![]))),
                    );
                },
            }
        },
        Some(_) => {},
        None => {
            let one = seq![(ck, JsonV::Str(key))];
            lemma_wf_with_member(m, sub_key, JsonV::Object(one));
            let two = seq![(tk, JsonV::Array(seq![])), ("sources"@, JsonV::Array(seq![]))];
            let three = seq![
                (tk, JsonV::Array(seq![])),
                ("sources"@, JsonV::Array(seq![])),
                (sk, JsonV::Bool(false)),
            ];
            assert(unique_keys(two)) by {
                assert(two[0].0 != two[1].0);
            }
            assert(unique_keys(three)) by {
                assert(three[0].0 != three[1].0);
                assert(three[0].0 != three[2].0);
                assert(three[1].0 != three[2].0);
            }
            lemma_wf_with_member(m, sub_key, JsonV::Object(two));
            lemma_wf_with_member(m, sub_key, JsonV::Object(three));
        },
    }
}

/// Adding an item to a list of the subscription keeps the data well-formed.
proof fn lemma_item_step_wf(data: Members, key: Seq<char>, other: Seq<char>, item: Seq<char>)
    requires
        key != other,
        json_wf(JsonV::Object(data)),
    ensures
        json_wf(JsonV::Object(subscription_with_item(data, key, other, item).0)),
{
    let sub_key = "subscription"@;
    match member(data, sub_key) {
        Some(JsonV::Object(sm)) => {
            lemma_wf_subscription(JsonV::Object(data));
            let r = list_with_item(sm, key, item);
            match member(sm, key) {
                Some(JsonV::Array(a)) => {
                    lemma_with_member_unique(sm, key, JsonV::Array(a.push(JsonV::Str(item))));
                },
                Some(_) => {},
                None => {
                    lemma_with_member_unique(sm, key, JsonV::Array(seq![JsonV::Str(item)]));
                },
            }
            lemma_wf_with_member(data, sub_key, JsonV::Object(r.0));
        },
        Some(_) => {},
        None => {
            let fresh = seq![(key, JsonV::Array(seq![JsonV::Str(item)])), (other, JsonV::Array(seq![]))];
            assert(unique_keys(fresh)) by {
                assert(fresh[0].0 != fresh[1].0);
            }
            lemma_wf_with_member(data, sub_key, JsonV::Object(fresh));
        },
    }
}

/// The members of a new subscription have distinct names.
proof fn lemma_new_subscription_keys(
    name: Option<Seq<char>>,
    phone: Option<Seq<char>>,
    email: Option<Seq<char>>,
)
    ensures
        unique_keys(new_subscription(name, phone, email)),
{
    let f = new_subscription(name, phone, email);
    reveal_strlit("subscribed");
    reveal_strlit("topics");
    reveal_strlit("sources");
    reveal_strlit("name");
    reveal_strlit("phone");
    reveal_strlit("email");
    reveal_strlit("double_optin");
    assert forall|i: int, j: int| 0 <= i < f.len() && 0 <= j < f.len() && i != j implies f[i].0
        != f[j].0 by {
        if f[i].0.len() == f[j].0.len() {
            assert(f[i].0[0] != f[j].0[0]);
        }
    }
}

/// Recording the subscriber keeps the data well-formed.
proof fn lemma_subscriber_step_wf(
    data: Members,
    name: Option<Seq<char>>,
    phone: Option<Seq<char>>,
    email: Option<Seq<char>>,
)
    requires
        json_wf(JsonV::Object(data)),
    ensures
        json_wf(JsonV::Object(with_subscriber(data, name, phone, email).0)),
{
    let sub_key = "subscription"@;
    match member(data, sub_key) {
        Some(JsonV::Object(sm)) => {
            lemma_wf_subscription(JsonV::Object(data));
            let s1 = with_member(sm, "subscribed"@, JsonV::Bool(true));
            lemma_with_member_unique(sm, "subscribed"@, JsonV::Bool(true));
            let s2 = match name {
                Some(n) => with_member(s1, "name"@, JsonV::Str(n)),
                None => s1,
            };
            if let Some(n) = name {
                lemma_with_member_unique(s1, "name"@, JsonV::Str(n));
            }
            let s3 = match phone {
                Some(p) => with_member(s2, "phone"@, JsonV::Str(p)),
                None => s2,
            };
            if let Some(p) = phone {
                lemma_with_member_unique(s2, "phone"@, JsonV::Str(p));
            }
            let s4 = match email {
                Some(e) => with_member(s3, "email"@, JsonV::Str(e)),
                None => s3,
            };
            if let Some(e) = email {
                lemma_with_member_unique(s3, "email"@, JsonV::Str(e));
            }
            lemma_wf_with_member(data, sub_key, JsonV::Object(s4));
        },
        Some(_) => {},
        None => {
            lemma_new_subscription_keys(name, phone, email);
            lemma_wf_with_member(data, sub_key, JsonV::Object(new_subscription(name, phone, email)));
        },
    }
}

/// Subscribing keeps a user's data well-formed: no object of it, nor its
/// subscription, repeats a key.
pub proof fn law_subscription_keeps_data_well_formed(
    data: JsonV,
    topic: Option<Seq<char>>,
    source: Option<Seq<char>>,
    name: Option<Seq<char>>,
    phone: Option<Seq<char>>,
    email: Option<Seq<char>>,
)
    requires
        json_wf(data),
        subscribe_ok(data, topic, source),
    ensures
        json_wf(subscribed_data(data, topic, source, name, phone, email).1),
{
    lemma_distinct_keys();
    let m0 = object_members(data)->0;
    let p1 = match topic {
        Some(t) => subscription_with_item(m0, "topics"@, "sources"@, t),
        None => (m0, false),
    };
    if let Some(t) = topic {
        lemma_item_step_wf(m0, "topics"@, "sources"@, t);
    }
    let p2 = match source {
        Some(s) => subscription_with_item(p1.0, "sources"@, "topics"@, s),
        None => (p1.0, false),
    };
    if let Some(s) = source {
        lemma_item_step_wf(p1.0, "sources"@, "topics"@, s);
    }
    lemma_subscriber_step_wf(p2.0, name, phone, email);
    assert(subscribed_members(m0, topic, source, name, phone, email).0 == with_subscriber(
        p2.0,
        name,
        phone,
        email,
    ).0);
}

/// Leaving out a string that an array does not hold changes nothing.
proof fn lemma_without_absent_str(a: Seq<JsonV>, t: Seq<char>)
    requires
        !contains_str(a, t),
    ensures
        without_str(a, t) == a,
    decreases a.len(),
{
    if a.len() > 0 {
        let b = a.drop_last();
        assert(!contains_str(b, t)) by {
            if contains_str(b, t) {
                let i = choose|i: int| 0 <= i < b.len() && b[i] == JsonV::Str(t);
                assert(a[i] == b[i]);
            }
        }
        lemma_without_absent_str(b, t);
        assert(a.last() != JsonV::Str(t));
        assert(b.push(a.last()) =~= a);
    }
}

/// Unsubscribing from a topic undoes subscribing to it: when the
/// subscription's topics did not hold the topic, they are as they were.
pub proof fn law_unsubscribe_undoes_subscribe(
    data: JsonV,
    t: Seq<char>,
    name: Option<Seq<char>>,
    phone: Option<Seq<char>>,
    email: Option<Seq<char>>,
)
    requires
        subscription_object(data) matches Some(sm) && member(sm, "topics"@) matches Some(
            JsonV::Array(ts),
        ) && all_strings(ts) && !contains_str(ts, t),
    ensures
        ({
            let once = subscribed_data(data, Some(t), None, name, phone, email).1;
            &&& subscribe_ok(data, Some(t), None)
            &&& unsubscribe_ok(once, Some(t))
            &&& subscription_object(
                JsonV::Object(unsubscribed_members(object_members(once)->0, Some(t))),
            ) matches Some(sm2) && member(sm2, "topics"@) == member(
                subscription_object(data)->0,
                "topics"@,
            )
        }),
{
    lemma_distinct_keys();
    let m0 = object_members(data)->0;
    let sm = subscription_object(data)->0;
    let ts = match member(sm, "topics"@) {
        Some(JsonV::Array(a)) => a,
        _ => Seq::empty(),
    };
    let sub_key = "subscription"@;
    let tk = "topics"@;
    assert(strings_up_to(ts, t));
    assert(subscribe_ok(data, Some(t), None));
    // the topic step appends the topic
    let a2 = ts.push(JsonV::Str(t));
    let sm1 = with_member(sm, tk, JsonV::Array(a2));
    let m1 = with_member(m0, sub_key, JsonV::Object(sm1));
    assert(subscription_with_item(m0, tk, "sources"@, t) == (m1, true));
    lemma_with_member(m0, sub_key, JsonV::Object(sm1), sub_key);
    lemma_with_member(sm, tk, JsonV::Array(a2), tk);
    // recording the subscriber leaves the topics alone
    lemma_subscriber_recorded(m1, name, phone, email, tk);
    let once = subscribed_data(data, Some(t), None, name, phone, email).1;
    let m2 = object_members(once)->0;
    assert(m2 == with_subscriber(m1, name, phone, email).0);
    let sm2 = object_members(member(m2, sub_key)->0)->0;
    assert(member(sm2, tk) == Some(JsonV::Array(a2)));
    assert(all_strings(a2)) by {
        assert forall|i: int| 0 <= i < a2.len() implies a2[i] is Str by {
            if i < ts.len() {
                assert(a2[i] == ts[i]);
            }
        }
    }
    assert(unsubscribe_ok(once, Some(t)));
    // unsubscribing leaves out the topic again
    assert(a2.drop_last() =~= ts);
    lemma_without_absent_str(ts, t);
    assert(without_str(a2, t) == ts);
    let sm3 = with_member(sm2, tk, JsonV::Array(ts));
    lemma_with_member(m2, sub_key, JsonV::Object(sm3), sub_key);
    lemma_with_member(sm2, tk, JsonV::Array(ts), tk);
}

} // verus!
