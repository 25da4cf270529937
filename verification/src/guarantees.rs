//! What the results of the routes promise, stated in terms of the data and
//! the request alone.
use vstd::prelude::*;
use crate::email::{Config, EmailAddress, OutgoingEmail, is_welcome_email};
use crate::flow::{FollowUp, completed_data, follow_up_is};
use crate::laws::{lemma_item_keeps, lemma_subscriber_recorded};
use crate::subscriber::Subscriber;
use crate::templates::{CONFIRM_HTML_BODY, CONFIRM_TEXT_BODY, WELCOME_HTML_BODY, WELCOME_TEXT_BODY};
use crate::text::replaced;
use crate::json::{opt_view, lemma_without_member_other, without_member,
    JsonV, Members, contains_str, is_key_at, lemma_member_index, lemma_with_member, member,
    object_members, with_member,
};
use crate::user_data::{
    lemma_distinct_keys, list_with_item, subscribe_ok, subscribed_data, subscription_object,
    subscription_with_item, unsubscribe_ok, verified_members, with_confirmation_key, unsubscribed_members, with_subscriber, without_str,
};

verus! {

/// The subscription after a topic or source step, when the data had one, is
/// an object whose `"subscribed"` member is as it was.
proof fn lemma_step_keeps_flag(data: Members, key: Seq<char>, other: Seq<char>, item: Seq<char>)
    requires
        key != "subscribed"@,
        member(data, "subscription"@) matches Some(JsonV::Object(_)),
    ensures
        member(subscription_with_item(data, key, other, item).0, "subscription"@) matches Some(
            JsonV::Object(sm2),
        ) && member(sm2, "subscribed"@) == member(
            object_members(member(data, "subscription"@)->0)->0,
            "subscribed"@,
        ),
{
    let sub_key = "subscription"@;
    let sm = object_members(member(data, sub_key)->0)->0;
    let r = list_with_item(sm, key, item);
    lemma_with_member(data, sub_key, JsonV::Object(r.0), sub_key);
    match member(sm, key) {
        Some(JsonV::Array(a)) => {
            if !contains_str(a, item) {
                lemma_with_member(sm, key, JsonV::Array(a.push(JsonV::Str(item))), "subscribed"@);
            }
        },
        Some(_) => {},
        None => {
            lemma_with_member(sm, key, JsonV::Array(seq![JsonV::Str(item)]), "subscribed"@);
        },
    }
}

/// A subscription is new exactly when it adds a topic the subscription did
/// not hold, or when the user was not marked subscribed (`"subscribed"` not
/// `true`, or no subscription at all). A new source alone does not make a
/// new subscription.
pub proof fn law_new_subscription_flag(
    data: JsonV,
    topic: Option<Seq<char>>,
    source: Option<Seq<char>>,
    name: Option<Seq<char>>,
    phone: Option<Seq<char>>,
    email: Option<Seq<char>>,
)
    requires
        subscribe_ok(data, topic, source),
    ensures
        subscribed_data(data, topic, source, name, phone, email).0 == match subscription_object(
            data,
        ) {
            None => true,
            Some(sm) => member(sm, "subscribed"@) != Some(JsonV::Bool(true)) || match topic {
                Some(t) => !(member(sm, "topics"@) matches Some(JsonV::Array(a)) && contains_str(
                    a,
                    t,
                )),
                None => false,
            },
        },
{
    lemma_distinct_keys();
    reveal_strlit("subscribed");
    reveal_strlit("sources");
    reveal_strlit("topics");
    let m0 = object_members(data)->0;
    let sub_key = "subscription"@;
    let tk = "topics"@;
    let sk = "sources"@;
    let flag = "subscribed"@;
    let p1 = match topic {
        Some(t) => subscription_with_item(m0, tk, sk, t),
        None => (m0, false),
    };
    let p2 = match source {
        Some(s) => subscription_with_item(p1.0, sk, tk, s),
        None => (p1.0, false),
    };
    let p3 = with_subscriber(p2.0, name, phone, email);
    assert(subscribed_data(data, topic, source, name, phone, email).0 == (p1.1 || p3.1));
    match member(m0, sub_key) {
        Some(JsonV::Object(sm)) => {
            if let Some(t) = topic {
                lemma_step_keeps_flag(m0, tk, sk, t);
            }
            if let Some(s) = source {
                lemma_step_keeps_flag(p1.0, sk, tk, s);
            }
            assert(member(p2.0, sub_key) matches Some(JsonV::Object(sm2)) && member(sm2, flag)
                == member(sm, flag));
        },
        _ => {
            if topic is None {
                if let Some(s) = source {
                    let fresh = seq![(sk, JsonV::Array(seq![JsonV::Str(s)])), (tk, JsonV::Array(seq![]))];
                    lemma_with_member(m0, sub_key, JsonV::Object(fresh), sub_key);
                    lemma_member_index(fresh, flag);
                    assert(fresh[0].0 != flag && fresh[1].0 != flag);
                    assert(member(fresh, flag) is None);
                }
            }
        },
    }
}

/// The strings left after leaving out `t` are those of the array other than
/// `t`.
proof fn lemma_without_str_holds(a: Seq<JsonV>, t: Seq<char>, x: Seq<char>)
    ensures
        contains_str(without_str(a, t), x) <==> (contains_str(a, x) && x != t),
    decreases a.len(),
{
    if a.len() > 0 {
        let b = a.drop_last();
        lemma_without_str_holds(b, t, x);
        let rest = without_str(b, t);
        if contains_str(a, x) && x != t {
            let i = choose|i: int| 0 <= i < a.len() && a[i] == JsonV::Str(x);
            if i < b.len() {
                assert(b[i] == a[i]);
            }
        }
        if contains_str(b, x) {
            let i = choose|i: int| 0 <= i < b.len() && b[i] == JsonV::Str(x);
            assert(a[i] == b[i]);
        }
        if a.last() != JsonV::Str(t) {
            let r = rest.push(a.last());
            if contains_str(r, x) {
                let i = choose|i: int| 0 <= i < r.len() && r[i] == JsonV::Str(x);
                if i < rest.len() {
                    assert(r[i] == rest[i]);
                } else {
                    assert(a[a.len() - 1] == JsonV::Str(x));
                }
            }
            if contains_str(rest, x) {
                let i = choose|i: int| 0 <= i < rest.len() && rest[i] == JsonV::Str(x);
                assert(r[i] == rest[i]);
            }
            if a.last() == JsonV::Str(x) {
                assert(r[r.len() - 1] == JsonV::Str(x));
            }
        }
    }
}

/// Unsubscribing from a topic touches nothing but the subscription's topics:
/// every other member of the data and of the subscription, `"subscribed"`
/// among them, stays as it was, and the topics keep every string but the
/// topic.
pub proof fn law_unsubscribe_from_topic_keeps_the_rest(data: JsonV, t: Seq<char>, k: Seq<char>, x: Seq<char>)
    requires
        unsubscribe_ok(data, Some(t)),
        subscription_object(data) is Some,
    ensures
        ({
            let after = JsonV::Object(unsubscribed_members(object_members(data)->0, Some(t)));
            let sm = subscription_object(data)->0;
            &&& k != "subscription"@ ==> member(object_members(after)->0, k) == member(
                object_members(data)->0,
                k,
            )
            &&& subscription_object(after) matches Some(sm2) && (k != "topics"@ ==> member(sm2, k)
                == member(sm, k)) && match member(sm, "topics"@) {
                Some(JsonV::Array(a)) => member(sm2, "topics"@) matches Some(JsonV::Array(a2))
                    && (contains_str(a2, x) <==> (contains_str(a, x) && x != t)),
                other => member(sm2, "topics"@) == other,
            }
        }),
{
    let m = object_members(data)->0;
    let sm = subscription_object(data)->0;
    let sub_key = "subscription"@;
    let tk = "topics"@;
    match member(sm, tk) {
        Some(JsonV::Array(a)) => {
            let sm1 = with_member(sm, tk, JsonV::Array(without_str(a, t)));
            lemma_with_member(m, sub_key, JsonV::Object(sm1), sub_key);
            lemma_with_member(m, sub_key, JsonV::Object(sm1), k);
            lemma_with_member(sm, tk, JsonV::Array(without_str(a, t)), k);
            lemma_with_member(sm, tk, JsonV::Array(without_str(a, t)), tk);
            lemma_without_str_holds(a, t, x);
        },
        _ => {},
    }
}

/// How an email greets its addressee: by name, or by the address when the
/// name is empty.
pub open spec fn greeting(name: Seq<char>, email: Seq<char>) -> Seq<char> {
    if name.len() == 0 {
        email
    } else {
        name
    }
}

/// A welcome email is addressed to the subscriber by name and address, and
/// both its HTML and its text body greet the subscriber the same way: by
/// name, or by the address when the name is empty.
pub proof fn law_welcome_email_greeting(e: OutgoingEmail, name: Seq<char>, email: Seq<char>)
    requires
        is_welcome_email(e, name, email),
    ensures
        opt_view(e.to.name) == Some(name),
        e.to.email@ == email,
        e.body_html@ == replaced(WELCOME_HTML_BODY@, "{name}"@, greeting(name, email)),
        e.body_text@ == replaced(WELCOME_TEXT_BODY@, "{name}"@, greeting(name, email)),
{
}

/// The name a subscriber gave, or the empty text.
pub open spec fn name_given(s: Subscriber) -> Seq<char> {
    match s.name {
        Some(n) => n@,
        None => Seq::empty(),
    }
}

/// A new subscription of a subscriber with a verified address is answered
/// with a welcome email addressed to the subscriber by the name given, which
/// greets the subscriber by that name (by the address only when the name is
/// empty).
pub proof fn law_verified_subscriber_welcomed_by_name(
    f: FollowUp,
    data: JsonV,
    topic: Option<Seq<char>>,
    source: Option<Seq<char>>,
    subscriber: Subscriber,
    on_confirm: Option<Seq<char>>,
    confirmation_key: Seq<char>,
    confirm_route: Seq<char>,
    sender: EmailAddress,
    config: Config,
)
    requires
        follow_up_is(
            f,
            data,
            topic,
            source,
            subscriber,
            on_confirm,
            confirmation_key,
            confirm_route,
            sender,
            config,
        ),
        subscribed_data(
            data,
            topic,
            source,
            opt_view(subscriber.name),
            opt_view(subscriber.phone),
            opt_view(subscriber.email),
        ).0,
        subscriber.is_verified_user,
        subscriber.email is Some,
    ensures
        f matches FollowUp::Welcome(e) && opt_view(e.to.name) == Some(name_given(subscriber))
            && e.to.email@ == subscriber.email->0@ && e.body_html@ == replaced(
            WELCOME_HTML_BODY@,
            "{name}"@,
            greeting(name_given(subscriber), subscriber.email->0@),
        ) && e.body_text@ == replaced(
            WELCOME_TEXT_BODY@,
            "{name}"@,
            greeting(name_given(subscriber), subscriber.email->0@),
        ),
{
}

/// The link that confirms a subscription: the confirmation route with the
/// key as `code`, the address as `email`, and as `next` the page asked for
/// after confirming, or `/` when none was asked for.
pub open spec fn confirm_link(
    route: Seq<char>,
    key: Seq<char>,
    email: Seq<char>,
    on_confirm: Option<Seq<char>>,
) -> Seq<char> {
    route + "?code="@ + key + "&email="@ + email + "&next="@ + match on_confirm {
        Some(n) => n,
        None => "/"@,
    }
}

/// A confirmation template filled in with the greeting, the link and the
/// words naming the topic (`to the <topic>`, or nothing).
pub open spec fn filled(template: Seq<char>, greet: Seq<char>, link: Seq<char>, topic: Option<Seq<char>>) -> Seq<char> {
    replaced(
        replaced(replaced(template, "{name}"@, greet), "{confirmation_link}"@, link),
        "{topic}"@,
        match topic {
            Some(t) => "to the "@ + t,
            None => Seq::empty(),
        },
    )
}

/// A new subscription of a subscriber with an unverified address is answered
/// with a request, from the given sender, to confirm it: addressed to the
/// subscriber, greeting them by name (or by address), and carrying the link
/// with the confirmation key, the address and the page asked for after
/// confirming (`/` when none was asked for).
pub proof fn law_confirmation_request_link(
    f: FollowUp,
    data: JsonV,
    topic: Option<Seq<char>>,
    source: Option<Seq<char>>,
    subscriber: Subscriber,
    on_confirm: Option<Seq<char>>,
    confirmation_key: Seq<char>,
    confirm_route: Seq<char>,
    sender: EmailAddress,
    config: Config,
)
    requires
        follow_up_is(
            f,
            data,
            topic,
            source,
            subscriber,
            on_confirm,
            confirmation_key,
            confirm_route,
            sender,
            config,
        ),
        subscribed_data(
            data,
            topic,
            source,
            opt_view(subscriber.name),
            opt_view(subscriber.phone),
            opt_view(subscriber.email),
        ).0,
        !subscriber.is_verified_user,
        subscriber.email is Some,
    ensures
        ({
            let to = subscriber.email->0@;
            let link = confirm_link(confirm_route, confirmation_key, to, on_confirm);
            let greet = greeting(name_given(subscriber), to);
            &&& f matches FollowUp::ConfirmationRequest(e)
            &&& e.from == sender
            &&& opt_view(e.to.name) == Some(name_given(subscriber))
            &&& e.to.email@ == to
            &&& e.body_html@ == filled(CONFIRM_HTML_BODY@, greet, link, topic)
            &&& e.body_text@ == filled(CONFIRM_TEXT_BODY@, greet, link, topic)
        }),
{
    reveal_strlit("/");
    assert(crate::flow::DEFAULT_REDIRECT_ROUTE@ == "/"@);
}

/// An array with a string appended holds the strings it held, and that one.
proof fn lemma_push_holds(a: Seq<JsonV>, t: Seq<char>, x: Seq<char>)
    ensures
        contains_str(a.push(JsonV::Str(t)), x) <==> (contains_str(a, x) || x == t),
{
    let b = a.push(JsonV::Str(t));
    if contains_str(a, x) {
        let i = choose|i: int| 0 <= i < a.len() && a[i] == JsonV::Str(x);
        assert(b[i] == a[i]);
    }
    if x == t {
        assert(b[a.len() as int] == JsonV::Str(x));
    }
    if contains_str(b, x) {
        let i = choose|i: int| 0 <= i < b.len() && b[i] == JsonV::Str(x);
        if i < a.len() {
            assert(b[i] == a[i]);
        }
    }
}

/// The topics of the subscription hold `x` once `x` was subscribed to, or
/// when they held it before.
pub open spec fn topics_after(sm: Members, topic: Option<Seq<char>>, sm2: Members, x: Seq<char>) -> bool {
    match member(sm2, "topics"@) {
        Some(JsonV::Array(a2)) => contains_str(a2, x) <==> ((member(sm, "topics"@) matches Some(
            JsonV::Array(a),
        ) && contains_str(a, x)) || topic == Some(x)),
        other => topic is None && member(sm, "topics"@) == other,
    }
}

/// Subscribing touches nothing but the subscription's topics, sources, flag
/// and the subscriber's details: every other member of the data and of the
/// subscription stays as it was, and the topics hold what they held and the
/// topic subscribed to, and nothing else.
pub proof fn law_subscribe_keeps_the_rest(
    data: JsonV,
    topic: Option<Seq<char>>,
    source: Option<Seq<char>>,
    name: Option<Seq<char>>,
    phone: Option<Seq<char>>,
    email: Option<Seq<char>>,
    k: Seq<char>,
    x: Seq<char>,
)
    requires
        subscribe_ok(data, topic, source),
        subscription_object(data) is Some,
    ensures
        ({
            let after = subscribed_data(data, topic, source, name, phone, email).1;
            let sm = subscription_object(data)->0;
            &&& k != "subscription"@ ==> member(object_members(after)->0, k) == member(
                object_members(data)->0,
                k,
            )
            &&& subscription_object(after) matches Some(sm3) && (k != "topics"@ && k != "sources"@
                && k != "subscribed"@ && k != "name"@ && k != "phone"@ && k != "email"@ ==> member(
                sm3,
                k,
            ) == member(sm, k)) && topics_after(sm, topic, sm3, x)
        }),
{
    lemma_distinct_keys();
    let m0 = object_members(data)->0;
    let sm = subscription_object(data)->0;
    let sub_key = "subscription"@;
    let tk = "topics"@;
    let sk = "sources"@;
    let p1 = match topic {
        Some(t) => subscription_with_item(m0, tk, sk, t),
        None => (m0, false),
    };
    let p2 = match source {
        Some(s) => subscription_with_item(p1.0, sk, tk, s),
        None => (p1.0, false),
    };
    let p3 = with_subscriber(p2.0, name, phone, email);
    assert(object_members(subscribed_data(data, topic, source, name, phone, email).1)->0 == p3.0);
    // the topic step
    if let Some(t) = topic {
        let r = list_with_item(sm, tk, t);
        lemma_with_member(m0, sub_key, JsonV::Object(r.0), k);
        lemma_with_member(m0, sub_key, JsonV::Object(r.0), sub_key);
        if k != tk {
            lemma_item_keeps(m0, tk, sk, t, k);
        }
        match member(sm, tk) {
            Some(JsonV::Array(a)) => {
                if !contains_str(a, t) {
                    lemma_with_member(sm, tk, JsonV::Array(a.push(JsonV::Str(t))), tk);
                    lemma_push_holds(a, t, x);
                }
            },
            _ => {
                lemma_with_member(sm, tk, JsonV::Array(seq![JsonV::Str(t)]), tk);
                let one = seq![JsonV::Str(t)];
                if contains_str(one, x) {
                    let i = choose|i: int| 0 <= i < one.len() && one[i] == JsonV::Str(x);
                    assert(i == 0);
                }
                if x == t {
                    assert(one[0] == JsonV::Str(x));
                }
            },
        }
    }
    assert(member(p1.0, sub_key) matches Some(JsonV::Object(_)));
    let sm1 = object_members(member(p1.0, sub_key)->0)->0;
    assert(k != tk ==> member(sm1, k) == member(sm, k));
    assert(k != sub_key ==> member(p1.0, k) == member(m0, k));
    assert(topics_after(sm, topic, sm1, x));
    // the source step
    if let Some(s) = source {
        let r = list_with_item(sm1, sk, s);
        lemma_with_member(p1.0, sub_key, JsonV::Object(r.0), k);
        lemma_with_member(p1.0, sub_key, JsonV::Object(r.0), sub_key);
        if k != sk {
            lemma_item_keeps(p1.0, sk, tk, s, k);
        }
        lemma_item_keeps(p1.0, sk, tk, s, tk);
    }
    assert(member(p2.0, sub_key) matches Some(JsonV::Object(_)));
    let sm2 = object_members(member(p2.0, sub_key)->0)->0;
    assert(k != tk && k != sk ==> member(sm2, k) == member(sm, k));
    assert(k != sub_key ==> member(p2.0, k) == member(m0, k));
    assert(member(sm2, tk) == member(sm1, tk));
    // the subscriber step
    lemma_subscriber_recorded(p2.0, name, phone, email, k);
    lemma_subscriber_recorded(p2.0, name, phone, email, tk);
    let sm3 = object_members(member(p3.0, sub_key)->0)->0;
    assert(member(sm3, tk) == member(sm2, tk));
    let s1 = with_member(sm2, "subscribed"@, JsonV::Bool(true));
    let s2 = match name {
        Some(n) => with_member(s1, "name"@, JsonV::Str(n)),
        None => s1,
    };
    let s3 = match phone {
        Some(p) => with_member(s2, "phone"@, JsonV::Str(p)),
        None => s2,
    };
    let s4 = match email {
        Some(e) => with_member(s3, "email"@, JsonV::Str(e)),
        None => s3,
    };
    assert(p3.0 == with_member(p2.0, sub_key, JsonV::Object(s4)));
    lemma_with_member(p2.0, sub_key, JsonV::Object(s4), k);
    lemma_with_member(p2.0, sub_key, JsonV::Object(s4), sub_key);
    assert(subscription_object(subscribed_data(data, topic, source, name, phone, email).1) == Some(sm3));
}

/// Unsubscribing from everything, confirming and storing a confirmation key
/// each touch only their own members of the subscription: unsubscribing sets
/// `"subscribed"` to `false` and empties the topics, confirming sets
/// `"confirmed"` to `true` and drops the key, storing a key sets it; every
/// other member of the data and of the subscription stays as it was.
pub proof fn law_updates_keep_the_rest(data: JsonV, key: Seq<char>, k: Seq<char>)
    requires
        subscription_object(data) is Some,
    ensures
        ({
            let m = object_members(data)->0;
            let sm = subscription_object(data)->0;
            let gone = JsonV::Object(unsubscribed_members(m, None));
            let confirmed = JsonV::Object(verified_members(m));
            let keyed = JsonV::Object(with_confirmation_key(m, key));
            &&& k != "subscription"@ ==> member(object_members(gone)->0, k) == member(m, k)
                && member(object_members(confirmed)->0, k) == member(m, k) && member(
                object_members(keyed)->0,
                k,
            ) == member(m, k)
            &&& subscription_object(gone) matches Some(s2) && member(s2, "subscribed"@) == Some(
                JsonV::Bool(false),
            ) && member(s2, "topics"@) == Some(JsonV::Array(seq![])) && (k != "topics"@ && k
                != "subscribed"@ ==> member(s2, k) == member(sm, k))
            &&& subscription_object(confirmed) matches Some(s2) && member(s2, "confirmed"@) == Some(
                JsonV::Bool(true),
            ) && (k != "confirmed"@ && k != "confirmation_key"@ ==> member(s2, k) == member(sm, k))
            &&& subscription_object(keyed) matches Some(s2) && member(s2, "confirmation_key"@)
                == Some(JsonV::Str(key)) && (k != "confirmation_key"@ ==> member(s2, k) == member(
                sm,
                k,
            ))
        }),
{
    lemma_distinct_keys();
    let m = object_members(data)->0;
    let sm = subscription_object(data)->0;
    let sub_key = "subscription"@;
    let tk = "topics"@;
    let flag = "subscribed"@;
    let ck = "confirmation_key"@;
    let cf = "confirmed"@;
    // unsubscribing from everything
    let u1 = with_member(sm, flag, JsonV::Bool(false));
    let u2 = with_member(u1, tk, JsonV::Array(seq![]));
    lemma_with_member(m, sub_key, JsonV::Object(u2), k);
    lemma_with_member(m, sub_key, JsonV::Object(u2), sub_key);
    lemma_with_member(sm, flag, JsonV::Bool(false), k);
    lemma_with_member(sm, flag, JsonV::Bool(false), flag);
    lemma_with_member(u1, tk, JsonV::Array(seq![]), k);
    lemma_with_member(u1, tk, JsonV::Array(seq![]), flag);
    // confirming
    let c1 = with_member(sm, cf, JsonV::Bool(true));
    let c2 = without_member(c1, ck);
    lemma_with_member(m, sub_key, JsonV::Object(c2), k);
    lemma_with_member(m, sub_key, JsonV::Object(c2), sub_key);
    lemma_with_member(sm, cf, JsonV::Bool(true), k);
    lemma_with_member(sm, cf, JsonV::Bool(true), cf);
    if k != ck {
        lemma_without_member_other(c1, ck, k);
    }
    lemma_without_member_other(c1, ck, cf);
    // storing a key
    let k1 = with_member(sm, ck, JsonV::Str(key));
    lemma_with_member(m, sub_key, JsonV::Object(k1), k);
    lemma_with_member(m, sub_key, JsonV::Object(k1), sub_key);
    lemma_with_member(sm, ck, JsonV::Str(key), k);
}

/// How a subscription is settled. When it is not new, the data is only what
/// recording it gives and no email is sent. When it is new, a subscriber with
/// a verified address has the subscription marked confirmed; any other
/// subscriber with an address has the confirmation key stored in it. A
/// subscriber without an address is never sent an email.
pub proof fn law_subscription_settled(
    f: FollowUp,
    data: JsonV,
    topic: Option<Seq<char>>,
    source: Option<Seq<char>>,
    subscriber: Subscriber,
    on_confirm: Option<Seq<char>>,
    confirmation_key: Seq<char>,
    confirm_route: Seq<char>,
    sender: EmailAddress,
    config: Config,
)
    requires
        subscribe_ok(data, topic, source),
        follow_up_is(
            f,
            data,
            topic,
            source,
            subscriber,
            on_confirm,
            confirmation_key,
            confirm_route,
            sender,
            config,
        ),
    ensures
        ({
            let (made, after) = subscribed_data(
                data,
                topic,
                source,
                opt_view(subscriber.name),
                opt_view(subscriber.phone),
                opt_view(subscriber.email),
            );
            let done = completed_data(data, topic, source, subscriber, confirmation_key);
            &&& !made ==> done == after && f is Nothing
            &&& subscriber.email is None ==> f is Nothing
            &&& made && subscriber.is_verified_user ==> (subscription_object(done) matches Some(s)
                && member(s, "confirmed"@) == Some(JsonV::Bool(true)))
            &&& made && !subscriber.is_verified_user && subscriber.email is Some
                ==> (subscription_object(done) matches Some(s) && member(s, "confirmation_key"@)
                == Some(JsonV::Str(confirmation_key)))
        }),
{
    crate::laws::law_subscription_recorded(
        data,
        topic,
        source,
        opt_view(subscriber.name),
        opt_view(subscriber.phone),
        opt_view(subscriber.email),
    );
    let after = subscribed_data(
        data,
        topic,
        source,
        opt_view(subscriber.name),
        opt_view(subscriber.phone),
        opt_view(subscriber.email),
    ).1;
    law_updates_keep_the_rest(after, confirmation_key, "confirmed"@);
}

} // verus!
