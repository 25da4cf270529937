use subscription::json::Json;
use subscription::subscriber::Subscriber;
use subscription::user_data::{
    can_record_subscription, can_record_unsubscription, can_store_confirmation_key,
    has_subscription_object, add_confirmation_key_in_user, add_subscription_info, check_if_subscribed, get_name,
    mark_subscription_verified, new_user_data, remove_subscription_info, subscription_session_data,
};

fn s(v: &str) -> Json {
    Json::Str(v.to_string())
}

fn strs(vs: &[&str]) -> Json {
    Json::Array(vs.iter().map(|v| s(v)).collect())
}

fn object(entries: Vec<(&str, Json)>) -> Json {
    Json::Object(entries.into_iter().map(|(k, v)| (k.to_string(), v)).collect())
}

fn get<'a>(j: &'a Json, key: &str) -> Option<&'a Json> {
    match j {
        Json::Object(m) => m.iter().find(|(k, _)| k == key).map(|(_, v)| v),
        _ => None,
    }
}

fn sub(j: &Json) -> &Json {
    get(j, "subscription").expect("a subscription")
}

fn subscriber(name: Option<&str>, email: &str, phone: Option<&str>) -> Subscriber {
    Subscriber {
        user_id: None,
        is_verified_user: false,
        name: name.map(|n| n.to_string()),
        email: Some(email.to_string()),
        phone: phone.map(|p| p.to_string()),
    }
}

fn other_data() -> Json {
    object(vec![("email", object(vec![("emails", strs(&["a@b.co"]))]))])
}

#[test]
fn subscribe_without_a_subscription_makes_one() {
    let who = subscriber(Some("Ann"), "ann@example.com", Some("123"));
    let (made, data) = add_subscription_info(
        other_data(),
        Some("news".to_string()),
        Some("blog".to_string()),
        &who,
    );
    assert!(made);
    // the other member is kept
    assert_eq!(get(&data, "email"), get(&other_data(), "email"));
    let sub = sub(&data);
    assert_eq!(get(sub, "topics"), Some(&strs(&["news"])));
    assert_eq!(get(sub, "sources"), Some(&strs(&["blog"])));
    assert_eq!(get(sub, "subscribed"), Some(&Json::Bool(true)));
    assert_eq!(get(sub, "name"), Some(&s("Ann")));
    assert_eq!(get(sub, "phone"), Some(&s("123")));
    assert_eq!(get(sub, "email"), Some(&s("ann@example.com")));
}

#[test]
fn subscribe_to_everything_makes_a_fresh_record() {
    let who = subscriber(None, "bob@example.com", None);
    let (made, data) = add_subscription_info(object(vec![]), None, None, &who);
    assert!(made);
    let expected = object(vec![(
        "subscription",
        object(vec![
            ("subscribed", Json::Bool(true)),
            ("topics", strs(&[])),
            ("sources", strs(&[])),
            ("name", Json::Null),
            ("phone", Json::Null),
            ("email", s("bob@example.com")),
            ("double_optin", Json::Bool(false)),
        ]),
    )]);
    assert_eq!(data, expected);
}

#[test]
fn subscribe_adds_a_new_topic_at_the_end() {
    let data = object(vec![(
        "subscription",
        object(vec![("topics", strs(&["a", "b"])), ("subscribed", Json::Bool(true))]),
    )]);
    let who = subscriber(None, "c@example.com", None);
    let (made, data) = add_subscription_info(data, Some("c".to_string()), None, &who);
    assert!(made);
    assert_eq!(get(sub(&data), "topics"), Some(&strs(&["a", "b", "c"])));
}

#[test]
fn subscribe_to_a_held_topic_adds_nothing() {
    let data = object(vec![(
        "subscription",
        object(vec![("topics", strs(&["a", "b"])), ("subscribed", Json::Bool(true))]),
    )]);
    let who = subscriber(None, "c@example.com", None);
    let (made, data) = add_subscription_info(data, Some("b".to_string()), None, &who);
    assert!(!made);
    assert_eq!(get(sub(&data), "topics"), Some(&strs(&["a", "b"])));
}

#[test]
fn subscribe_counts_a_first_subscribed_flag_as_new() {
    let data = object(vec![("subscription", object(vec![("topics", strs(&["a"]))]))]);
    let who = subscriber(None, "c@example.com", None);
    let (made, data) = add_subscription_info(data, Some("a".to_string()), None, &who);
    assert!(made);
    assert_eq!(get(sub(&data), "subscribed"), Some(&Json::Bool(true)));
}

#[test]
fn subscribe_makes_missing_lists() {
    let data = object(vec![("subscription", object(vec![("subscribed", Json::Bool(false))]))]);
    let who = subscriber(Some("D"), "d@example.com", None);
    let (made, data) = add_subscription_info(
        data,
        Some("t".to_string()),
        Some("s".to_string()),
        &who,
    );
    assert!(made);
    let sub = sub(&data);
    assert_eq!(get(sub, "topics"), Some(&strs(&["t"])));
    assert_eq!(get(sub, "sources"), Some(&strs(&["s"])));
    // the flag was already there, so it is replaced in place
    match sub {
        Json::Object(m) => assert_eq!(m[0], ("subscribed".to_string(), Json::Bool(true))),
        _ => panic!("not an object"),
    }
}

#[test]
fn subscribe_twice_changes_nothing_the_second_time() {
    let who = subscriber(Some("Eve"), "eve@example.com", Some("9"));
    let start = object(vec![(
        "subscription",
        object(vec![("topics", strs(&["x"])), ("sources", strs(&["y"]))]),
    )]);
    let (first, once) = add_subscription_info(start, Some("z".to_string()), Some("w".to_string()), &who);
    assert!(first);
    let expected = object(vec![(
        "subscription",
        object(vec![
            ("topics", strs(&["x", "z"])),
            ("sources", strs(&["y", "w"])),
            ("subscribed", Json::Bool(true)),
            ("name", s("Eve")),
            ("phone", s("9")),
            ("email", s("eve@example.com")),
        ]),
    )]);
    assert_eq!(once, expected);
    let (second, twice) = add_subscription_info(once, Some("z".to_string()), Some("w".to_string()), &who);
    assert!(!second);
    assert_eq!(twice, expected);
}

#[test]
fn subscribed_after_confirmation() {
    let who = subscriber(None, "f@example.com", None);
    let (_, data) = add_subscription_info(object(vec![]), Some("news".to_string()), None, &who);
    assert!(!check_if_subscribed(Some("news".to_string()), add_subscription_info(object(vec![]), Some("news".to_string()), None, &who).1));
    let data = mark_subscription_verified(data);
    assert!(check_if_subscribed(Some("news".to_string()), data));
    let (_, data) = add_subscription_info(object(vec![]), Some("news".to_string()), None, &who);
    let data = mark_subscription_verified(data);
    assert!(check_if_subscribed(None, data));
}

#[test]
fn unsubscribe_from_a_topic_removes_every_copy() {
    let data = object(vec![(
        "subscription",
        object(vec![
            ("topics", strs(&["a", "b", "a"])),
            ("subscribed", Json::Bool(true)),
            ("confirmed", Json::Bool(true)),
        ]),
    )]);
    let data = remove_subscription_info(data, Some("a".to_string()));
    assert_eq!(get(sub(&data), "topics"), Some(&strs(&["b"])));
    assert_eq!(get(sub(&data), "subscribed"), Some(&Json::Bool(true)));
    assert!(!check_if_subscribed(Some("a".to_string()), data));
}

#[test]
fn unsubscribe_from_everything_clears_topics() {
    let data = object(vec![(
        "subscription",
        object(vec![
            ("topics", strs(&["a", "b"])),
            ("subscribed", Json::Bool(true)),
            ("confirmed", Json::Bool(true)),
        ]),
    )]);
    let data = remove_subscription_info(data, None);
    assert_eq!(get(sub(&data), "subscribed"), Some(&Json::Bool(false)));
    assert_eq!(get(sub(&data), "topics"), Some(&strs(&[])));
    assert!(!check_if_subscribed(None, remove_subscription_info(object(vec![]), None)));
    assert!(!check_if_subscribed(Some("a".to_string()), data));
}

#[test]
fn unsubscribe_without_a_subscription_makes_an_empty_one() {
    let data = remove_subscription_info(object(vec![]), Some("a".to_string()));
    assert_eq!(
        data,
        object(vec![("subscription", object(vec![("topics", strs(&[])), ("sources", strs(&[]))]))])
    );
    let data = remove_subscription_info(object(vec![]), None);
    assert_eq!(
        data,
        object(vec![(
            "subscription",
            object(vec![
                ("topics", strs(&[])),
                ("sources", strs(&[])),
                ("subscribed", Json::Bool(false)),
            ])
        )])
    );
}

#[test]
fn unsubscribe_from_a_topic_leaves_a_non_object_subscription() {
    let data = object(vec![("subscription", s("odd"))]);
    let data = remove_subscription_info(data, Some("a".to_string()));
    assert_eq!(data, object(vec![("subscription", s("odd"))]));
}

#[test]
fn confirmation_marks_confirmed_and_drops_the_key() {
    let data = object(vec![("subscription", object(vec![("subscribed", Json::Bool(true))]))]);
    let data = add_confirmation_key_in_user(data, "k123");
    assert_eq!(get(sub(&data), "confirmation_key"), Some(&s("k123")));
    let data = mark_subscription_verified(data);
    assert_eq!(get(sub(&data), "confirmation_key"), None);
    assert_eq!(get(sub(&data), "confirmed"), Some(&Json::Bool(true)));
}

#[test]
fn confirmation_key_without_a_subscription_makes_one() {
    let data = add_confirmation_key_in_user(object(vec![]), "key");
    assert_eq!(
        data,
        object(vec![("subscription", object(vec![("confirmation_key", s("key"))]))])
    );
}

#[test]
fn subscription_check_needs_confirmation_and_a_true_flag() {
    let unconfirmed = object(vec![(
        "subscription",
        object(vec![("subscribed", Json::Bool(true)), ("topics", strs(&["a"]))]),
    )]);
    assert!(!check_if_subscribed(None, unconfirmed));
    let odd_topics = object(vec![(
        "subscription",
        object(vec![
            ("topics", Json::Array(vec![Json::Number("1".to_string()), s("a")])),
            ("confirmed", Json::Bool(true)),
        ]),
    )]);
    assert!(check_if_subscribed(Some("a".to_string()), odd_topics));
    let flag_not_bool = object(vec![(
        "subscription",
        object(vec![("subscribed", s("true")), ("confirmed", Json::Bool(true))]),
    )]);
    assert!(!check_if_subscribed(None, flag_not_bool));
    assert!(!check_if_subscribed(None, s("not an object")));
}

#[test]
fn name_of_the_subscriber() {
    let who = subscriber(Some("Gil"), "g@example.com", None);
    let (_, data) = add_subscription_info(object(vec![]), None, None, &who);
    assert_eq!(get_name(&data), "Gil");
    let who = subscriber(None, "g@example.com", None);
    let (_, data) = add_subscription_info(object(vec![]), None, None, &who);
    assert_eq!(get_name(&data), "");
    assert_eq!(get_name(&Json::Null), "");
}

#[test]
fn new_user_data_holds_the_email_identity() {
    let who = subscriber(Some("Hal"), "h@example.com", None);
    let data = new_user_data(&who);
    let expected = object(vec![
        (
            "email",
            object(vec![("emails", strs(&["h@example.com"])), ("identity", s("h@example.com"))]),
        ),
        ("subscription", object(vec![("identity", s("h@example.com")), ("name", s("Hal"))])),
    ]);
    assert_eq!(data, expected);
}

#[test]
fn session_data_names_the_user() {
    assert_eq!(
        subscription_session_data(42),
        object(vec![("subscription_uid", Json::Number("42".to_string()))])
    );
    assert_eq!(
        subscription_session_data(-7),
        object(vec![("subscription_uid", Json::Number("-7".to_string()))])
    );
    assert_eq!(
        subscription_session_data(i64::MIN),
        object(vec![("subscription_uid", Json::Number("-9223372036854775808".to_string()))])
    );
}

#[test]
fn preconditions_of_the_record_updates() {
    let t = Some("a".to_string());
    assert!(!can_record_subscription(&Json::Null, &None, &None));
    assert!(can_record_subscription(&object(vec![]), &t, &t));
    assert!(!can_record_subscription(&object(vec![("subscription", s("x"))]), &None, &None));
    let mixed = object(vec![(
        "subscription",
        object(vec![("topics", Json::Array(vec![s("a"), Json::Null]))]),
    )]);
    // the scan stops at the first copy of the topic
    assert!(can_record_subscription(&mixed, &t, &None));
    assert!(!can_record_subscription(&mixed, &Some("b".to_string()), &None));
    assert!(!can_record_unsubscription(&mixed, &t));
    assert!(can_record_unsubscription(&object(vec![("subscription", s("x"))]), &t));
    assert!(!can_record_unsubscription(&object(vec![("subscription", s("x"))]), &None));
    assert!(can_store_confirmation_key(&object(vec![])));
    assert!(!can_store_confirmation_key(&Json::Bool(true)));
    assert!(!has_subscription_object(&object(vec![])));
    assert!(has_subscription_object(&object(vec![("subscription", object(vec![]))])));
}

#[test]
fn subscribing_again_after_unsubscribing_is_new() {
    let data = object(vec![(
        "subscription",
        object(vec![
            ("subscribed", Json::Bool(false)),
            ("topics", strs(&[])),
            ("sources", strs(&[])),
            ("email", s("a@b.com")),
        ]),
    )]);
    let who = subscriber(None, "a@b.com", None);
    let (made, data) = add_subscription_info(data, None, None, &who);
    assert!(made);
    assert_eq!(
        data,
        object(vec![(
            "subscription",
            object(vec![
                ("subscribed", Json::Bool(true)),
                ("topics", strs(&[])),
                ("sources", strs(&[])),
                ("email", s("a@b.com")),
            ]),
        )])
    );
}

#[test]
fn phone_only_subscriber_record() {
    let who = Subscriber {
        user_id: None,
        is_verified_user: false,
        name: Some("Io".to_string()),
        email: None,
        phone: Some("555".to_string()),
    };
    let existing = object(vec![("subscription", object(vec![("email", s("old@x.test"))]))]);
    let (made, data) = add_subscription_info(existing, None, None, &who);
    assert!(made);
    assert_eq!(get(sub(&data), "email"), Some(&s("old@x.test")));
    assert_eq!(get(sub(&data), "phone"), Some(&s("555")));
    assert_eq!(
        new_user_data(&who),
        object(vec![("subscription", object(vec![("identity", s("555")), ("name", s("Io"))]))])
    );
}

#[test]
fn unsubscribing_twice_is_unsubscribing_once() {
    let data = object(vec![(
        "subscription",
        object(vec![("topics", strs(&["a", "b", "a"])), ("subscribed", Json::Bool(true))]),
    )]);
    for topic in [Some("a".to_string()), None] {
        let once = remove_subscription_info(data_clone(&data), topic.clone());
        let twice = remove_subscription_info(data_clone(&once), topic.clone());
        assert_eq!(once, twice);
    }
    let once = remove_subscription_info(object(vec![]), None);
    assert_eq!(remove_subscription_info(data_clone(&once), None), once);
}

fn data_clone(j: &Json) -> Json {
    match j {
        Json::Null => Json::Null,
        Json::Bool(b) => Json::Bool(*b),
        Json::Number(n) => Json::Number(n.clone()),
        Json::Str(v) => Json::Str(v.clone()),
        Json::Array(a) => Json::Array(a.iter().map(data_clone).collect()),
        Json::Object(m) => Json::Object(m.iter().map(|(k, v)| (k.clone(), data_clone(v))).collect()),
    }
}

#[test]
fn confirming_after_a_key_is_confirming() {
    let data = object(vec![(
        "subscription",
        object(vec![("subscribed", Json::Bool(true)), ("topics", strs(&["a"]))]),
    )]);
    let keyed = add_confirmation_key_in_user(data_clone(&data), "k");
    assert_eq!(mark_subscription_verified(keyed), mark_subscription_verified(data));
}

#[test]
fn updates_keep_member_names_distinct() {
    fn distinct(j: &Json) -> bool {
        match j {
            Json::Object(m) => {
                let mut names: Vec<&String> = m.iter().map(|(k, _)| k).collect();
                let n = names.len();
                names.sort();
                names.dedup();
                names.len() == n && m.iter().all(|(_, v)| distinct(v))
            }
            Json::Array(a) => a.iter().all(distinct),
            _ => true,
        }
    }
    let who = subscriber(Some("J"), "j@example.com", Some("1"));
    let (_, data) = add_subscription_info(object(vec![]), Some("t".to_string()), Some("s".to_string()), &who);
    assert!(distinct(&data));
    let data = add_confirmation_key_in_user(data, "k");
    assert!(distinct(&data));
    let data = mark_subscription_verified(data);
    assert!(distinct(&data));
    let data = remove_subscription_info(data, None);
    assert!(distinct(&data));
}

#[test]
fn unsubscribing_undoes_subscribing() {
    let data = object(vec![(
        "subscription",
        object(vec![("topics", strs(&["a", "b"])), ("sources", strs(&["s"]))]),
    )]);
    let who = subscriber(Some("K"), "k@example.com", None);
    let (made, once) = add_subscription_info(data, Some("c".to_string()), None, &who);
    assert!(made);
    assert_eq!(get(sub(&once), "topics"), Some(&strs(&["a", "b", "c"])));
    let back = remove_subscription_info(once, Some("c".to_string()));
    assert_eq!(get(sub(&back), "topics"), Some(&strs(&["a", "b"])));
}
