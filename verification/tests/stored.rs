use subscription::email::{Config, EmailAddress};
use subscription::flow::{FieldError, FollowUp};
use subscription::json::Json;
use subscription::stored::{
    confirm_text, is_subscribed_text, json_text, new_user_text, parse_json, subscribe_text,
    unsubscribe_text, ConfirmError, DataError,
};
use subscription::subscriber::Subscriber;

fn ann(verified: bool) -> Subscriber {
    Subscriber {
        user_id: None,
        is_verified_user: verified,
        name: Some("Ann".to_string()),
        email: Some("ann@example.com".to_string()),
        phone: None,
    }
}

fn sender() -> EmailAddress {
    EmailAddress { name: Some("Team".to_string()), email: "team@example.com".to_string() }
}

fn shop() -> Config {
    Config { email_sender_name: "Shop".to_string(), email_reply_to: "help@shop.test".to_string() }
}

#[test]
fn json_is_read_and_written() {
    assert_eq!(
        parse_json(r#"{"a": [1, "x", null, true]}"#),
        Some(Json::Object(vec![(
            "a".to_string(),
            Json::Array(vec![
                Json::Number("1".to_string()),
                Json::Str("x".to_string()),
                Json::Null,
                Json::Bool(true),
            ]),
        )]))
    );
    assert_eq!(parse_json("{"), None);
    assert_eq!(parse_json(r#"{"k": 1, "k": 2}"#), Some(Json::Object(vec![("k".to_string(), Json::Number("2".to_string()))])));
    let j = Json::Object(vec![("b".to_string(), Json::Number("-3".to_string()))]);
    assert_eq!(json_text(&j), Some(r#"{"b":-3}"#.to_string()));
    assert_eq!(json_text(&Json::Number("1x".to_string())), None);
}

#[test]
fn subscribe_on_stored_text() {
    let (text, follow) = subscribe_text(
        r#"{"subscription": {"subscribed": false}}"#,
        Some("news".to_string()),
        None,
        &ann(false),
        None,
        "KEY",
        "/c/",
        sender(),
        &shop(),
    )
    .unwrap();
    assert_eq!(
        text,
        r#"{"subscription":{"confirmation_key":"KEY","email":"ann@example.com","name":"Ann","subscribed":true,"topics":["news"]}}"#
    );
    match follow {
        FollowUp::ConfirmationRequest(e) => assert_eq!(e.from, sender()),
        _ => panic!("a confirmation request was due"),
    }
    let r = subscribe_text("nope", None, None, &ann(false), None, "K", "/c/", sender(), &shop());
    assert_eq!(r.err(), Some(DataError::NotJson));
    let r = subscribe_text("[1]", None, None, &ann(false), None, "K", "/c/", sender(), &shop());
    assert_eq!(r.err(), Some(DataError::Unexpected));
}

#[test]
fn unsubscribe_on_stored_text() {
    assert_eq!(
        unsubscribe_text(r#"{"subscription": {"topics": ["a", "b"], "subscribed": true}}"#, Some("a".to_string())),
        Ok(r#"{"subscription":{"subscribed":true,"topics":["b"]}}"#.to_string())
    );
    assert_eq!(
        unsubscribe_text(r#"{"subscription": {"topics": ["a"], "subscribed": true}}"#, None),
        Ok(r#"{"subscription":{"subscribed":false,"topics":[]}}"#.to_string())
    );
    assert_eq!(unsubscribe_text("", None), Err(DataError::NotJson));
    assert_eq!(unsubscribe_text(r#"{"subscription": 1}"#, None), Err(DataError::Unexpected));
}

#[test]
fn confirm_on_stored_text() {
    let sender = ("T".to_string(), "t@x.test".to_string());
    let (text, welcome) = confirm_text(
        Some(r#"{"subscription": {"confirmation_key": "k", "name": "Bo"}}"#.to_string()),
        "bo@x.test",
        sender.clone(),
    )
    .unwrap();
    assert_eq!(text, r#"{"subscription":{"confirmed":true,"name":"Bo"}}"#);
    assert_eq!(welcome.to, EmailAddress { name: Some("Bo".to_string()), email: "bo@x.test".to_string() });
    assert_eq!(
        confirm_text(None, "bo@x.test", sender.clone()).err(),
        Some(ConfirmError::InvalidCode(FieldError {
            field: "code".to_string(),
            message: "Invalid code or email".to_string(),
        }))
    );
    assert_eq!(
        confirm_text(Some("{}".to_string()), "bo@x.test", sender.clone()).err(),
        Some(ConfirmError::Data(DataError::Unexpected))
    );
    assert_eq!(
        confirm_text(Some("x".to_string()), "bo@x.test", sender).err(),
        Some(ConfirmError::Data(DataError::NotJson))
    );
}

#[test]
fn is_subscribed_on_stored_text() {
    let t = r#"{"subscription": {"subscribed": true, "confirmed": true, "topics": ["a"]}}"#;
    assert!(is_subscribed_text(None, Some(t.to_string())));
    assert!(is_subscribed_text(Some("a".to_string()), Some(t.to_string())));
    assert!(!is_subscribed_text(Some("b".to_string()), Some(t.to_string())));
    assert!(!is_subscribed_text(None, Some("not json".to_string())));
    assert!(!is_subscribed_text(None, None));
}

#[test]
fn new_user_on_stored_text() {
    assert_eq!(
        new_user_text(&ann(false)),
        Ok(r#"{"email":{"emails":["ann@example.com"],"identity":"ann@example.com"},"subscription":{"identity":"ann@example.com","name":"Ann"}}"#.to_string())
    );
}
