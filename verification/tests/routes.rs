use subscription::email::{Config, EmailAddress};
use subscription::flow::{
    check_confirmation_email, complete_subscription, confirm_next, confirm_user_data,
    create_session_using_t, first_email, get_or_create_user_id, get_user, is_subscribed,
    set_tracker, subscribe_next, subscribe_session, subscriber_from_provider_data,
    token_user_id, tracker_plan, tracker_value, unsubscribe_next, validate, EmailLookup, FieldError, FollowUp,
    LoggedInUser, ProviderData, SessionPlan, SessionUpdate, TrackerPlan, TokenError, TrackerSession, UnsubscribeUser,
    UserIdEvent, UserIdStep, ValidateEvent, ValidateStep,
};
use subscription::json::Json;
use subscription::subscriber::Subscriber;

fn provider(name: Option<&str>, emails: &[&str], verified: &[&str]) -> ProviderData {
    ProviderData {
        identity: "id".to_string(),
        username: None,
        name: name.map(|n| n.to_string()),
        emails: emails.iter().map(|e| e.to_string()).collect(),
        verified_emails: verified.iter().map(|e| e.to_string()).collect(),
        profile_picture: None,
        custom: Json::Null,
    }
}

fn field(f: &str, m: &str) -> FieldError {
    FieldError { field: f.to_string(), message: m.to_string() }
}

fn obj_of(entries: Vec<(&str, Json)>) -> Json {
    Json::Object(entries.into_iter().map(|(k, v)| (k.to_string(), v)).collect())
}

fn member_of<'a>(j: &'a Json, key: &str) -> Option<&'a Json> {
    match j {
        Json::Object(m) => m.iter().find(|(k, _)| k == key).map(|(_, v)| v),
        _ => None,
    }
}

fn who(verified: bool) -> Subscriber {
    Subscriber {
        user_id: None,
        is_verified_user: verified,
        name: Some("Ann".to_string()),
        email: Some("ann@example.com".to_string()),
        phone: None,
    }
}

fn shop() -> Config {
    Config { email_sender_name: "Shop".to_string(), email_reply_to: "help@shop.test".to_string() }
}

fn env_sender() -> EmailAddress {
    EmailAddress { name: Some("Team".to_string()), email: "team@example.com".to_string() }
}

#[test]
fn validate_with_an_email() {
    let r = validate(Some("A".to_string()), Some("1".to_string()), Some("a@example.com".to_string()), false, ValidateEvent::Start);
    assert_eq!(
        r,
        ValidateStep::Done(Ok(Subscriber {
            user_id: None,
            is_verified_user: false,
            name: Some("A".to_string()),
            email: Some("a@example.com".to_string()),
            phone: Some("1".to_string()),
        }))
    );
    let r = validate(None, None, Some("not-an-email".to_string()), false, ValidateEvent::Start);
    assert_eq!(r, ValidateStep::Done(Err(field("email", "Invalid email."))));
    let r = validate(None, None, Some("".to_string()), false, ValidateEvent::Start);
    assert_eq!(r, ValidateStep::Done(Err(field("email", "Invalid email."))));
}

#[test]
fn validate_without_an_email_asks_for_the_login() {
    assert_eq!(validate(None, None, None, true, ValidateEvent::Start), ValidateStep::LookUpLogin);
    let user = LoggedInUser { id: 5, name: "Bo".to_string(), email: "bo@x.test".to_string(), verified_email: true };
    let r = validate(Some("ignored".to_string()), Some("2".to_string()), None, true, ValidateEvent::Login(Some(user)));
    assert_eq!(
        r,
        ValidateStep::Done(Ok(Subscriber {
            user_id: Some(5),
            is_verified_user: true,
            name: Some("Bo".to_string()),
            email: Some("bo@x.test".to_string()),
            phone: Some("2".to_string()),
        }))
    );
    assert_eq!(
        validate(None, None, None, false, ValidateEvent::Login(None)),
        ValidateStep::Done(Err(field("email", "Email is required.")))
    );
    assert_eq!(
        validate(Some("Di".to_string()), Some("555".to_string()), None, false, ValidateEvent::Login(None)),
        ValidateStep::Done(Ok(Subscriber {
            user_id: None,
            is_verified_user: false,
            name: Some("Di".to_string()),
            email: None,
            phone: Some("555".to_string()),
        }))
    );
    assert_eq!(
        validate(None, Some("555".to_string()), None, true, ValidateEvent::SubscriptionUser(None)),
        ValidateStep::Done(Ok(Subscriber {
            user_id: None,
            is_verified_user: false,
            name: None,
            email: None,
            phone: Some("555".to_string()),
        }))
    );
    assert_eq!(validate(None, None, None, true, ValidateEvent::Login(None)), ValidateStep::LookUpSubscriptionUser);
    assert_eq!(
        validate(None, None, None, true, ValidateEvent::SubscriptionUser(None)),
        ValidateStep::Done(Err(field("email", "Email is required.")))
    );
    assert_eq!(
        validate(None, None, None, true, ValidateEvent::SubscriptionUser(Some(who(false)))),
        ValidateStep::Done(Ok(who(false)))
    );
}

#[test]
fn subscriber_from_the_email_identity() {
    let data = provider(Some("Cy"), &["c1@x.test", "c2@x.test"], &[]);
    assert_eq!(first_email(&data), Some("c1@x.test".to_string()));
    let s = subscriber_from_provider_data(9, &data);
    assert_eq!(s.email, Some("c1@x.test".to_string()));
    assert_eq!(s.user_id, Some(9));
    assert!(!s.is_verified_user);
    let data = provider(None, &["c1@x.test"], &["v@x.test"]);
    let s = subscriber_from_provider_data(9, &data);
    assert_eq!(s.email, Some("v@x.test".to_string()));
    assert!(s.is_verified_user);
    assert_eq!(first_email(&provider(None, &[], &[])), None);
}

#[test]
fn user_id_steps() {
    let email = || Some("a@x.test".to_string());
    assert_eq!(get_or_create_user_id(Some(3), email(), UserIdEvent::Start), UserIdStep::Done(3, false));
    assert_eq!(
        get_or_create_user_id(None, email(), UserIdEvent::Start),
        UserIdStep::LookUpByEmail("a@x.test".to_string())
    );
    assert_eq!(get_or_create_user_id(None, None, UserIdEvent::Start), UserIdStep::Create);
    assert_eq!(
        get_or_create_user_id(None, email(), UserIdEvent::ByEmail(EmailLookup::Found(4))),
        UserIdStep::Done(4, false)
    );
    assert_eq!(
        get_or_create_user_id(None, email(), UserIdEvent::ByEmail(EmailLookup::NoDataFound)),
        UserIdStep::Create
    );
    assert_eq!(
        get_or_create_user_id(None, email(), UserIdEvent::ByEmail(EmailLookup::Failed)),
        UserIdStep::Fail
    );
    assert_eq!(get_or_create_user_id(None, email(), UserIdEvent::Created(8)), UserIdStep::Done(8, true));
}

#[test]
fn unverified_subscriber_gets_a_confirmation_request() {
    let (data, follow) = complete_subscription(
        obj_of(vec![]),
        Some("news".to_string()),
        None,
        &who(false),
        None,
        "KEY",
        "https://s.test/confirm_subscription/",
        env_sender(),
        &shop(),
    );
    let sub = member_of(&data, "subscription").unwrap();
    assert_eq!(member_of(sub, "confirmation_key"), Some(&Json::Str("KEY".to_string())));
    match follow {
        FollowUp::ConfirmationRequest(e) => {
            assert_eq!(e.from, env_sender());
            assert!(e.body_text.contains(
                "https://s.test/confirm_subscription/?code=KEY&email=ann@example.com&next=/"
            ));
            assert!(e.body_text.contains("Hi Ann, Thank you for subscribing to the news!"));
        }
        other => panic!("unexpected follow-up {:?}", other),
    }
}

#[test]
fn verified_subscriber_is_welcomed_and_confirmed() {
    let (data, follow) = complete_subscription(
        obj_of(vec![]),
        Some("news".to_string()),
        None,
        &who(true),
        Some("/welcome/".to_string()),
        "KEY",
        "https://s.test/confirm_subscription/",
        env_sender(),
        &shop(),
    );
    let sub = member_of(&data, "subscription").unwrap();
    assert_eq!(member_of(sub, "confirmed"), Some(&Json::Bool(true)));
    assert_eq!(member_of(sub, "confirmation_key"), None);
    assert!(is_subscribed(Some("news".to_string()), Some(data)));
    match follow {
        FollowUp::Welcome(e) => {
            assert_eq!(e.from, EmailAddress { name: Some("Shop".to_string()), email: "support@fifthtry.com".to_string() });
            assert_eq!(
                e.reply_to,
                Some(EmailAddress { name: Some("Shop".to_string()), email: "help@shop.test".to_string() })
            );
            assert_eq!(e.to.email, "ann@example.com");
        }
        other => panic!("unexpected follow-up {:?}", other),
    }
}

#[test]
fn repeated_subscription_needs_no_email() {
    let data = obj_of(vec![(
        "subscription",
        obj_of(vec![
            ("topics", Json::Array(vec![Json::Str("news".to_string())])),
            ("subscribed", Json::Bool(true)),
        ]),
    )]);
    let (_, follow) = complete_subscription(
        data,
        Some("news".to_string()),
        None,
        &who(false),
        None,
        "KEY",
        "/c/",
        env_sender(),
        &shop(),
    );
    assert_eq!(follow, FollowUp::Nothing);
}

#[test]
fn redirects() {
    assert_eq!(subscribe_next(None), "/thank-you/");
    assert_eq!(subscribe_next(Some("/n/".to_string())), "/n/");
    assert_eq!(unsubscribe_next(None), "/goodbye/");
    assert_eq!(unsubscribe_next(Some("/x/".to_string())), "/x/");
    assert_eq!(confirm_next(None), "/");
}

#[test]
fn unsubscribe_user() {
    assert_eq!(get_user(Some(1), None), UnsubscribeUser::Known(1));
    assert_eq!(get_user(None, None), UnsubscribeUser::Rejected(field("email", "email is required")));
    assert_eq!(get_user(None, Some("bad".to_string())), UnsubscribeUser::Rejected(field("email", "Invalid email.")));
    assert_eq!(
        get_user(None, Some("ok@example.com".to_string())),
        UnsubscribeUser::LookUpByEmail("ok@example.com".to_string())
    );
}

#[test]
fn confirm_route() {
    assert_eq!(check_confirmation_email(&"x".to_string()), Err(field("email", "Invalid email format.")));
    assert_eq!(check_confirmation_email(&"x@example.com".to_string()), Ok(()));
    assert_eq!(
        confirm_user_data(None, "x@example.com", ("T".to_string(), "t@x.test".to_string())),
        Err(field("code", "Invalid code or email"))
    );
    let data = obj_of(vec![(
        "subscription",
        obj_of(vec![
            ("name", Json::Str("".to_string())),
            ("confirmation_key", Json::Str("K".to_string())),
            ("subscribed", Json::Bool(true)),
        ]),
    )]);
    let (after, welcome) =
        confirm_user_data(Some(data), "x@example.com", ("T".to_string(), "t@x.test".to_string())).unwrap();
    assert!(is_subscribed(None, Some(after)));
    assert_eq!(welcome.to, EmailAddress { name: Some("".to_string()), email: "x@example.com".to_string() });
    assert_eq!(welcome.from, EmailAddress { name: Some("T".to_string()), email: "t@x.test".to_string() });
    assert!(welcome.body_text.contains("Hi x@example.com, Thank you"));
}

#[test]
fn is_subscribed_without_data() {
    assert!(!is_subscribed(None, None));
}

#[test]
fn tracker_session() {
    assert_eq!(set_tracker(Some("tok".to_string()), true), TrackerSession::FromToken("tok".to_string()));
    assert_eq!(set_tracker(None, true), TrackerSession::Keep);
    assert_eq!(set_tracker(None, false), TrackerSession::Empty);
}

#[test]
fn session_from_a_token() {
    assert_eq!(
        create_session_using_t("17"),
        Ok(obj_of(vec![("subscription_uid", Json::Number("17".to_string()))]))
    );
    assert_eq!(
        create_session_using_t("+5"),
        Ok(obj_of(vec![("subscription_uid", Json::Number("5".to_string()))]))
    );
    assert_eq!(create_session_using_t("1x"), Err(TokenError::NotAUserId));
    assert_eq!(create_session_using_t(""), Err(TokenError::NotAUserId));
    assert_eq!(create_session_using_t("99999999999999999999"), Err(TokenError::NotAUserId));
}

#[test]
fn provider_data_of_a_new_subscriber() {
    let d = who(false).to_provider_data();
    assert_eq!(d.identity, "ann@example.com");
    assert_eq!(d.username, Some("Ann".to_string()));
    assert_eq!(d.name, Some("Ann".to_string()));
    assert_eq!(d.emails, vec!["ann@example.com".to_string()]);
    assert!(d.verified_emails.is_empty());
    assert_eq!(d.profile_picture, None);
    assert_eq!(d.custom, Json::Object(vec![]));
}

#[test]
fn phone_only_subscriber_gets_no_email() {
    let phone_only = Subscriber {
        user_id: None,
        is_verified_user: false,
        name: None,
        email: None,
        phone: Some("555".to_string()),
    };
    let (data, follow) = complete_subscription(
        obj_of(vec![]),
        None,
        None,
        &phone_only,
        None,
        "KEY",
        "/c/",
        env_sender(),
        &shop(),
    );
    assert_eq!(follow, FollowUp::Nothing);
    let sub = member_of(&data, "subscription").unwrap();
    assert_eq!(member_of(sub, "phone"), Some(&Json::Str("555".to_string())));
    assert_eq!(member_of(sub, "email"), Some(&Json::Null));
    assert_eq!(member_of(sub, "confirmation_key"), None);
    let d = phone_only.to_provider_data();
    assert_eq!(d.identity, "555");
    assert!(d.emails.is_empty());
}

#[test]
fn session_of_the_subscribe_route() {
    assert_eq!(subscribe_session(true, 7), SessionUpdate::SetKey("subscription_uid".to_string(), 7));
    assert_eq!(
        subscribe_session(false, 7),
        SessionUpdate::Create(obj_of(vec![("subscription_uid", Json::Number("7".to_string()))]))
    );
}

#[test]
fn tracker_values() {
    assert_eq!(tracker_value(Some(12), Some(3)), "12");
    assert_eq!(tracker_value(None, Some(-3)), "-3");
    assert_eq!(tracker_value(None, None), "");
    assert_eq!(token_user_id("42"), Ok(42));
    assert_eq!(token_user_id("-0042"), Ok(-42));
    assert_eq!(token_user_id("4 2"), Err(TokenError::NotAUserId));
}

#[test]
fn token_round_trip() {
    for n in [0i64, 7, -7, i64::MAX, i64::MIN] {
        assert_eq!(token_user_id(&tracker_value(Some(n), None)), Ok(n));
    }
}

#[test]
fn tracker_plans() {
    assert_eq!(
        tracker_plan(Some("12".to_string()), true, Some(3)),
        Ok(TrackerPlan {
            session: SessionPlan::Create(Some(obj_of(vec![("subscription_uid", Json::Number("12".to_string()))]))),
            tracker: "12".to_string(),
        })
    );
    assert_eq!(tracker_plan(Some("x".to_string()), false, None), Err(TokenError::NotAUserId));
    assert_eq!(
        tracker_plan(None, true, Some(3)),
        Ok(TrackerPlan { session: SessionPlan::Keep, tracker: "3".to_string() })
    );
    assert_eq!(
        tracker_plan(None, false, None),
        Ok(TrackerPlan { session: SessionPlan::Create(None), tracker: "".to_string() })
    );
}
