use subscription::email::{
    confirmation_link, double_opt_in_email, email_from_address_from_env, name_or_email, topic_phrase,
    welcome_email, Config, EmailAddress,
};
use subscription::templates::{CONFIRM_HTML_BODY, CONFIRM_TEXT_BODY, WELCOME_TEXT_BODY};

fn sender_address() -> EmailAddress {
    EmailAddress { name: Some("Team".to_string()), email: "team@example.com".to_string() }
}

#[test]
fn greeting_uses_the_email_when_the_name_is_empty() {
    assert_eq!(name_or_email("", "a@b.co"), "a@b.co");
    assert_eq!(name_or_email("Ann", "a@b.co"), "Ann");
}

#[test]
fn topic_words() {
    assert_eq!(topic_phrase(Some("news".to_string())), "to the news");
    assert_eq!(topic_phrase(None), "");
}

#[test]
fn link_for_confirmation() {
    assert_eq!(
        confirmation_link("k1", "a@b.co", "/done/", "https://site.test/confirm_subscription/"),
        "https://site.test/confirm_subscription/?code=k1&email=a@b.co&next=/done/"
    );
}

#[test]
fn sender_from_the_environment() {
    assert_eq!(
        email_from_address_from_env(None, None),
        ("FifthTry Team".to_string(), "support@fifthtry.com".to_string())
    );
    assert_eq!(
        email_from_address_from_env(Some("x@y.z".to_string()), Some("X".to_string())),
        ("X".to_string(), "x@y.z".to_string())
    );
}

#[test]
fn config_addresses() {
    let c = Config { email_sender_name: "Shop".to_string(), email_reply_to: "help@shop.test".to_string() };
    assert_eq!(
        c.from_email(),
        EmailAddress { name: Some("Shop".to_string()), email: "support@fifthtry.com".to_string() }
    );
    assert_eq!(
        c.reply_to(),
        EmailAddress { name: Some("Shop".to_string()), email: "help@shop.test".to_string() }
    );
}

#[test]
fn confirmation_email_fills_every_placeholder() {
    let e = double_opt_in_email("", "a@b.co", "https://l.test/?c=1", Some("news".to_string()), sender_address());
    assert_eq!(e.to, EmailAddress { name: Some("".to_string()), email: "a@b.co".to_string() });
    assert_eq!(e.from, sender_address());
    assert_eq!(e.mkind, "subscription.confirm_subscription_request");
    assert!(e.body_text.contains("Hi a@b.co, Thank you for subscribing to the news!"));
    assert!(e.body_text.contains("\nhttps://l.test/?c=1\n"));
    assert!(e.body_html.contains("<a href=\"https://l.test/?c=1\">Confirm Subscription</a>"));
    assert!(!e.body_html.contains("{name}") && !e.body_html.contains("{topic}"));
    let expected_text = CONFIRM_TEXT_BODY
        .replace("{name}", "a@b.co")
        .replace("{confirmation_link}", "https://l.test/?c=1")
        .replace("{topic}", "to the news");
    assert_eq!(e.body_text, expected_text);
    let expected_html = CONFIRM_HTML_BODY
        .replace("{name}", "a@b.co")
        .replace("{confirmation_link}", "https://l.test/?c=1")
        .replace("{topic}", "to the news");
    assert_eq!(e.body_html, expected_html);
}

#[test]
fn confirmation_email_without_a_topic() {
    let e = double_opt_in_email("Ann", "a@b.co", "L", None, sender_address());
    assert!(e.body_text.contains("Hi Ann, Thank you for subscribing !"));
}

#[test]
fn welcome_email_greets_by_name() {
    let e = welcome_email("Ann", "a@b.co", sender_address(), None);
    assert_eq!(e.subject, Some("Confirm your subscription".to_string()));
    assert_eq!(e.mkind, "subscription.welcome_email");
    assert_eq!(e.body_text, WELCOME_TEXT_BODY.replace("{name}", "Ann"));
    assert!(e.body_html.contains("Hi Ann, Thank you for subscribing to the FifthTry newsletter!"));
}
