//! The emails sent to subscribers, and the checks on email addresses.
use vstd::prelude::*;
use crate::json::opt_view;
use crate::templates::{CONFIRM_HTML_BODY, CONFIRM_TEXT_BODY, WELCOME_HTML_BODY, WELCOME_TEXT_BODY};
use crate::text::{replace_all, replaced};

verus! {

broadcast use vstd::string::group_string_axioms;

/// The address subscription emails are sent from.
pub const EMAIL_SENDER: &'static str = "support@fifthtry.com";

/// Sender address used when the environment names none.
pub const DEFAULT_SENDER_EMAIL: &'static str = "support@fifthtry.com";

/// Sender name used when the environment names none.
pub const DEFAULT_SENDER_NAME: &'static str = "FifthTry Team";

/// The redirect after the link in the confirmation email is followed, when
/// the subscribe request names none.
pub const DEFAULT_ON_CONFIRM: &'static str = "/";

/// An email address, with an optional display name.
#[derive(Debug, PartialEq)]
pub struct EmailAddress {
    pub name: Option<String>,
    pub email: String,
}

/// Settings of the subscription app.
#[derive(Debug, PartialEq)]
pub struct Config {
    pub email_sender_name: String,
    pub email_reply_to: String,
}

/// An email to be queued for sending.
#[derive(Debug, PartialEq)]
pub struct OutgoingEmail {
    pub from: EmailAddress,
    pub to: EmailAddress,
    pub reply_to: Option<EmailAddress>,
    pub subject: Option<String>,
    pub body_html: String,
    pub body_text: String,
    /// The kind of message, for the mail queue.
    pub mkind: String,
}

/// Whether a text is a valid email address (the HTML5 rules, with
/// internationalised domains).
pub uninterp spec fn is_valid_email(s: Seq<char>) -> bool;

/// Checks an email address.
///
/// Calls `validator::ValidateEmail::validate_email` (validator 0.21). Its
/// source rejects an empty text and one without `@` before any pattern
/// matching; what it accepts otherwise is named `is_valid_email`.
#[verifier::external_body]
pub(crate) fn validate_email(email: &String) -> (r: bool)
    ensures
        r == is_valid_email(email@),
        r ==> email@.len() > 0 && email@.contains('@'),
{
    validator::ValidateEmail::validate_email(email)
}

impl Config {
    /// The address subscription emails are sent from, under the configured
    /// sender name.
    pub fn from_email(&self) -> (r: EmailAddress)
        ensures
            opt_view(r.name) == Some(self.email_sender_name@),
            r.email@ == EMAIL_SENDER@,
    {
        EmailAddress { name: Some(self.email_sender_name.clone()), email: EMAIL_SENDER.to_owned() }
    }

    /// The configured reply-to address, under the configured sender name.
    pub fn reply_to(&self) -> (r: EmailAddress)
        ensures
            opt_view(r.name) == Some(self.email_sender_name@),
            r.email@ == self.email_reply_to@,
    {
        EmailAddress {
            name: Some(self.email_sender_name.clone()),
            email: self.email_reply_to.clone(),
        }
    }
}

/// The sender of subscription emails, `(name, email)`, from the values the
/// environment gives for the sender's email and name, with defaults.
pub fn email_from_address_from_env(sender_email: Option<String>, sender_name: Option<String>) -> (r: (
    String,
    String,
))
    ensures
        r.0@ == match sender_name {
            Some(n) => n@,
            None => DEFAULT_SENDER_NAME@,
        },
        r.1@ == match sender_email {
            Some(e) => e@,
            None => DEFAULT_SENDER_EMAIL@,
        },
{
    let email = match sender_email {
        Some(e) => e,
        None => DEFAULT_SENDER_EMAIL.to_owned(),
    };
    let name = match sender_name {
        Some(n) => n,
        None => DEFAULT_SENDER_NAME.to_owned(),
    };
    (name, email)
}

/// How a subscriber is greeted: by name, or by email when the name is empty.
pub open spec fn greeting_name(name: Seq<char>, email: Seq<char>) -> Seq<char> {
    if name.len() == 0 {
        email
    } else {
        name
    }
}

/// How a subscriber is greeted: by name, or by email when the name is empty.
pub fn name_or_email(name: &str, email: &str) -> (r: String)
    ensures
        r@ == greeting_name(name@, email@),
{
    if name.is_empty() {
        email.to_owned()
    } else {
        name.to_owned()
    }
}

/// The words that name the topic in the confirmation email: `to the <topic>`,
/// or nothing.
pub open spec fn topic_words(topic: Option<Seq<char>>) -> Seq<char> {
    match topic {
        Some(t) => "to the "@ + t,
        None => Seq::empty(),
    }
}

/// The words that name the topic in the confirmation email.
pub fn topic_phrase(topic: Option<String>) -> (r: String)
    ensures
        r@ == topic_words(opt_view(topic)),
{
    match topic {
        Some(t) => {
            let mut s = "to the ".to_owned();
            s.append(t.as_str());
            s
        },
        None => String::new(),
    }
}

/// The link that confirms a subscription: the confirmation route, then the
/// key, the email and where to go afterwards as query parameters.
pub open spec fn link_text(url: Seq<char>, key: Seq<char>, email: Seq<char>, next: Seq<char>) -> Seq<
    char,
> {
    url + "?code="@ + key + "&email="@ + email + "&next="@ + next
}

/// The link that confirms a subscription. `url` is the confirmation route of
/// the app.
pub fn confirmation_link(key: &str, email: &str, next: &str, url: &str) -> (r: String)
    ensures
        r@ == link_text(url@, key@, email@, next@),
{
    let mut s = url.to_owned();
    s.append("?code=");
    s.append(key);
    s.append("&email=");
    s.append(email);
    s.append("&next=");
    s.append(next);
    s
}

/// A confirmation template with its placeholders filled in, in the order
/// name, link, topic.
pub open spec fn confirmation_body(
    template: Seq<char>,
    greeting: Seq<char>,
    link: Seq<char>,
    topic: Seq<char>,
) -> Seq<char> {
    replaced(
        replaced(replaced(template, "{name}"@, greeting), "{confirmation_link}"@, link),
        "{topic}"@,
        topic,
    )
}

fn fill_confirmation(template: &str, greeting: &str, link: &str, topic: &str) -> (r: String)
    ensures
        r@ == confirmation_body(template@, greeting@, link@, topic@),
{
    let a = replace_all(template, "{name}", greeting);
    let b = replace_all(a.as_str(), "{confirmation_link}", link);
    replace_all(b.as_str(), "{topic}", topic)
}

/// The address has this display name and email.
pub open spec fn address_is(a: EmailAddress, name: Option<Seq<char>>, email: Seq<char>) -> bool {
    opt_view(a.name) == name && a.email@ == email
}

/// The email asks the subscriber `to_name <to_email>` to confirm the
/// subscription by following `link`; it names the topic, if any.
pub open spec fn is_confirmation_request(
    e: OutgoingEmail,
    to_name: Seq<char>,
    to_email: Seq<char>,
    link: Seq<char>,
    topic: Option<Seq<char>>,
) -> bool {
    &&& address_is(e.to, Some(to_name), to_email)
    &&& e.reply_to is None
    &&& e.subject is None
    &&& e.body_html@ == confirmation_body(
        CONFIRM_HTML_BODY@,
        greeting_name(to_name, to_email),
        link,
        topic_words(topic),
    )
    &&& e.body_text@ == confirmation_body(
        CONFIRM_TEXT_BODY@,
        greeting_name(to_name, to_email),
        link,
        topic_words(topic),
    )
    &&& e.mkind@ == "subscription.confirm_subscription_request"@
}

/// The email welcomes the subscriber `to_name <to_email>`.
pub open spec fn is_welcome_email(e: OutgoingEmail, to_name: Seq<char>, to_email: Seq<char>) -> bool {
    &&& address_is(e.to, Some(to_name), to_email)
    &&& e.subject matches Some(s) && s@ == "Confirm your subscription"@
    &&& e.body_html@ == replaced(WELCOME_HTML_BODY@, "{name}"@, greeting_name(to_name, to_email))
    &&& e.body_text@ == replaced(WELCOME_TEXT_BODY@, "{name}"@, greeting_name(to_name, to_email))
    &&& e.mkind@ == "subscription.welcome_email"@
}

/// The email that asks a subscriber to confirm the subscription by following
/// `conf_link`.
pub fn double_opt_in_email(
    to_name: &str,
    to_email: &str,
    conf_link: &str,
    topic: Option<String>,
    from: EmailAddress,
) -> (r: OutgoingEmail)
    ensures
        r.from == from,
        is_confirmation_request(r, to_name@, to_email@, conf_link@, opt_view(topic)),
{
    let greeting = name_or_email(to_name, to_email);
    let to_topic = topic_phrase(topic);
    let body_html = fill_confirmation(
        CONFIRM_HTML_BODY,
        greeting.as_str(),
        conf_link,
        to_topic.as_str(),
    );
    let body_text = fill_confirmation(
        CONFIRM_TEXT_BODY,
        greeting.as_str(),
        conf_link,
        to_topic.as_str(),
    );
    OutgoingEmail {
        from,
        to: EmailAddress { name: Some(to_name.to_owned()), email: to_email.to_owned() },
        reply_to: None,
        subject: None,
        body_html,
        body_text,
        mkind: "subscription.confirm_subscription_request".to_owned(),
    }
}

/// The email that welcomes a subscriber whose subscription is confirmed.
pub fn welcome_email(
    to_name: &str,
    to_email: &str,
    from: EmailAddress,
    reply_to: Option<EmailAddress>,
) -> (r: OutgoingEmail)
    ensures
        r.from == from,
        r.reply_to == reply_to,
        is_welcome_email(r, to_name@, to_email@),
{
    let greeting = name_or_email(to_name, to_email);
    let body_html = replace_all(WELCOME_HTML_BODY, "{name}", greeting.as_str());
    let body_text = replace_all(WELCOME_TEXT_BODY, "{name}", greeting.as_str());
    OutgoingEmail {
        from,
        to: EmailAddress { name: Some(to_name.to_owned()), email: to_email.to_owned() },
        reply_to,
        subject: Some("Confirm your subscription".to_owned()),
        body_html,
        body_text,
        mkind: "subscription.welcome_email".to_owned(),
    }
}

} // verus!
