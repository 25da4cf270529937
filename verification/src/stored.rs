//! User data as the database stores it: JSON text, read and written with
//! serde_json.
use vstd::prelude::*;
use crate::email::{OutgoingEmail, address_is, is_welcome_email};
use crate::flow::{
    FieldError, FollowUp, complete_subscription, is_subscribed, completed_data, confirm_user_data,
    follow_up_is, is_field_error,
};
use crate::email::{Config, EmailAddress};
use crate::json::{Json, JsonV, json_wf, object_members, opt_view};
use crate::subscriber::Subscriber;
use crate::user_data::{
    can_record_subscription, can_record_unsubscription,
    has_subscription_object, new_user_data, new_user_members, remove_subscription_info,
    subscribe_ok, subscription_active, subscription_name, subscription_object,
    unsubscribe_ok, unsubscribed_members, verified_members,
};

verus! {

#[verifier::external_type_specification]
#[verifier::external_body]
pub struct ExJsonValue(serde_json::Value);

/// The value serde_json reads from a text, or `None` when the text is not
/// JSON.
pub uninterp spec fn json_of_text(text: Seq<char>) -> Option<JsonV>;

/// The text serde_json writes for a value, or `None` when a number of the
/// value is not in JSON form.
pub uninterp spec fn text_of_json(value: JsonV) -> Option<Seq<char>>;

/// A serde_json value as the library holds it, variant for variant; numbers
/// keep the text serde_json gives them, and objects their members in the
/// order serde_json walks them.
#[verifier::external_body]
fn from_value(v: serde_json::Value) -> (r: Json) {
    match v {
        serde_json::Value::Null => Json::Null,
        serde_json::Value::Bool(b) => Json::Bool(b),
        serde_json::Value::Number(n) => Json::Number(n.to_string()),
        serde_json::Value::String(s) => Json::Str(s),
        serde_json::Value::Array(a) => Json::Array(a.into_iter().map(from_value).collect()),
        serde_json::Value::Object(m) => Json::Object(m.into_iter().map(|(k, v)| (k, from_value(v))).collect()),
    }
}

/// A value of the library as serde_json holds it, variant for variant, or
/// `None` when serde_json refuses the text of a number.
#[verifier::external_body]
fn to_value(j: &Json) -> (r: Option<serde_json::Value>) {
    Some(match j {
        Json::Null => serde_json::Value::Null,
        Json::Bool(b) => serde_json::Value::Bool(*b),
        Json::Number(n) => serde_json::Value::Number(n.parse::<serde_json::Number>().ok()?),
        Json::Str(s) => serde_json::Value::String(s.clone()),
        Json::Array(a) => serde_json::Value::Array(a.iter().map(to_value).collect::<Option<Vec<_>>>()?),
        Json::Object(m) => serde_json::Value::Object(m.iter().map(|(k, v)| Some((k.clone(), to_value(v)?))).collect::<Option<serde_json::Map<String, serde_json::Value>>>()?),
    })
}

/// Reads a JSON text.
///
/// Calls `serde_json::from_str` into a `serde_json::Value` and converts the
/// value. The result is named `json_of_text`. serde_json keeps an object's
/// members in a map, so no object it reads repeats a key.
#[verifier::external_body]
pub fn parse_json(text: &str) -> (r: Option<Json>)
    ensures
        match r {
            Some(j) => json_of_text(text@) == Some(j@) && json_wf(j@),
            None => json_of_text(text@) is None,
        },
{
    serde_json::from_str::<serde_json::Value>(text).ok().map(from_value)
}

/// Writes a value as JSON text.
///
/// Converts the value to a `serde_json::Value` (each number read with
/// `serde_json::Number`'s `FromStr`) and calls `serde_json::to_string`. The
/// result is named `text_of_json`.
#[verifier::external_body]
pub fn json_text(j: &Json) -> (r: Option<String>)
    ensures
        match r {
            Some(s) => text_of_json(j@) == Some(s@),
            None => text_of_json(j@) is None,
        },
{
    to_value(j).and_then(|v| serde_json::to_string(&v).ok())
}

/// Why stored user data could not be used.
#[derive(Debug, PartialEq, Eq, Structural)]
pub enum DataError {
    /// The stored text is not JSON.
    NotJson,
    /// The data is not shaped as a user's data must be.
    Unexpected,
    /// The updated data could not be written as JSON.
    NotWritable,
}

/// The result is the error `e`.
pub open spec fn fails_with<T>(r: Result<T, DataError>, e: DataError) -> bool {
    r matches Err(x) && x == e
}

/// Records a subscription in a user's stored data (see
/// `complete_subscription`) and gives the data's new text with the email the
/// subscription calls for. The text must be JSON, and the data a user's data
/// that can take the subscription.
pub fn subscribe_text(
    text: &str,
    topic: Option<String>,
    source: Option<String>,
    subscriber: &Subscriber,
    on_confirm: Option<String>,
    confirmation_key: &str,
    confirm_route: &str,
    sender: EmailAddress,
    config: &Config,
) -> (r: Result<(String, FollowUp), DataError>)
    ensures
        match json_of_text(text@) {
            None => fails_with(r, DataError::NotJson),
            Some(d) => if !subscribe_ok(d, opt_view(topic), opt_view(source)) {
                fails_with(r, DataError::Unexpected)
            } else {
                match text_of_json(
                    completed_data(d, opt_view(topic), opt_view(source), *subscriber, confirmation_key@),
                ) {
                    None => fails_with(r, DataError::NotWritable),
                    Some(out) => r matches Ok((o, f)) && o@ == out && follow_up_is(
                        f,
                        d,
                        opt_view(topic),
                        opt_view(source),
                        *subscriber,
                        opt_view(on_confirm),
                        confirmation_key@,
                        confirm_route@,
                        sender,
                        *config,
                    ),
                }
            },
        },
{
    let data = match parse_json(text) {
        Some(d) => d,
        None => {
            return Err(DataError::NotJson);
        },
    };
    if !can_record_subscription(&data, &topic, &source) {
        return Err(DataError::Unexpected);
    }
    let (after, follow_up) = complete_subscription(
        data,
        topic,
        source,
        subscriber,
        on_confirm,
        confirmation_key,
        confirm_route,
        sender,
        config,
    );
    match json_text(&after) {
        Some(out) => Ok((out, follow_up)),
        None => Err(DataError::NotWritable),
    }
}

/// Records an unsubscription in a user's stored data (see
/// `remove_subscription_info`) and gives the data's new text.
pub fn unsubscribe_text(text: &str, topic: Option<String>) -> (r: Result<String, DataError>)
    ensures
        match json_of_text(text@) {
            None => fails_with(r, DataError::NotJson),
            Some(d) => if !unsubscribe_ok(d, opt_view(topic)) {
                fails_with(r, DataError::Unexpected)
            } else {
                match text_of_json(
                    JsonV::Object(unsubscribed_members(object_members(d)->0, opt_view(topic))),
                ) {
                    None => fails_with(r, DataError::NotWritable),
                    Some(out) => r matches Ok(o) && o@ == out,
                }
            },
        },
{
    let data = match parse_json(text) {
        Some(d) => d,
        None => {
            return Err(DataError::NotJson);
        },
    };
    if !can_record_unsubscription(&data, &topic) {
        return Err(DataError::Unexpected);
    }
    let after = remove_subscription_info(data, topic);
    match json_text(&after) {
        Some(out) => Ok(out),
        None => Err(DataError::NotWritable),
    }
}

/// Why a confirmation was refused.
#[derive(Debug, PartialEq)]
pub enum ConfirmError {
    /// No user has this confirmation code and email.
    InvalidCode(FieldError),
    /// The user's stored data could not be used.
    Data(DataError),
}

/// Confirms the subscription of the user found by the confirmation code and
/// email, from the text of the user's stored data (see `confirm_user_data`):
/// gives the data's new text and the welcome email. `sender` is
/// `(name, email)`.
pub fn confirm_text(found: Option<String>, email: &str, sender: (String, String)) -> (r: Result<
    (String, OutgoingEmail),
    ConfirmError,
>)
    ensures
        match found {
            None => r matches Err(ConfirmError::InvalidCode(e)) && is_field_error(
                e,
                "code"@,
                "Invalid code or email"@,
            ),
            Some(t) => match json_of_text(t@) {
                None => r matches Err(ConfirmError::Data(x)) && x == DataError::NotJson,
                Some(d) => if subscription_object(d) is None {
                    r matches Err(ConfirmError::Data(x)) && x == DataError::Unexpected
                } else {
                    match text_of_json(JsonV::Object(verified_members(object_members(d)->0))) {
                        None => r matches Err(ConfirmError::Data(x)) && x == DataError::NotWritable,
                        Some(out) => r matches Ok((o, welcome)) && o@ == out && is_welcome_email(
                            welcome,
                            subscription_name(d),
                            email@,
                        ) && address_is(welcome.from, Some(sender.0@), sender.1@)
                            && welcome.reply_to is None,
                    }
                },
            },
        },
{
    let data = match found {
        None => {
            return match confirm_user_data(None, email, sender) {
                Err(e) => Err(ConfirmError::InvalidCode(e)),
                Ok(_) => Err(ConfirmError::Data(DataError::Unexpected)),
            };
        },
        Some(t) => match parse_json(t.as_str()) {
            Some(d) => d,
            None => {
                return Err(ConfirmError::Data(DataError::NotJson));
            },
        },
    };
    if !has_subscription_object(&data) {
        return Err(ConfirmError::Data(DataError::Unexpected));
    }
    match confirm_user_data(Some(data), email, sender) {
        Ok((after, welcome)) => match json_text(&after) {
            Some(out) => Ok((out, welcome)),
            None => Err(ConfirmError::Data(DataError::NotWritable)),
        },
        Err(e) => Err(ConfirmError::InvalidCode(e)),
    }
}

/// Whether the user whose stored data this is has subscribed (to `topic`, or
/// to everything) and confirmed; a user whose data could not be found or
/// read is not.
pub fn is_subscribed_text(topic: Option<String>, text: Option<String>) -> (r: bool)
    ensures
        r == match text {
            Some(t) => match json_of_text(t@) {
                Some(d) => subscription_active(opt_view(topic), d),
                None => false,
            },
            None => false,
        },
{
    let data = match text {
        Some(t) => parse_json(t.as_str()),
        None => None,
    };
    is_subscribed(topic, data)
}

/// The text of the data of a user made for a new subscriber (see
/// `new_user_data`).
pub fn new_user_text(subscriber: &Subscriber) -> (r: Result<String, DataError>)
    ensures
        match text_of_json(
            JsonV::Object(
                new_user_members(
                    opt_view(subscriber.name),
                    opt_view(subscriber.email),
                    opt_view(subscriber.phone),
                ),
            ),
        ) {
            Some(out) => r matches Ok(o) && o@ == out,
            None => fails_with(r, DataError::NotWritable),
        },
{
    match json_text(&new_user_data(subscriber)) {
        Some(out) => Ok(out),
        None => Err(DataError::NotWritable),
    }
}

} // verus!
