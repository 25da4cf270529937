//! The decisions of the subscribe, unsubscribe, confirm, is-subscribed and
//! set-tracker routes. The routes read and write the database, the session
//! and the mail queue; these functions take what was read and say what to do
//! and what to write.
use vstd::prelude::*;
use crate::email::{
    Config, EmailAddress, OutgoingEmail, EMAIL_SENDER, address_is, confirmation_link,
    double_opt_in_email, is_confirmation_request, is_valid_email, is_welcome_email, link_text,
    validate_email, welcome_email,
};
use crate::json::{Json, JsonV, copy_opt, object_members, opt_view};
use crate::laws::law_subscription_recorded;
use crate::numbers::{parse_i64, parsed_i64};
use crate::subscriber::Subscriber;
use crate::text::{signed_decimal, signed_decimal_text};
use crate::user_data::{
    add_confirmation_key_in_user, add_subscription_info, check_if_subscribed, get_name,
    mark_subscription_verified, session_members, subscribe_ok, subscribed_data,
    subscription_active, subscription_name, subscription_object, subscription_session_data,
    verified_members, with_confirmation_key,
};

verus! {

/// Where the subscribe route redirects when the request names no place.
pub const DEFAULT_SUBSCRIBE_NEXT: &'static str = "/thank-you/";

/// Where the unsubscribe route redirects when the request names no place.
pub const DEFAULT_UNSUBSCRIBE_NEXT: &'static str = "/goodbye/";

/// Where the confirm route redirects, and where the confirmation link leads,
/// when the request names no place.
pub const DEFAULT_REDIRECT_ROUTE: &'static str = "/";

/// A form error on one field.
#[derive(Debug, PartialEq)]
pub struct FieldError {
    pub field: String,
    pub message: String,
}

/// The error is on `field`, with `message`.
pub open spec fn is_field_error(e: FieldError, field: Seq<char>, message: Seq<char>) -> bool {
    e.field@ == field && e.message@ == message
}

fn field_error(field: &str, message: &str) -> (e: FieldError)
    ensures
        is_field_error(e, field@, message@),
{
    FieldError { field: field.to_owned(), message: message.to_owned() }
}

/// The logged-in user, as the session reports them.
#[derive(Debug, PartialEq)]
pub struct LoggedInUser {
    pub id: i64,
    pub name: String,
    pub email: String,
    pub verified_email: bool,
}

/// What an identity provider holds of a user.
#[derive(Debug, PartialEq)]
pub struct ProviderData {
    pub identity: String,
    pub username: Option<String>,
    pub name: Option<String>,
    pub emails: Vec<String>,
    pub verified_emails: Vec<String>,
    pub profile_picture: Option<String>,
    pub custom: Json,
}

/// The first verified email address, or else the first address.
pub open spec fn first_email_of(data: ProviderData) -> Option<Seq<char>> {
    if data.verified_emails@.len() > 0 {
        Some(data.verified_emails@[0]@)
    } else if data.emails@.len() > 0 {
        Some(data.emails@[0]@)
    } else {
        None
    }
}

/// The first verified email address, or else the first address.
pub fn first_email(data: &ProviderData) -> (r: Option<String>)
    ensures
        opt_view(r) == first_email_of(*data),
{
    if data.verified_emails.len() > 0 {
        Some(data.verified_emails[0].clone())
    } else if data.emails.len() > 0 {
        Some(data.emails[0].clone())
    } else {
        None
    }
}

/// The subscriber is made of these values.
pub open spec fn subscriber_is(
    s: Subscriber,
    user_id: Option<i64>,
    is_verified_user: bool,
    name: Option<Seq<char>>,
    email: Option<Seq<char>>,
    phone: Option<Seq<char>>,
) -> bool {
    &&& s.user_id == user_id
    &&& s.is_verified_user == is_verified_user
    &&& opt_view(s.name) == name
    &&& opt_view(s.email) == email
    &&& opt_view(s.phone) == phone
}

/// The subscriber recorded for user `user_id`, from the user's email
/// identity. The subscriber counts as verified when the user has a verified
/// address.
pub fn subscriber_from_provider_data(user_id: i64, data: &ProviderData) -> (r: Subscriber)
    requires
        first_email_of(*data) is Some,
    ensures
        subscriber_is(
            r,
            Some(user_id),
            data.verified_emails@.len() > 0,
            opt_view(data.name),
            first_email_of(*data),
            None,
        ),
{
    Subscriber {
        user_id: Some(user_id),
        is_verified_user: data.verified_emails.len() > 0,
        name: data.name.clone(),
        email: first_email(data),
        phone: None,
    }
}

/// How a subscriber is identified: by email address, or else by phone
/// number, or else by the empty text.
pub open spec fn identity_of(s: Subscriber) -> Seq<char> {
    match s.email {
        Some(e) => e@,
        None => match s.phone {
            Some(p) => p@,
            None => Seq::empty(),
        },
    }
}

impl Subscriber {
    /// The identity of a new user made for this subscriber: the address (or
    /// else the phone number) is the identity, the address, when there is
    /// one, the one (unverified) email; the name is also the username; there
    /// is no picture and no custom data.
    pub fn to_provider_data(&self) -> (r: ProviderData)
        ensures
            r.identity@ == identity_of(*self),
            opt_view(r.username) == opt_view(self.name),
            opt_view(r.name) == opt_view(self.name),
            match self.email {
                Some(e) => r.emails@.len() == 1 && r.emails@[0]@ == e@,
                None => r.emails@.len() == 0,
            },
            r.verified_emails@.len() == 0,
            r.profile_picture is None,
            r.custom@ == JsonV::Object(seq![]),
    {
        let custom = Json::Object(Vec::new());
        assert(custom@ == JsonV::Object(seq![])) by {
            assert(crate::json::members_view(Seq::<(String, Json)>::empty()) =~= seq![]);
        }
        let (identity, emails) = match &self.email {
            Some(e) => (e.clone(), vec![e.clone()]),
            None => match &self.phone {
                Some(p) => (p.clone(), Vec::new()),
                None => (String::new(), Vec::new()),
            },
        };
        ProviderData {
            identity,
            username: copy_opt(&self.name),
            name: copy_opt(&self.name),
            emails,
            verified_emails: Vec::new(),
            profile_picture: None,
            custom,
        }
    }
}

/// What the subscribe route has learnt while it works out the subscriber.
#[derive(Debug, PartialEq)]
pub enum ValidateEvent {
    /// Nothing yet.
    Start,
    /// The logged-in user, if any.
    Login(Option<LoggedInUser>),
    /// The user remembered in the session as having subscribed, if any.
    SubscriptionUser(Option<Subscriber>),
}

/// What the subscribe route does next to work out the subscriber.
#[derive(Debug, PartialEq)]
pub enum ValidateStep {
    /// The subscriber is known, or the request is rejected.
    Done(Result<Subscriber, FieldError>),
    /// Look up the logged-in user.
    LookUpLogin,
    /// Look up the user remembered in the session.
    LookUpSubscriptionUser,
}

/// What the subscribe route does when no address and no user is known: a
/// phone number is enough; without one the request is rejected because an
/// email (or a phone number) is required.
pub open spec fn phone_only_step(name: Option<Seq<char>>, phone: Option<Seq<char>>, r: ValidateStep) -> bool {
    match phone {
        Some(p) => r matches ValidateStep::Done(Ok(s)) && subscriber_is(s, None, false, name, None, Some(p)),
        None => r matches ValidateStep::Done(Err(err)) && is_field_error(
            err,
            "email"@,
            "Email is required."@,
        ),
    }
}

fn phone_only(name: Option<String>, phone: Option<String>) -> (r: ValidateStep)
    ensures
        phone_only_step(opt_view(name), opt_view(phone), r),
{
    match phone {
        Some(p) => ValidateStep::Done(
            Ok(Subscriber { name, email: None, phone: Some(p), user_id: None, is_verified_user: false }),
        ),
        None => ValidateStep::Done(Err(field_error("email", "Email is required."))),
    }
}

/// Works out who subscribes. An email in the request is used when it is
/// valid, and rejected otherwise. Without one, the logged-in user subscribes;
/// without a login, the user remembered in the session; without a session or
/// such a user, the phone number given subscribes, and without a phone number
/// the request is rejected because an email or a phone number is required.
pub fn validate(
    name: Option<String>,
    phone: Option<String>,
    email: Option<String>,
    has_session: bool,
    event: ValidateEvent,
) -> (r: ValidateStep)
    ensures
        match email {
            Some(e) => if is_valid_email(e@) {
                r matches ValidateStep::Done(Ok(s)) && subscriber_is(
                    s,
                    None,
                    false,
                    opt_view(name),
                    Some(e@),
                    opt_view(phone),
                )
            } else {
                r matches ValidateStep::Done(Err(err)) && is_field_error(
                    err,
                    "email"@,
                    "Invalid email."@,
                )
            },
            None => match event {
                ValidateEvent::Start => r is LookUpLogin,
                ValidateEvent::Login(Some(u)) => r matches ValidateStep::Done(Ok(s)) && subscriber_is(
                    s,
                    Some(u.id),
                    u.verified_email,
                    Some(u.name@),
                    Some(u.email@),
                    opt_view(phone),
                ),
                ValidateEvent::Login(None) => if has_session {
                    r is LookUpSubscriptionUser
                } else {
                    phone_only_step(opt_view(name), opt_view(phone), r)
                },
                ValidateEvent::SubscriptionUser(Some(s0)) => r matches ValidateStep::Done(Ok(s))
                    && s == s0,
                ValidateEvent::SubscriptionUser(None) => phone_only_step(
                    opt_view(name),
                    opt_view(phone),
                    r,
                ),
            },
        },
{
    match email {
        Some(e) => {
            if !validate_email(&e) {
                return ValidateStep::Done(Err(field_error("email", "Invalid email.")));
            }
            ValidateStep::Done(
                Ok(Subscriber { name, email: Some(e), phone, user_id: None, is_verified_user: false }),
            )
        },
        None => match event {
            ValidateEvent::Start => ValidateStep::LookUpLogin,
            ValidateEvent::Login(Some(u)) => ValidateStep::Done(
                Ok(
                    Subscriber {
                        name: Some(u.name),
                        email: Some(u.email),
                        phone,
                        user_id: Some(u.id),
                        is_verified_user: u.verified_email,
                    },
                ),
            ),
            ValidateEvent::Login(None) => {
                if !has_session {
                    return phone_only(name, phone);
                }
                ValidateStep::LookUpSubscriptionUser
            },
            ValidateEvent::SubscriptionUser(Some(s)) => ValidateStep::Done(Ok(s)),
            ValidateEvent::SubscriptionUser(None) => phone_only(name, phone),
        },
    }
}

/// The outcome of looking a user up by email address.
#[derive(Debug, PartialEq)]
pub enum EmailLookup {
    Found(i64),
    NoDataFound,
    Failed,
}

/// What the subscribe route has learnt while it finds the subscriber's user id.
#[derive(Debug, PartialEq)]
pub enum UserIdEvent {
    /// Nothing yet.
    Start,
    /// The outcome of the lookup by email address.
    ByEmail(EmailLookup),
    /// A user was made, with this id.
    Created(i64),
}

/// What the subscribe route does next to find the subscriber's user id.
#[derive(Debug, PartialEq)]
pub enum UserIdStep {
    /// The user id, and whether the user was made for this subscription.
    Done(i64, bool),
    /// Look the user up by this email address.
    LookUpByEmail(String),
    /// Make a user for the subscriber.
    Create,
    /// The lookup failed.
    Fail,
}

/// Finds the subscriber's user id: a known id is used; otherwise the user is
/// looked up by email address, and made when there is none (or when the
/// subscriber gave no address). The id comes with whether a user was made.
pub fn get_or_create_user_id(known: Option<i64>, email: Option<String>, event: UserIdEvent) -> (r:
    UserIdStep)
    ensures
        match known {
            Some(id) => r == UserIdStep::Done(id, false),
            None => match event {
                UserIdEvent::Start => match email {
                    Some(e) => r matches UserIdStep::LookUpByEmail(a) && a@ == e@,
                    None => r is Create,
                },
                UserIdEvent::ByEmail(EmailLookup::Found(id)) => r == UserIdStep::Done(id, false),
                UserIdEvent::ByEmail(EmailLookup::NoDataFound) => r is Create,
                UserIdEvent::ByEmail(EmailLookup::Failed) => r is Fail,
                UserIdEvent::Created(id) => r == UserIdStep::Done(id, true),
            },
        },
{
    match known {
        Some(id) => UserIdStep::Done(id, false),
        None => match event {
            UserIdEvent::Start => match email {
                Some(e) => UserIdStep::LookUpByEmail(e),
                None => UserIdStep::Create,
            },
            UserIdEvent::ByEmail(EmailLookup::Found(id)) => UserIdStep::Done(id, false),
            UserIdEvent::ByEmail(EmailLookup::NoDataFound) => UserIdStep::Create,
            UserIdEvent::ByEmail(EmailLookup::Failed) => UserIdStep::Fail,
            UserIdEvent::Created(id) => UserIdStep::Done(id, true),
        },
    }
}

/// The email a subscription calls for.
#[derive(Debug, PartialEq)]
pub enum FollowUp {
    /// None: the user was subscribed already, or gave no email address.
    Nothing,
    /// Welcome the subscriber, whose address is verified.
    Welcome(OutgoingEmail),
    /// Ask the subscriber to confirm the subscription.
    ConfirmationRequest(OutgoingEmail),
}

/// The name the subscriber gave, or the empty string.
pub open spec fn given_name(s: Subscriber) -> Seq<char> {
    match s.name {
        Some(n) => n@,
        None => Seq::empty(),
    }
}

/// The text, or the default when there is none.
pub open spec fn or_default(o: Option<Seq<char>>, d: Seq<char>) -> Seq<char> {
    match o {
        Some(s) => s,
        None => d,
    }
}

/// The text, or the default when there is none.
fn string_or(o: Option<String>, d: &str) -> (r: String)
    ensures
        r@ == or_default(opt_view(o), d@),
{
    match o {
        Some(s) => s,
        None => d.to_owned(),
    }
}

/// The user's data once a subscription is recorded and settled: a new
/// subscription of a subscriber with a verified address is confirmed; one of
/// any other subscriber with an address holds the confirmation key.
pub open spec fn completed_data(
    data: JsonV,
    topic: Option<Seq<char>>,
    source: Option<Seq<char>>,
    subscriber: Subscriber,
    confirmation_key: Seq<char>,
) -> JsonV {
    let (made, after) = subscribed_data(
        data,
        topic,
        source,
        opt_view(subscriber.name),
        opt_view(subscriber.phone),
        opt_view(subscriber.email),
    );
    if !made {
        after
    } else if subscriber.is_verified_user {
        JsonV::Object(verified_members(object_members(after)->0))
    } else if subscriber.email is Some {
        JsonV::Object(with_confirmation_key(object_members(after)->0, confirmation_key))
    } else {
        after
    }
}

/// The email a subscription calls for: none when no new subscription was
/// made or the subscriber has no address; a welcome from the configured
/// sender for a subscriber with a verified address; otherwise a request from
/// `sender` to confirm by following the confirmation link.
pub open spec fn follow_up_is(
    f: FollowUp,
    data: JsonV,
    topic: Option<Seq<char>>,
    source: Option<Seq<char>>,
    subscriber: Subscriber,
    on_confirm: Option<Seq<char>>,
    confirmation_key: Seq<char>,
    confirm_route: Seq<char>,
    sender: EmailAddress,
    config: Config,
) -> bool {
    let made = subscribed_data(
        data,
        topic,
        source,
        opt_view(subscriber.name),
        opt_view(subscriber.phone),
        opt_view(subscriber.email),
    ).0;
    match subscriber.email {
        Some(to) => if !made {
            f is Nothing
        } else if subscriber.is_verified_user {
            match f {
                FollowUp::Welcome(e) => {
                    &&& is_welcome_email(e, given_name(subscriber), to@)
                    &&& address_is(e.from, Some(config.email_sender_name@), EMAIL_SENDER@)
                    &&& match e.reply_to {
                        Some(rt) => address_is(
                            rt,
                            Some(config.email_sender_name@),
                            config.email_reply_to@,
                        ),
                        None => false,
                    }
                },
                _ => false,
            }
        } else {
            f matches FollowUp::ConfirmationRequest(e) && e.from == sender
                && is_confirmation_request(
                e,
                given_name(subscriber),
                to@,
                link_text(
                    confirm_route,
                    confirmation_key,
                    to@,
                    or_default(on_confirm, DEFAULT_REDIRECT_ROUTE@),
                ),
                topic,
            )
        },
        None => f is Nothing,
    }
}

/// Records a subscription in a user's data and settles its follow-up. When a
/// new subscription was made, a subscriber with a verified address has it
/// confirmed at once and is welcomed; any other subscriber with an address
/// gets `confirmation_key` stored in the subscription and an email with the
/// link that confirms it. A subscriber with no address gets no email.
/// `confirm_route` is the app's confirmation route, `sender` the address
/// confirmation requests come from.
pub fn complete_subscription(
    data: Json,
    topic: Option<String>,
    source: Option<String>,
    subscriber: &Subscriber,
    on_confirm: Option<String>,
    confirmation_key: &str,
    confirm_route: &str,
    sender: EmailAddress,
    config: &Config,
) -> (r: (Json, FollowUp))
    requires
        subscribe_ok(data@, opt_view(topic), opt_view(source)),
    ensures
        r.0@ == completed_data(data@, opt_view(topic), opt_view(source), *subscriber, confirmation_key@),
        follow_up_is(
            r.1,
            data@,
            opt_view(topic),
            opt_view(source),
            *subscriber,
            opt_view(on_confirm),
            confirmation_key@,
            confirm_route@,
            sender,
            *config,
        ),
{
    proof {
        law_subscription_recorded(
            data@,
            opt_view(topic),
            opt_view(source),
            opt_view(subscriber.name),
            opt_view(subscriber.phone),
            opt_view(subscriber.email),
        );
    }
    let topic_copy = copy_opt(&topic);
    let (made, after) = add_subscription_info(data, topic, source, subscriber);
    if !made {
        return (after, FollowUp::Nothing);
    }
    let name = string_or(copy_opt(&subscriber.name), "");
    proof {
        reveal_strlit("");
        assert(name@ == given_name(*subscriber));
    }
    if subscriber.is_verified_user {
        let confirmed = mark_subscription_verified(after);
        match &subscriber.email {
            Some(to) => {
                let email = welcome_email(
                    name.as_str(),
                    to.as_str(),
                    config.from_email(),
                    Some(config.reply_to()),
                );
                (confirmed, FollowUp::Welcome(email))
            },
            None => (confirmed, FollowUp::Nothing),
        }
    } else {
        match &subscriber.email {
            Some(to) => {
                let keyed = add_confirmation_key_in_user(after, confirmation_key);
                let next = string_or(on_confirm, DEFAULT_REDIRECT_ROUTE);
                let link = confirmation_link(
                    confirmation_key,
                    to.as_str(),
                    next.as_str(),
                    confirm_route,
                );
                let email = double_opt_in_email(
                    name.as_str(),
                    to.as_str(),
                    link.as_str(),
                    topic_copy,
                    sender,
                );
                (keyed, FollowUp::ConfirmationRequest(email))
            },
            None => (after, FollowUp::Nothing),
        }
    }
}

/// Where the subscribe route redirects after a subscription: `next`, by
/// default the thank-you page.
pub fn subscribe_next(next: Option<String>) -> (r: String)
    ensures
        r@ == or_default(opt_view(next), DEFAULT_SUBSCRIBE_NEXT@),
{
    string_or(next, DEFAULT_SUBSCRIBE_NEXT)
}

/// The session data that remembers which user subscribed, for a session made
/// by the subscribe route.
pub fn new_session_data(user_id: i64) -> (r: Json)
    ensures
        r@ == JsonV::Object(session_members(user_id as int)),
{
    subscription_session_data(user_id)
}

/// What the subscribe route does to the session so that it remembers the
/// subscriber's user id.
#[derive(Debug, PartialEq)]
pub enum SessionUpdate {
    /// Make a session with this data, and set its cookie.
    Create(Json),
    /// Set the member `key` of the existing session's data to `value`.
    SetKey(String, i64),
}

/// What the subscribe route does to the session: without one, a session is
/// made that remembers the user; with one, its `subscription_uid` is set to
/// the user's id.
pub fn subscribe_session(has_session: bool, user_id: i64) -> (r: SessionUpdate)
    ensures
        if has_session {
            r matches SessionUpdate::SetKey(k, v) && k@ == "subscription_uid"@ && v == user_id
        } else {
            r matches SessionUpdate::Create(d) && d@ == JsonV::Object(session_members(user_id as int))
        },
{
    if has_session {
        SessionUpdate::SetKey("subscription_uid".to_owned(), user_id)
    } else {
        SessionUpdate::Create(new_session_data(user_id))
    }
}

/// Whom the unsubscribe route acts for.
#[derive(Debug, PartialEq)]
pub enum UnsubscribeUser {
    /// The logged-in user.
    Known(i64),
    /// The user with this email address, to be looked up.
    LookUpByEmail(String),
    /// The request is rejected.
    Rejected(FieldError),
}

/// Whom the unsubscribe route acts for: the logged-in user; otherwise the
/// user with the email given, which is required and must be valid.
pub fn get_user(logged_in: Option<i64>, email: Option<String>) -> (r: UnsubscribeUser)
    ensures
        match logged_in {
            Some(id) => r == UnsubscribeUser::Known(id),
            None => match email {
                None => r matches UnsubscribeUser::Rejected(e) && is_field_error(
                    e,
                    "email"@,
                    "email is required"@,
                ),
                Some(a) => if is_valid_email(a@) {
                    r matches UnsubscribeUser::LookUpByEmail(s) && s@ == a@
                } else {
                    r matches UnsubscribeUser::Rejected(e) && is_field_error(
                        e,
                        "email"@,
                        "Invalid email."@,
                    )
                },
            },
        },
{
    match logged_in {
        Some(id) => UnsubscribeUser::Known(id),
        None => match email {
            None => UnsubscribeUser::Rejected(field_error("email", "email is required")),
            Some(a) => {
                if !validate_email(&a) {
                    return UnsubscribeUser::Rejected(field_error("email", "Invalid email."));
                }
                UnsubscribeUser::LookUpByEmail(a)
            },
        },
    }
}

/// Where the unsubscribe route redirects: `next`, by default the goodbye page.
pub fn unsubscribe_next(next: Option<String>) -> (r: String)
    ensures
        r@ == or_default(opt_view(next), DEFAULT_UNSUBSCRIBE_NEXT@),
{
    string_or(next, DEFAULT_UNSUBSCRIBE_NEXT)
}

/// The confirm route takes only a valid email address.
pub fn check_confirmation_email(email: &String) -> (r: Result<(), FieldError>)
    ensures
        match r {
            Ok(()) => is_valid_email(email@),
            Err(e) => !is_valid_email(email@) && is_field_error(
                e,
                "email"@,
                "Invalid email format."@,
            ),
        },
{
    if !validate_email(email) {
        return Err(field_error("email", "Invalid email format."));
    }
    Ok(())
}

/// Confirms the subscription of the user found by the confirmation code and
/// email: the subscription is marked confirmed and its key dropped, and the
/// subscriber is welcomed by the name stored in the subscription. Without
/// such a user the code or the email is wrong. `sender` is `(name, email)`.
pub fn confirm_user_data(user_data: Option<Json>, email: &str, sender: (String, String)) -> (r:
    Result<(Json, OutgoingEmail), FieldError>)
    requires
        user_data matches Some(d) ==> subscription_object(d@) is Some,
    ensures
        match user_data {
            None => r matches Err(e) && is_field_error(e, "code"@, "Invalid code or email"@),
            Some(d) => r matches Ok((after, welcome)) && after@ == JsonV::Object(
                verified_members(object_members(d@)->0),
            ) && is_welcome_email(welcome, subscription_name(d@), email@) && address_is(
                welcome.from,
                Some(sender.0@),
                sender.1@,
            ) && welcome.reply_to is None,
        },
{
    match user_data {
        None => Err(field_error("code", "Invalid code or email")),
        Some(d) => {
            let name = get_name(&d);
            let after = mark_subscription_verified(d);
            let (from_name, from_email) = sender;
            let welcome = welcome_email(
                name.as_str(),
                email,
                EmailAddress { name: Some(from_name), email: from_email },
                None,
            );
            Ok((after, welcome))
        },
    }
}

/// Where the confirm route redirects: `next`, by default the site root.
pub fn confirm_next(next: Option<String>) -> (r: String)
    ensures
        r@ == or_default(opt_view(next), DEFAULT_REDIRECT_ROUTE@),
{
    string_or(next, DEFAULT_REDIRECT_ROUTE)
}

/// Whether the visitor is subscribed (to `topic`, or to everything) and has
/// confirmed; a visitor whose data could not be found is not.
pub fn is_subscribed(topic: Option<String>, user_data: Option<Json>) -> (r: bool)
    ensures
        r == match user_data {
            Some(d) => subscription_active(opt_view(topic), d@),
            None => false,
        },
{
    match user_data {
        Some(d) => check_if_subscribed(topic, d),
        None => false,
    }
}

/// What the set-tracker route does about the session.
#[derive(Debug, PartialEq)]
pub enum TrackerSession {
    /// Make a session for the user whose id the token carries.
    FromToken(String),
    /// Make an empty session.
    Empty,
    /// Keep the session there is.
    Keep,
}

/// What the set-tracker route does about the session: with a token, a
/// session is made for the user it names; without one, an empty session is
/// made unless there is a session already.
pub fn set_tracker(t: Option<String>, has_session: bool) -> (r: TrackerSession)
    ensures
        match t {
            Some(token) => r matches TrackerSession::FromToken(s) && s@ == token@,
            None => if has_session {
                r is Keep
            } else {
                r is Empty
            },
        },
{
    match t {
        Some(token) => TrackerSession::FromToken(token),
        None => if has_session {
            TrackerSession::Keep
        } else {
            TrackerSession::Empty
        },
    }
}

/// The value of the tracker cookie: the id of the user the token names, or
/// else of the logged-in user, in decimal; empty when there is neither.
pub open spec fn tracker_text(token_user: Option<i64>, logged_in: Option<i64>) -> Seq<char> {
    match token_user {
        Some(id) => signed_decimal(id as int),
        None => match logged_in {
            Some(id) => signed_decimal(id as int),
            None => Seq::empty(),
        },
    }
}

/// The value of the tracker cookie the set-tracker route sets: the user id
/// carried by the token when there is one, else the logged-in user's id,
/// else nothing.
pub fn tracker_value(token_user: Option<i64>, logged_in: Option<i64>) -> (r: String)
    ensures
        r@ == tracker_text(token_user, logged_in),
{
    match token_user {
        Some(id) => signed_decimal_text(id),
        None => match logged_in {
            Some(id) => signed_decimal_text(id),
            None => String::new(),
        },
    }
}

/// Why a tracker token was refused.
#[derive(Debug, PartialEq, Eq, Structural)]
pub enum TokenError {
    /// The decrypted token is not a user id written in decimal.
    NotAUserId,
}

/// The user id a decrypted tracker token holds.
pub fn token_user_id(plain_text: &str) -> (r: Result<i64, TokenError>)
    ensures
        match parsed_i64(plain_text@) {
            Some(id) => r == Ok::<i64, TokenError>(id),
            None => r is Err,
        },
{
    match parse_i64(plain_text) {
        Ok(id) => Ok(id),
        Err(_) => Err(TokenError::NotAUserId),
    }
}

/// The session data for the user whose id a decrypted tracker token holds.
pub fn create_session_using_t(plain_text: &str) -> (r: Result<Json, TokenError>)
    ensures
        match parsed_i64(plain_text@) {
            Some(id) => r matches Ok(d) && d@ == JsonV::Object(session_members(id as int)),
            None => r is Err,
        },
{
    match token_user_id(plain_text) {
        Ok(id) => Ok(subscription_session_data(id)),
        Err(e) => Err(e),
    }
}

/// What the set-tracker route does about the session.
#[derive(Debug, PartialEq)]
pub enum SessionPlan {
    /// Make a session with this data (none for an empty session), and set
    /// its cookie.
    Create(Option<Json>),
    /// Keep the session there is.
    Keep,
}

/// What the set-tracker route does: the session to make or keep, and the
/// value of the tracker cookie.
#[derive(Debug, PartialEq)]
pub struct TrackerPlan {
    pub session: SessionPlan,
    pub tracker: String,
}

/// What the set-tracker route does, given the decrypted token when the
/// request has one, whether there is a session, and the logged-in user's id.
/// With a token, a session is made that remembers the user the token names,
/// and the tracker holds that user's id; a token that holds no user id is
/// refused. Without one, an empty session is made unless there is a session
/// already, and the tracker holds the logged-in user's id, or nothing when no
/// user is logged in.
pub fn tracker_plan(token_text: Option<String>, has_session: bool, logged_in: Option<i64>) -> (r:
    Result<TrackerPlan, TokenError>)
    ensures
        match token_text {
            Some(p) => match parsed_i64(p@) {
                Some(id) => r matches Ok(plan) && plan.session matches SessionPlan::Create(Some(d))
                    && d@ == JsonV::Object(session_members(id as int)) && plan.tracker@
                    == tracker_text(Some(id), logged_in),
                None => r matches Err(e) && e == TokenError::NotAUserId,
            },
            None => r matches Ok(plan) && plan.tracker@ == tracker_text(None, logged_in) && (if has_session {
                plan.session is Keep
            } else {
                plan.session matches SessionPlan::Create(None)
            }),
        },
{
    match set_tracker(token_text, has_session) {
        TrackerSession::FromToken(p) => match token_user_id(p.as_str()) {
            Ok(id) => Ok(
                TrackerPlan {
                    session: SessionPlan::Create(Some(subscription_session_data(id))),
                    tracker: tracker_value(Some(id), logged_in),
                },
            ),
            Err(e) => Err(e),
        },
        TrackerSession::Empty => Ok(
            TrackerPlan { session: SessionPlan::Create(None), tracker: tracker_value(None, logged_in) },
        ),
        TrackerSession::Keep => Ok(
            TrackerPlan { session: SessionPlan::Keep, tracker: tracker_value(None, logged_in) },
        ),
    }
}

} // verus!
