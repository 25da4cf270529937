//! Email subscriptions for a site: the subscription record kept in a user's
//! data, the emails that confirm and welcome a subscriber, the cookies that
//! track a visitor, and the decisions of the subscribe, unsubscribe, confirm
//! and tracker routes.
pub mod json;
pub mod subscriber;
pub mod user_data;
pub mod laws;
pub mod text;
pub mod cookies;
pub mod templates;
pub mod email;
pub mod numbers;
pub mod flow;
pub mod stored;
pub mod guarantees;

use vstd::prelude::*;

verus! {

/// Provider id under which the email identity of a user is stored.
pub const EMAIL_PROVIDER_ID: &'static str = "email";

/// Provider id under which the subscription of a user is stored.
pub const SUBSCRIPTION_PROVIDER_ID: &'static str = "subscription";

} // verus!
