//! Who is subscribing.
use vstd::prelude::*;

verus! {

/// The person a subscription is made for.
#[derive(Debug, PartialEq)]
pub struct Subscriber {
    /// Id of an existing user, when one is already known.
    pub user_id: Option<i64>,
    /// The subscriber has a verified email address, so no confirmation is needed.
    pub is_verified_user: bool,
    pub name: Option<String>,
    /// The subscriber's email address; a subscriber may give a phone number
    /// in its place.
    pub email: Option<String>,
    pub phone: Option<String>,
}

} // verus!
