//! User profile shapes returned by the users sub-API.

use vstd::prelude::*;

verus! {

/// A full user profile.
#[derive(Default, Debug, Clone, PartialEq)]
pub struct User {
    pub username: String,
    pub external_app_display_name: Option<String>,
    pub description: Option<String>,
    pub created: String,
    pub is_banned: bool,
    pub has_verified_badge: bool,
    pub id: u64,
    pub display_name: String,
}

/// The identifying subset of a user profile.
#[derive(Default, Debug, Clone, PartialEq)]
pub struct PartialUser {
    pub id: u64,
    pub username: String,
    pub display_name: String,
}

} // verus!
