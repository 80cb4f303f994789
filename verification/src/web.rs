//! User shapes of the plain web endpoints (an earlier surface of the
//! same service), and the trait their fetched records share.

use vstd::prelude::*;

verus! {

/// The authenticated account as the web user-info endpoint reports it.
#[derive(Debug, Clone, PartialEq)]
pub struct AuthenticatedUser {
    pub id: u64,
    pub username: String,
    pub robux_balance: u64,
    pub thumbnail_url: String,
    pub is_premium: bool,
}

/// A full user profile as the web endpoints report it.
#[derive(Debug, Clone, PartialEq)]
pub struct User {
    pub username: String,
    pub display_name: String,
    pub is_banned: bool,
    pub description: String,
    pub created: String,
    pub has_verified_badge: bool,
    pub external_app_display_name: Option<String>,
    pub id: u64,
}

/// The identifying subset of a user profile.
#[derive(Debug, Clone, PartialEq)]
pub struct PartialUser {
    pub username: String,
    pub id: u64,
}

/// One user search result.
#[derive(Debug, Clone, PartialEq)]
pub struct UserSearchResult {
    pub username: String,
    pub display_name: String,
    pub id: u64,
    pub has_verified_badge: bool,
    pub previous_usernames: Vec<String>,
}

/// One entry of a username history.
#[derive(Debug, Clone, PartialEq)]
pub struct Username {
    pub name: String,
}

/// The list envelope the web endpoints wrap their results in.
#[derive(Debug, Clone, PartialEq)]
pub struct Data<T> {
    pub data: Vec<T>,
}

/// Shared by every record that identifies a user.
pub trait UserMethods {
    /// The user's numeric id.
    fn id(&self) -> u64;
}

impl UserMethods for User {
    fn id(&self) -> u64 {
        self.id
    }
}

impl UserMethods for PartialUser {
    fn id(&self) -> u64 {
        self.id
    }
}

impl UserMethods for AuthenticatedUser {
    fn id(&self) -> u64 {
        self.id
    }
}

impl UserMethods for UserSearchResult {
    fn id(&self) -> u64 {
        self.id
    }
}

} // verus!
