//! Presence shapes: where a user is and when they were last online.

use vstd::prelude::*;

verus! {

/// How present a user currently is.
#[derive(Debug, Clone, PartialEq)]
pub enum UserPresenceType {
    Offline,
    Online,
    InGame,
    InStudio,
}

/// What kind of place a presence location refers to.
#[derive(Debug, Clone, PartialEq)]
pub enum UserLocationType {
    Page,
    Game,
}

/// A user's full presence record.
#[derive(Debug, Clone, PartialEq)]
pub struct UserPresence {
    pub user_presence_type: UserPresenceType,
    pub user_location_type: Option<UserLocationType>,
    pub user_id: u64,
    pub last_online: String,
    pub last_location: String,
    pub game_id: Option<u64>,
    pub place_id: Option<u64>,
    pub universe_id: Option<u64>,
    pub root_place_id: Option<u64>,
}

/// Only the last-online timestamp of a user.
#[derive(Debug, Clone, PartialEq)]
pub struct PartialUserPresence {
    pub user_id: u64,
    pub last_online: String,
}

/// How present a user currently is (earlier shape of the same record).
#[derive(Debug, Clone, PartialEq)]
pub enum PresenceType {
    Offline,
    Online,
    InGame,
    InStudio,
}

/// A user and their last-online timestamp.
#[derive(Debug, Clone, PartialEq)]
pub struct Presence {
    pub user_id: u64,
    pub last_online: String,
}

/// A presence record joined with its location details.
#[derive(Debug, Clone, PartialEq)]
pub struct DetailedPresence {
    pub presence: Presence,
    pub user_presence_type: PresenceType,
    pub last_location: String,
    pub game_id: Option<u64>,
    pub place_id: Option<u64>,
    pub universe_id: Option<u64>,
    pub root_place_id: Option<u64>,
}

} // verus!
