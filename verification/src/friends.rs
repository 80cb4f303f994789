//! Friendship and follower shapes returned by the friends sub-API.

use vstd::prelude::*;

use crate::presence::UserPresence;
use crate::users::{PartialUser, User};

verus! {

/// The relation between the authenticated user and another user.
#[derive(Debug, Clone, PartialEq, Eq, Structural)]
pub enum FriendshipStatus {
    NotFriends,
    Friends,
    RequestSent,
    RequestReceived,
}

/// A user id together with the friendship relation to it.
#[derive(Debug, Clone, PartialEq, Eq, Structural)]
pub struct UserRelationship {
    pub id: u64,
    pub status: FriendshipStatus,
}

impl UserRelationship {
    /// Whether this relation is an established friendship.
    pub fn is_friend(&self) -> (r: bool)
        ensures
            r == (self.status == FriendshipStatus::Friends),
    {
        self.status == FriendshipStatus::Friends
    }
}

/// A friend who is currently online, with their presence.
#[derive(Debug, Clone, PartialEq)]
pub struct OnlineFriend {
    pub presence: UserPresence,
    pub user: PartialUser,
}

/// A pending friend request and the profile that sent it.
#[derive(Default, Debug, Clone, PartialEq)]
pub struct FriendRequest {
    pub user: User,
    pub friend_request: FriendRequestInfo,
    pub mutual_friends_list: Vec<String>,
}

/// The metadata of one pending friend request.
#[derive(Default, Debug, Clone, PartialEq)]
pub struct FriendRequestInfo {
    pub sent_at: String,
    pub sender_id: u64,
    pub source_universe_id: Option<u64>,
    pub origin_source_type: String,
    pub contact_name: Option<String>,
}

} // verus!
