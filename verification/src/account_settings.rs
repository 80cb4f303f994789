//! Account-settings shapes: privacy, email, trade value, blocked users.

use vstd::prelude::*;

use crate::users::PartialUser;

verus! {

/// Which privacy setting a query is about.
#[derive(Debug, Clone, PartialEq)]
pub enum PrivacySetting {
    AppChat,
    GameChat,
    Trade,
    Inventory,
    PrivateMessage,
}

impl PrivacySetting {
    /// The path segment the settings sub-API uses for this setting.
    pub open spec fn spec_path_segment(self) -> Seq<char> {
        match self {
            PrivacySetting::AppChat => "app-chat-privacy"@,
            PrivacySetting::GameChat => "game-chat-privacy"@,
            PrivacySetting::Trade => "trade-privacy"@,
            PrivacySetting::Inventory => "inventory-privacy"@,
            PrivacySetting::PrivateMessage => "private-message-privacy"@,
        }
    }

    pub fn path_segment(&self) -> (r: &'static str)
        ensures
            r@ == self.spec_path_segment(),
    {
        match self {
            PrivacySetting::AppChat => "app-chat-privacy",
            PrivacySetting::GameChat => "game-chat-privacy",
            PrivacySetting::Trade => "trade-privacy",
            PrivacySetting::Inventory => "inventory-privacy",
            PrivacySetting::PrivateMessage => "private-message-privacy",
        }
    }
}

/// The value a privacy setting can take.
#[derive(Debug, Clone, PartialEq)]
pub enum PrivacyState {
    Everyone,
    AllAuthenticatedUsers,
    FriendsFollowingAndFollowers,
    FriendsAndFollowing,
    Followers,
    Following,
    TopFriends,
    Friends,
    NoOne,
    Disabled,
    Undefined,
}

/// The value a privacy setting can take (earlier shape of the same set).
#[derive(Debug, Clone, PartialEq)]
pub enum Privacy {
    AllUsers,
    AllAuthenticatedUsers,
    FriendsFollowingAndFollowers,
    FriendsAndFollowing,
    TopFriends,
    Friends,
    NoOne,
    Disabled,
    Undefined,
}

/// How much an account's trade value is rated.
#[derive(Debug, Clone, PartialEq)]
pub enum TradeValue {
    High,
    Medium,
    Low,
    NotSet,
    Undefined,
}

/// The e-mail address recorded on an account.
#[derive(Default, Debug, Clone, PartialEq)]
pub struct Email {
    pub email_address: String,
    pub verified: bool,
    pub can_bypass_password_for_email_update: bool,
}

/// The users an account has blocked.
#[derive(Default, Debug, Clone, PartialEq)]
pub struct BlockedUsers {
    pub blocked_users: Vec<PartialUser>,
    pub max_blocked_users: u8,
    pub total: u8,
}

} // verus!
