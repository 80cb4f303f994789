//! Account-information shapes: badges, socials, birthdate, phone.

use vstd::prelude::*;

verus! {

/// The gender recorded on an account.
#[derive(Debug, Clone, PartialEq)]
pub enum Gender {
    Unknown,
    Male,
    Female,
}

/// The phone number recorded on an account.
#[derive(Default, Debug, Clone, PartialEq)]
pub struct PhoneNumber {
    pub country_code: String,
    pub prefix: String,
    pub phone: String,
    pub is_verified: bool,
    pub verification_code_length: u8,
    pub can_bypass_password_for_phone_update: bool,
}

/// One of the badges the platform itself awards.
#[derive(Default, Debug, Clone, PartialEq)]
pub struct RobloxBadge {
    pub id: u8,
    pub name: String,
    pub description: String,
    pub image_url: String,
}

/// The social-media links published on a profile.
#[derive(Default, Debug, Clone, PartialEq)]
pub struct UserSocials {
    pub facebook: Option<String>,
    pub twitter: Option<String>,
    pub youtube: Option<String>,
    pub twitch: Option<String>,
    pub guilded: Option<String>,
}

/// Who may see the published social-media links.
#[derive(Debug, Clone, PartialEq)]
pub enum SocialsVisibility {
    AllUsers,
    FriendsFollowingAndFollowers,
    FriendsAndFollowing,
    Friends,
    NoOne,
}

/// The social-media links of the authenticated account, with their
/// visibility setting.
#[derive(Debug, Clone, PartialEq)]
pub struct AuthenticatedUserSocials {
    pub visibility: SocialsVisibility,
    pub connections: UserSocials,
}

/// The birthdate recorded on an account.
#[derive(Default, Debug, Clone, PartialEq)]
pub struct Birthdate {
    pub year: u16,
    pub month: u8,
    pub day: u8,
}

} // verus!
