//! The table of per-sub-API domains the remote service is spread over.

use vstd::prelude::*;

verus! {

/// One sub-API of the remote service. Each variant names the fixed
/// domain that hosts it; `Custom` lets a caller target any other host.
#[derive(Debug, Clone, Copy)]
pub enum RobloxApi {
    Presence,
    Users,
    AccountInformation,
    AccountSettings,
    Economy,
    Friends,
    Points,
    Badges,
    Avatar,
    PremiumFeatures,
    Auth,
    Custom(&'static str),
}

impl RobloxApi {
    /// The domain that hosts this sub-API.
    pub open spec fn spec_url(self) -> Seq<char> {
        match self {
            RobloxApi::Presence => "presence.roblox.com"@,
            RobloxApi::Users => "users.roblox.com"@,
            RobloxApi::AccountInformation => "accountinformation.roblox.com"@,
            RobloxApi::AccountSettings => "accountsettings.roblox.com"@,
            RobloxApi::Economy => "economy.roblox.com"@,
            RobloxApi::Friends => "friends.roblox.com"@,
            RobloxApi::Points => "points.roblox.com"@,
            RobloxApi::Badges => "badges.roblox.com"@,
            RobloxApi::Avatar => "avatar.roblox.com"@,
            RobloxApi::PremiumFeatures => "premiumfeatures.roblox.com"@,
            RobloxApi::Auth => "auth.roblox.com"@,
            RobloxApi::Custom(s) => s@,
        }
    }

    pub fn url(&self) -> (r: &str)
        ensures
            r@ == self.spec_url(),
    {
        match self {
            RobloxApi::Presence => "presence.roblox.com",
            RobloxApi::Users => "users.roblox.com",
            RobloxApi::AccountInformation => "accountinformation.roblox.com",
            RobloxApi::AccountSettings => "accountsettings.roblox.com",
            RobloxApi::Economy => "economy.roblox.com",
            RobloxApi::Friends => "friends.roblox.com",
            RobloxApi::Points => "points.roblox.com",
            RobloxApi::Badges => "badges.roblox.com",
            RobloxApi::Avatar => "avatar.roblox.com",
            RobloxApi::PremiumFeatures => "premiumfeatures.roblox.com",
            RobloxApi::Auth => "auth.roblox.com",
            RobloxApi::Custom(s) => s,
        }
    }
}

} // verus!
