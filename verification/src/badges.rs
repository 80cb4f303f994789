//! Badge shapes, and the named platform badges with their name parser.

use vstd::prelude::*;

use crate::text::str_eq;

verus! {

/// When a badge was awarded to a user.
#[derive(Default, Debug, Clone, PartialEq)]
pub struct AwardedBadgeTimestamp {
    pub badge_id: u64,
    pub awarded_date: String,
}

/// The universe (game) a badge belongs to.
#[derive(Default, Debug, Clone, PartialEq)]
pub struct AwardingUniverse {
    pub id: u64,
    pub name: String,
    pub root_place_id: u64,
}

/// The fields of a badge a creator may update.
#[derive(Debug, Clone, PartialEq)]
pub struct BadgeConfig {
    pub name: Option<&'static str>,
    pub description: Option<&'static str>,
    pub enabled: bool,
    pub return_updated_badge: bool,
}

/// The badges the platform itself awards, by name.
#[derive(Debug, Clone, Copy, PartialEq, Eq, Structural)]
pub enum RobloxBadge {
    WelcomeToTheClub,
    Administrator,
    Veteran,
    Friendship,
    Ambassador,
    Inviter,
    Homestead,
    Bricksmith,
    OfficialModelMaker,
    CombatInitiation,
    Warrior,
    Bloxxer,
}

impl RobloxBadge {
    /// The platform badge a display name stands for, if any.
    pub open spec fn spec_from_name(s: Seq<char>) -> Option<RobloxBadge> {
        if s == "Welcome To The Club"@ {
            Some(RobloxBadge::WelcomeToTheClub)
        } else if s == "Administrator"@ {
            Some(RobloxBadge::Administrator)
        } else if s == "Veteran"@ {
            Some(RobloxBadge::Veteran)
        } else if s == "Friendship"@ {
            Some(RobloxBadge::Friendship)
        } else if s == "Ambassador"@ {
            Some(RobloxBadge::Ambassador)
        } else if s == "Inviter"@ {
            Some(RobloxBadge::Inviter)
        } else if s == "Homestead"@ {
            Some(RobloxBadge::Homestead)
        } else if s == "Bricksmith"@ {
            Some(RobloxBadge::Bricksmith)
        } else if s == "Official Model Maker"@ {
            Some(RobloxBadge::OfficialModelMaker)
        } else if s == "Combat Initiation"@ {
            Some(RobloxBadge::CombatInitiation)
        } else if s == "Warrior"@ {
            Some(RobloxBadge::Warrior)
        } else if s == "Bloxxer"@ {
            Some(RobloxBadge::Bloxxer)
        } else {
            None
        }
    }

    /// Parses a badge display name; unknown names are reported in the
    /// error text.
    pub fn from_str(s: &str) -> (r: Result<RobloxBadge, String>)
        ensures
            match RobloxBadge::spec_from_name(s@) {
                Some(b) => r matches Ok(parsed) && parsed == b,
                None => r matches Err(m) && m@ == "Unknown badge: "@ + s@,
            },
    {
        if str_eq(s, "Welcome To The Club") {
            Ok(RobloxBadge::WelcomeToTheClub)
        } else if str_eq(s, "Administrator") {
            Ok(RobloxBadge::Administrator)
        } else if str_eq(s, "Veteran") {
            Ok(RobloxBadge::Veteran)
        } else if str_eq(s, "Friendship") {
            Ok(RobloxBadge::Friendship)
        } else if str_eq(s, "Ambassador") {
            Ok(RobloxBadge::Ambassador)
        } else if str_eq(s, "Inviter") {
            Ok(RobloxBadge::Inviter)
        } else if str_eq(s, "Homestead") {
            Ok(RobloxBadge::Homestead)
        } else if str_eq(s, "Bricksmith") {
            Ok(RobloxBadge::Bricksmith)
        } else if str_eq(s, "Official Model Maker") {
            Ok(RobloxBadge::OfficialModelMaker)
        } else if str_eq(s, "Combat Initiation") {
            Ok(RobloxBadge::CombatInitiation)
        } else if str_eq(s, "Warrior") {
            Ok(RobloxBadge::Warrior)
        } else if str_eq(s, "Bloxxer") {
            Ok(RobloxBadge::Bloxxer)
        } else {
            Err(String::from_str("Unknown badge: ").concat(s))
        }
    }
}

/// Every display name in `names`, parsed as a platform badge; the first
/// unknown name fails the whole list with its parse error.
pub fn roblox_badges_from_names(names: &Vec<String>) -> (r: Result<Vec<RobloxBadge>, String>)
    ensures
        (forall|k: int| 0 <= k < names@.len() ==> RobloxBadge::spec_from_name(names@[k]@) is Some)
            <==> r is Ok,
        r matches Ok(badges) ==> badges@.len() == names@.len() && (forall|k: int|
            0 <= k < names@.len() ==> Some(badges@[k]) == RobloxBadge::spec_from_name(names@[k]@)),
        r matches Err(m) ==> exists|k: int|
            0 <= k < names@.len() && #[trigger] RobloxBadge::spec_from_name(names@[k]@) is None
                && (forall|j: int| 0 <= j < k ==> RobloxBadge::spec_from_name(names@[j]@) is Some)
                && m@ == "Unknown badge: "@ + names@[k]@,
{
    let mut badges: Vec<RobloxBadge> = Vec::new();
    let n = names.len();
    let mut i: usize = 0;
    while i < n
        invariant
            i <= n,
            n == names@.len(),
            badges@.len() == i,
            forall|k: int| 0 <= k < i ==> RobloxBadge::spec_from_name(names@[k]@) is Some,
            forall|k: int| 0 <= k < i ==> Some(badges@[k]) == RobloxBadge::spec_from_name(
                names@[k]@,
            ),
        decreases n - i,
    {
        match RobloxBadge::from_str(names[i].as_str()) {
            Ok(b) => badges.push(b),
            Err(m) => {
                proof {
                    assert(RobloxBadge::spec_from_name(names@[i as int]@) is None);
                }
                return Err(m);
            },
        }
        i = i + 1;
    }
    Ok(badges)
}

/// Whether `owned` contains `badge`.
pub fn badges_contain(owned: &Vec<RobloxBadge>, badge: RobloxBadge) -> (r: bool)
    ensures
        r == owned@.contains(badge),
{
    let n = owned.len();
    let mut i: usize = 0;
    while i < n
        invariant
            i <= n,
            n == owned@.len(),
            forall|k: int| 0 <= k < i ==> owned@[k] != badge,
        decreases n - i,
    {
        if owned[i] == badge {
            return true;
        }
        i = i + 1;
    }
    false
}

/// Whether every badge in `wanted` is in `owned`.
pub fn badges_contain_all(owned: &Vec<RobloxBadge>, wanted: &Vec<RobloxBadge>) -> (r: bool)
    ensures
        r == (forall|k: int| 0 <= k < wanted@.len() ==> owned@.contains(wanted@[k])),
{
    let n = wanted.len();
    let mut i: usize = 0;
    while i < n
        invariant
            i <= n,
            n == wanted@.len(),
            forall|k: int| 0 <= k < i ==> owned@.contains(wanted@[k]),
        decreases n - i,
    {
        if !badges_contain(owned, wanted[i]) {
            return false;
        }
        i = i + 1;
    }
    true
}

/// Whether at least one badge in `wanted` is in `owned`.
pub fn badges_contain_any(owned: &Vec<RobloxBadge>, wanted: &Vec<RobloxBadge>) -> (r: bool)
    ensures
        r == (exists|k: int| 0 <= k < wanted@.len() && owned@.contains(wanted@[k])),
{
    let n = wanted.len();
    let mut i: usize = 0;
    while i < n
        invariant
            i <= n,
            n == wanted@.len(),
            forall|k: int| 0 <= k < i ==> !owned@.contains(wanted@[k]),
        decreases n - i,
    {
        if badges_contain(owned, wanted[i]) {
            return true;
        }
        i = i + 1;
    }
    false
}

} // verus!
