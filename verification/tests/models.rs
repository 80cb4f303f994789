use robolt::badges::{
    badges_contain, badges_contain_all, badges_contain_any, roblox_badges_from_names, RobloxBadge,
};
use robolt::default_error_code;
use robolt::errors::RoboltError;
use robolt::friends::{FriendshipStatus, UserRelationship};
use robolt::http::{header_lookup, is_success};
use robolt::Limit;
use robolt::PrivacySetting;
use robolt::RoboltErrorKind;

#[test]
fn roblox_badge_names_parse() {
    let cases = vec![
        ("Welcome To The Club", RobloxBadge::WelcomeToTheClub),
        ("Administrator", RobloxBadge::Administrator),
        ("Veteran", RobloxBadge::Veteran),
        ("Friendship", RobloxBadge::Friendship),
        ("Ambassador", RobloxBadge::Ambassador),
        ("Inviter", RobloxBadge::Inviter),
        ("Homestead", RobloxBadge::Homestead),
        ("Bricksmith", RobloxBadge::Bricksmith),
        ("Official Model Maker", RobloxBadge::OfficialModelMaker),
        ("Combat Initiation", RobloxBadge::CombatInitiation),
        ("Warrior", RobloxBadge::Warrior),
        ("Bloxxer", RobloxBadge::Bloxxer),
    ];
    for (name, badge) in cases {
        assert_eq!(RobloxBadge::from_str(name), Ok(badge));
    }
}

#[test]
fn unknown_badge_name_is_reported() {
    let err = RobloxBadge::from_str("Dungeon Master").err().unwrap();
    assert_eq!(err, "Unknown badge: Dungeon Master");
}

#[test]
fn badge_lists_parse_or_fail_on_first_unknown() {
    let names = vec!["Veteran".to_string(), "Bloxxer".to_string()];
    assert_eq!(
        roblox_badges_from_names(&names),
        Ok(vec![RobloxBadge::Veteran, RobloxBadge::Bloxxer])
    );
    let names = vec!["Veteran".to_string(), "Nope".to_string(), "Also Nope".to_string()];
    assert_eq!(roblox_badges_from_names(&names), Err("Unknown badge: Nope".to_string()));
}

#[test]
fn badge_membership_helpers() {
    let owned = vec![RobloxBadge::Veteran, RobloxBadge::Warrior];
    assert!(badges_contain(&owned, RobloxBadge::Veteran));
    assert!(!badges_contain(&owned, RobloxBadge::Bloxxer));
    assert!(badges_contain_all(&owned, &vec![RobloxBadge::Warrior, RobloxBadge::Veteran]));
    assert!(!badges_contain_all(&owned, &vec![RobloxBadge::Warrior, RobloxBadge::Bloxxer]));
    assert!(badges_contain_any(&owned, &vec![RobloxBadge::Bloxxer, RobloxBadge::Warrior]));
    assert!(!badges_contain_any(&owned, &vec![RobloxBadge::Bloxxer]));
    assert!(!badges_contain_any(&owned, &vec![]));
    assert!(badges_contain_all(&owned, &vec![]));
}

#[test]
fn limit_values() {
    assert_eq!(Limit::Min.value(), 10);
    assert_eq!(Limit::Low.value(), 25);
    assert_eq!(Limit::High.value(), 50);
    assert_eq!(Limit::Max.value(), 100);
    assert_eq!(Limit::default(), Limit::Min);
}

#[test]
fn privacy_setting_path_segments() {
    assert_eq!(PrivacySetting::AppChat.path_segment(), "app-chat-privacy");
    assert_eq!(PrivacySetting::GameChat.path_segment(), "game-chat-privacy");
    assert_eq!(PrivacySetting::Trade.path_segment(), "trade-privacy");
    assert_eq!(PrivacySetting::Inventory.path_segment(), "inventory-privacy");
    assert_eq!(PrivacySetting::PrivateMessage.path_segment(), "private-message-privacy");
}

#[test]
fn friendship_status_check() {
    let rel = UserRelationship { id: 7, status: FriendshipStatus::Friends };
    assert!(rel.is_friend());
    let rel = UserRelationship { id: 7, status: FriendshipStatus::RequestSent };
    assert!(!rel.is_friend());
}

#[test]
fn error_constructors() {
    assert_eq!(default_error_code(), -1);
    let e = RoboltError::from_message("boom".to_string());
    assert!(matches!(e.kind, RoboltErrorKind::Unknown));
    assert_eq!(e.code, -1);
    assert_eq!(e.message, "boom");
    let e = RoboltError::api("denied".to_string(), 9);
    assert!(matches!(e.kind, RoboltErrorKind::Api));
    assert_eq!(e.code, 9);
    assert_eq!(e.message, "denied");
}

#[test]
fn success_statuses_are_the_2xx_class() {
    assert!(!is_success(199));
    assert!(is_success(200));
    assert!(is_success(299));
    assert!(!is_success(300));
    assert!(!is_success(403));
}

#[test]
fn header_lookup_finds_first_match_case_insensitively() {
    let headers = vec![
        ("Content-Type".to_string(), "text/html".to_string()),
        ("X-CSRF-Token".to_string(), "first".to_string()),
        ("x-csrf-token".to_string(), "second".to_string()),
    ];
    assert_eq!(header_lookup(&headers, "x-csrf-token"), Some("first".to_string()));
    assert_eq!(header_lookup(&headers, "content-TYPE"), Some("text/html".to_string()));
    assert_eq!(header_lookup(&headers, "cookie"), None);
}
