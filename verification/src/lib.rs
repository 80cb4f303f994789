//! A verified client core for a JSON-over-HTTPS API family.
//!
//! The crate models the authenticated session lifecycle, the single-use
//! request builder, the dispatch/decode pipeline and the uniform error
//! type. Network transport is left to the embedding application: the
//! library builds the request to be sent and decides what every possible
//! transport outcome means.

pub mod account_information;
pub mod account_settings;
pub mod avatar;
pub mod badges;
pub mod catalog;
pub mod chat;
pub mod dispatch;
pub mod errors;
pub mod friends;
pub mod http;
pub mod json;
pub mod limit;
pub mod presence;
pub mod request;
pub mod routes;
pub mod session;
pub mod text;
pub mod users;
pub mod web;

pub use account_information::{Gender, SocialsVisibility};
pub use account_settings::{Privacy, PrivacySetting, TradeValue};
pub use avatar::{AvatarItemFilter, AvatarItemType, BodyType, OutfitInfo, OutfitType};
pub use errors::{default_error_code, RoboltError, RoboltErrorKind};
pub use friends::FriendshipStatus;
pub use limit::Limit;
pub use presence::UserPresenceType;
pub use session::{login, logout, Authenticated, Robolt, Unauthenticated};
