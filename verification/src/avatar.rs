//! Avatar and outfit shapes returned by the avatar sub-API.

use vstd::prelude::*;

verus! {

/// The kind of an outfit.
#[derive(Debug, Clone, PartialEq)]
pub enum OutfitType {
    Invalid,
    Avatar,
    DynamicHead,
}

/// One page of a filtered outfit listing.
#[derive(Default, Debug, Clone, PartialEq)]
pub struct FilteredOutfitResponse {
    pub filtered_count: u32,
    pub data: Vec<OutfitInfo>,
    pub total: u64,
}

/// Which category of avatar items a listing is filtered to.
#[derive(Default, Debug, Clone, PartialEq)]
pub enum AvatarItemFilter {
    #[default]
    All,
    Clothing,
    Body,
    Animations,
    Accessories,
    Outfits,
    Gears,
}

/// Whether an avatar item is an asset or an outfit.
#[derive(Debug, Clone, PartialEq)]
pub enum AvatarItemType {
    Asset,
    Outfit,
}

/// The identifying subset of an outfit.
#[derive(Default, Debug, Clone, PartialEq)]
pub struct OutfitInfo {
    pub id: u64,
    pub name: String,
    pub is_editable: bool,
}

/// An emote equipped on an avatar.
#[derive(Default, Debug, Clone, PartialEq)]
pub struct AvatarEmotes {
    pub name: String,
    pub id: u64,
    pub position: u32,
}

/// An avatar item a user recently acquired or used.
#[derive(Debug, Clone, PartialEq)]
pub struct RecentAvatarItem {
    pub id: u64,
    pub name: String,
    pub item_type: AvatarItemType,
    pub asset_type: AvatarAssetInfo,
}

/// The asset type of an avatar asset.
#[derive(Default, Debug, Clone, PartialEq)]
pub struct AvatarAssetInfo {
    pub id: u64,
    pub name: String,
}

/// The rig an avatar is built on.
#[derive(Default, Debug, Clone, PartialEq)]
pub enum BodyType {
    #[default]
    R6,
    R15,
}

} // verus!
