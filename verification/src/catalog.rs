//! Catalog and bundle shapes returned by the catalog sub-API.

use vstd::prelude::*;

verus! {

/// An item reference a catalog search is made with.
#[derive(Debug, Clone, PartialEq)]
pub struct CatalogSearchItem {
    pub id: u64,
    pub item_type: ItemType,
}

/// One catalog search result.
#[derive(Debug, Clone, PartialEq)]
pub struct CatalogSearchResponse {
    pub id: u64,
    pub item_type: ItemType,
    pub asset_type: Option<AssetType>,
    pub bundle_type: Option<BundleType>,
    pub name: String,
    pub description: String,
    pub product_id: u64,
    pub genres: Option<Vec<CatalogItemGenre>>,
    pub bundled_items: Option<Vec<BundleItem>>,
    pub item_status: Vec<CatalogItemStatus>,
    pub item_restrictions: Vec<CatalogItemRestriction>,
    pub creator_has_verified_badge: bool,
    pub creator_type: CreatorType,
    pub creator_target_id: u64,
    pub creator_name: String,
    pub price: Option<u64>,
    pub premium_pricing: Option<PremiumPricing>,
    pub lowest_price: Option<u64>,
    pub price_status: Option<String>,
    pub units_available_for_consumption: Option<u64>,
    pub purchase_count: Option<u64>,
    pub favorite_count: u64,
    pub off_sale_deadline: Option<String>,
    pub collectible_item_id: Option<String>,
    pub total_quantity: Option<u64>,
    pub sale_location_type: SaleLocationType,
}

/// Who created a catalog item.
#[derive(Debug, Clone, PartialEq)]
pub enum CreatorType {
    Group,
    User,
}

/// The kind of an asset.
#[derive(Debug, Clone, PartialEq)]
pub enum AssetType {
    Image,
    TShirt,
    Audio,
    Mesh,
    Lua,
    HTML,
    Text,
    Hat,
    Place,
    Model,
    Shirt,
    Pants,
    Decal,
    Avatar,
    Head,
    Face,
    Gear,
    Badge,
    GroupEmblem,
    Animation,
    Arms,
    Legs,
    Torso,
    RightArm,
    LeftArm,
    LeftLeg,
    RightLeg,
    Package,
    YouTubeVideo,
    GamePass,
    App,
    Code,
    Plugin,
    SolidModel,
    MeshPart,
    HairAccessory,
    FaceAccessory,
    NeckAccessory,
    ShoulderAccessory,
    FrontAccessory,
    BackAccessory,
    WaistAccessory,
    ClimbAnimation,
    DeathAnimation,
    FallAnimation,
    IdleAnimation,
    JumpAnimation,
    RunAnimation,
    SwimAnimation,
    WalkAnimation,
    PoseAnimation,
    LocalizationTableManifest,
    LocalizationTableTranslation,
    EmoteAnimation,
    Video,
    TexturePack,
    TShirtAccessory,
    ShirtAccessory,
    PantsAccessory,
    JacketAccessory,
    SweaterAccessory,
    ShortsAccessory,
    LeftShoeAccessory,
    RightShoeAccessory,
    DressSkirtAccessory,
    FontFamily,
    FontFace,
    MeshHiddenSurfaceRemoval,
    EyebrowAccessory,
    EyelashAccessory,
    MoodAnimation,
    DynamicHead,
    CodeSnippet,
}

/// The genre a catalog item is tagged with.
#[derive(Default, Debug, Clone, PartialEq)]
pub enum CatalogItemGenre {
    #[default]
    All,
    Tutorial,
    Scary,
    TownAndCity,
    War,
    Funny,
    Fantasy,
    Adventure,
    SciFi,
    Pirate,
    FPS,
    RPG,
    Sports,
    Ninja,
    WildWest,
}

/// Where a catalog item is on sale.
#[derive(Debug, Clone, PartialEq)]
pub enum SaleLocationType {
    NotApplicable,
    ShopOnly,
    MyExperiencesOnly,
    ShopAndMyExperiences,
    ExperiencesById,
    ShopAndAllExperiences,
    ExperiencesDevApiOnly,
}

/// Sale status flags of a catalog item.
#[derive(Debug, Clone, PartialEq)]
pub enum CatalogItemStatus {
    New,
    Sale,
    SaleTimer,
}

/// A user's favorite mark on an asset.
#[derive(Default, Debug, Clone, PartialEq)]
pub struct AssetFavorite {
    pub user_id: u64,
    pub asset_id: u64,
    pub created: String,
}

/// One page of a user's favorite bundles.
#[derive(Default, Debug, Clone, PartialEq)]
pub struct FavoriteBundles {
    pub favorites: Vec<Bundle>,
    pub more_favorites: bool,
}

/// A user's favorite mark on a bundle.
#[derive(Default, Debug, Clone, PartialEq)]
pub struct BundleFavorite {
    pub user_id: u64,
    pub bundle_id: u64,
    pub created: String,
}

/// A bundle with its items and product details.
#[derive(Default, Debug, Clone, PartialEq)]
pub struct Bundle {
    pub id: u64,
    pub name: String,
    pub description: String,
    pub bundle_type: String,
    pub items: Vec<BundleItem>,
    pub creator: BundleCreator,
    pub product: BundleProduct,
    pub item_restrictions: Vec<CatalogItemRestriction>,
}

/// A bundle as listed among a user's owned bundles.
#[derive(Default, Debug, Clone, PartialEq)]
pub struct OwnedBundle {
    pub id: u64,
    pub name: String,
    pub bundle_type: String,
    pub creator: BundleCreator,
}

/// One item inside a bundle.
#[derive(Default, Debug, Clone, PartialEq)]
pub struct BundleItem {
    pub owned: Option<bool>,
    pub id: u64,
    pub name: String,
    pub item_type: String,
}

/// Who created a bundle.
#[derive(Default, Debug, Clone, PartialEq)]
pub struct BundleCreator {
    pub id: u64,
    pub name: String,
    pub creator_type: String,
    pub has_verified_badge: bool,
}

/// The product record a bundle is sold as.
#[derive(Default, Debug, Clone, PartialEq)]
pub struct BundleProduct {
    pub id: u64,
    pub product_type: String,
    pub is_public_domain: bool,
    pub is_for_sale: bool,
    pub price_in_robux: Option<u64>,
    pub is_free: bool,
    pub no_price_text: Option<String>,
    pub premium_pricing: Option<PremiumPricing>,
}

/// Discounted pricing offered to premium members.
#[derive(Default, Debug, Clone, PartialEq)]
pub struct PremiumPricing {
    pub premium_discount_percentage: u64,
    pub premium_price_in_robux: u64,
}

/// The kind of a bundle.
#[derive(Default, Debug, Clone, PartialEq)]
pub enum BundleType {
    #[default]
    BodyParts,
    AvatarAnimations,
    Shoes,
    DynamicHead,
}

/// Whether a catalog item is an asset or a bundle.
#[derive(Default, Debug, Clone, PartialEq)]
pub enum ItemType {
    #[default]
    Asset,
    Bundle,
}

/// Purchase restrictions on a catalog item.
#[derive(Debug, Clone, PartialEq)]
pub enum CatalogItemRestriction {
    ThirteenPlus,
    LimitedUnique,
    Limited,
    BuildersClub,
    TurboBuildersClub,
    OutrageousBuildersClub,
    Rthro,
    Live,
    Collectible,
}

/// The catalog subcategory a search is made in.
#[derive(Default, Debug, Clone, PartialEq)]
pub enum CatalogSubcategory {
    #[default]
    Featured,
    All,
    Collectibles,
    Clothing,
    BodyParts,
    Gear,
    Models,
    Plugins,
    Decals,
    Hats,
    Faces,
    Packages,
    Shirts,
    TShirts,
    Pants,
    Heads,
    Audio,
    RobloxCreated,
    Meshes,
    Accessories,
    HairAccessories,
    FaceAccessories,
    NeckAccessories,
    ShoulderAccessories,
    FrontAccessories,
    BackAccessories,
    WaistAccessories,
    AvatarAnimations,
    ClimbAnimations,
    FallAnimations,
    IdleAnimations,
    JumpAnimations,
    RunAnimations,
    SwimAnimations,
    WalkAnimations,
    AnimationPackage,
    BodyPartsBundles,
    AnimationBundles,
    EmoteAnimations,
    CommunityCreations,
    Video,
    Recommended,
    LayeredClothing,
    AllBundles,
    HeadAccessories,
    ClassicTShirts,
    ClassicShirts,
    ClassicPants,
    TShirtAccessories,
    ShirtAccessories,
    PantsAccessories,
    JacketAccessories,
    SweaterAccessories,
    ShortsAccessories,
    ShoesBundles,
    DressSkirtAccessories,
}

} // verus!
