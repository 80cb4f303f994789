//! Chat shapes: conversations, messages and chat settings.

use vstd::prelude::*;

verus! {

/// The unread messages of one conversation.
#[derive(Default, Debug, Clone, PartialEq)]
pub struct UnreadMessages {
    pub conversation_id: u64,
    pub messages: Vec<ChatMessage>,
}

/// The rollout state of one chat feature.
#[derive(Default, Debug, Clone, PartialEq)]
pub struct RolloutSettings {
    pub feature_name: String,
    pub is_rollout_enabled: bool,
}

/// The rollout states of the queried chat features.
#[derive(Default, Debug, Clone, PartialEq)]
pub struct RolloutFeatures {
    pub rollout_features: Vec<RolloutSettings>,
}

/// One chat message.
#[derive(Debug, Clone, PartialEq)]
pub struct ChatMessage {
    pub id: String,
    pub sender_type: ChatParticipantType,
    pub sent: String,
    pub read: bool,
    pub message_type: ChatMessageType,
    pub decorators: Vec<String>,
    pub sender_target_id: u64,
    pub content: String,
    pub link: Option<Link>,
    pub event_based: Option<EventBased>,
}

/// What a chat message carries.
#[derive(Debug, Clone, PartialEq)]
pub enum ChatMessageType {
    PlainText,
    Link,
    EventBased,
}

/// A link carried by a chat message.
#[derive(Debug, Clone, PartialEq)]
pub struct Link {
    pub link_type: String,
    pub game: GameLink,
}

/// A link to a game.
#[derive(Debug, Clone, PartialEq)]
pub struct GameLink {
    pub universe_id: u64,
}

/// An event carried by a chat message.
#[derive(Debug, Clone, PartialEq)]
pub struct EventBased {
    pub event_type: String,
    pub set_conversation_universe: SetConversationUniverseEventBased,
}

/// The kinds of chat-message events.
#[derive(Debug, Clone, PartialEq)]
pub enum ChatMessageEventType {
    SetConversationUniverse,
}

/// The event that binds a conversation to a universe.
#[derive(Debug, Clone, PartialEq)]
pub struct SetConversationUniverseEventBased {
    pub actor_user_id: u64,
    pub universe_id: u64,
}

/// One conversation and its participants.
#[derive(Debug, Clone, PartialEq)]
pub struct Conversation {
    pub id: u64,
    pub title: String,
    pub initiator: ChatParticipant,
    pub has_unread_messages: bool,
    pub participants: Vec<ChatParticipant>,
    pub conversation_type: ConversationType,
    pub conversation_title: ConversationTitle,
    pub last_updated: String,
    pub conversation_universe: Option<ConversationUniverse>,
}

/// One participant of a conversation.
#[derive(Debug, Clone, PartialEq)]
pub struct ChatParticipant {
    pub participant_type: ChatParticipantType,
    pub target_id: u64,
    pub name: String,
    pub display_name: String,
    pub has_verified_badge: bool,
}

/// The universe a conversation is bound to.
#[derive(Debug, Clone, PartialEq)]
pub struct ConversationUniverse {
    pub universe_id: String,
    pub root_place_id: String,
}

/// How a conversation's title is displayed.
#[derive(Debug, Clone, PartialEq)]
pub struct ConversationTitle {
    pub title_for_viewer: String,
    pub is_default_title: bool,
}

/// Whether a participant is a user or the system.
#[derive(Debug, Clone, PartialEq)]
pub enum ChatParticipantType {
    User,
    System,
}

/// The kind of a conversation.
#[derive(Debug, Clone, PartialEq)]
pub enum ConversationType {
    OneToOne,
    MultiUser,
    CloudEdit,
}

/// The chat settings of the authenticated account.
#[derive(Default, Debug, Clone, PartialEq)]
pub struct ChatSettings {
    pub is_enabled: bool,
    pub is_active_chat_user: bool,
    pub is_connect_tab_enabled: bool,
}

} // verus!
