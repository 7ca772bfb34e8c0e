//! Messages and their deletion.

use vstd::prelude::*;
use crate::json::{Json, JsonValue};
use crate::schema::{Schema, matching_all_at, matching_at, record_at, records_at};

verus! {

/// A message in the room.
///
/// Only the identifier, the room and the sender are always there: the producer
/// leaves the other attributes out of some kinds of message.
#[derive(Clone, Debug, PartialEq, Eq)]
pub struct ChatMessageEventData {
    pub id: String,
    pub chatroom_id: u32,
    pub content: Option<String>,
    /// The kind of message; `type` on the wire.
    pub message_type: Option<String>,
    pub created_at: Option<String>,
    pub sender: ChatMessageSender,
}

/// What a [`ChatMessageEventData`] holds.
pub struct ChatMessageEventDataView {
    pub id: Seq<char>,
    pub chatroom_id: u32,
    pub content: Option<Seq<char>>,
    pub message_type: Option<Seq<char>>,
    pub created_at: Option<Seq<char>>,
    pub sender: ChatMessageSenderView,
}

impl View for ChatMessageEventData {
    type V = ChatMessageEventDataView;

    open spec fn view(&self) -> ChatMessageEventDataView {
        ChatMessageEventDataView {
            id: self.id@,
            chatroom_id: self.chatroom_id,
            content: self.content.deep_view(),
            message_type: self.message_type.deep_view(),
            created_at: self.created_at.deep_view(),
            sender: self.sender@,
        }
    }
}

impl DeepView for ChatMessageEventData {
    type V = ChatMessageEventDataView;

    open spec fn deep_view(&self) -> ChatMessageEventDataView {
        self@
    }
}

impl Schema for ChatMessageEventData {
    open spec fn matching(json: JsonValue) -> Option<ChatMessageEventDataView> {
        match (
            json.text_at("id"@),
            json.u32_at("chatroom_id"@),
            json.optional_text_at("content"@),
            json.optional_text_at("type"@),
            json.optional_text_at("created_at"@),
            matching_at::<ChatMessageSender>(json, "sender"@),
        ) {
            (
                Some(id),
                Some(chatroom_id),
                Some(content),
                Some(message_type),
                Some(created_at),
                Some(sender),
            ) => Some(
                ChatMessageEventDataView {
                    id,
                    chatroom_id,
                    content,
                    message_type,
                    created_at,
                    sender,
                },
            ),
            _ => None,
        }
    }

    fn from_json(json: &Json) -> (r: Option<ChatMessageEventData>) {
        let id = json.text_at("id")?;
        let chatroom_id = json.u32_at("chatroom_id")?;
        let content = json.optional_text_at("content")?;
        let message_type = json.optional_text_at("type")?;
        let created_at = json.optional_text_at("created_at")?;
        let sender = record_at::<ChatMessageSender>(json, "sender")?;
        Some(
            ChatMessageEventData {
                id,
                chatroom_id,
                content,
                message_type,
                created_at,
                sender,
            },
        )
    }
}

/// Who sent a message.
#[derive(Clone, Debug, PartialEq, Eq)]
pub struct ChatMessageSender {
    pub id: u32,
    pub username: String,
    pub slug: String,
    pub identity: ChatMessageSenderIdentity,
}

/// What a [`ChatMessageSender`] holds.
pub struct ChatMessageSenderView {
    pub id: u32,
    pub username: Seq<char>,
    pub slug: Seq<char>,
    pub identity: ChatMessageSenderIdentityView,
}

impl View for ChatMessageSender {
    type V = ChatMessageSenderView;

    open spec fn view(&self) -> ChatMessageSenderView {
        ChatMessageSenderView {
            id: self.id,
            username: self.username@,
            slug: self.slug@,
            identity: self.identity@,
        }
    }
}

impl DeepView for ChatMessageSender {
    type V = ChatMessageSenderView;

    open spec fn deep_view(&self) -> ChatMessageSenderView {
        self@
    }
}

impl Schema for ChatMessageSender {
    open spec fn matching(json: JsonValue) -> Option<ChatMessageSenderView> {
        match (
            json.u32_at("id"@),
            json.text_at("username"@),
            json.text_at("slug"@),
            matching_at::<ChatMessageSenderIdentity>(json, "identity"@),
        ) {
            (
                Some(id),
                Some(username),
                Some(slug),
                Some(identity),
            ) => Some(
                ChatMessageSenderView {
                    id,
                    username,
                    slug,
                    identity,
                },
            ),
            _ => None,
        }
    }

    fn from_json(json: &Json) -> (r: Option<ChatMessageSender>) {
        let id = json.u32_at("id")?;
        let username = json.text_at("username")?;
        let slug = json.text_at("slug")?;
        let identity = record_at::<ChatMessageSenderIdentity>(json, "identity")?;
        Some(ChatMessageSender { id, username, slug, identity })
    }
}

/// How a sender is shown in the room.
#[derive(Clone, Debug, PartialEq, Eq)]
pub struct ChatMessageSenderIdentity {
    /// The colour of the name.
    pub color: Option<String>,
    /// The badges, in the order in which they are shown.
    pub badges: Vec<ChatMessageSenderBadge>,
}

/// What a [`ChatMessageSenderIdentity`] holds.
pub struct ChatMessageSenderIdentityView {
    pub color: Option<Seq<char>>,
    pub badges: Seq<ChatMessageSenderBadgeView>,
}

impl View for ChatMessageSenderIdentity {
    type V = ChatMessageSenderIdentityView;

    open spec fn view(&self) -> ChatMessageSenderIdentityView {
        ChatMessageSenderIdentityView {
            color: self.color.deep_view(),
            badges: self.badges.deep_view(),
        }
    }
}

impl DeepView for ChatMessageSenderIdentity {
    type V = ChatMessageSenderIdentityView;

    open spec fn deep_view(&self) -> ChatMessageSenderIdentityView {
        self@
    }
}

impl Schema for ChatMessageSenderIdentity {
    open spec fn matching(json: JsonValue) -> Option<ChatMessageSenderIdentityView> {
        match (
            json.optional_text_at("color"@),
            matching_all_at::<ChatMessageSenderBadge>(json, "badges"@),
        ) {
            (
                Some(color),
                Some(badges),
            ) => Some(
                ChatMessageSenderIdentityView {
                    color,
                    badges,
                },
            ),
            _ => None,
        }
    }

    fn from_json(json: &Json) -> (r: Option<ChatMessageSenderIdentity>) {
        let color = json.optional_text_at("color")?;
        let badges = records_at::<ChatMessageSenderBadge>(json, "badges")?;
        Some(ChatMessageSenderIdentity { color, badges })
    }
}

/// A badge beside a sender's name.
///
/// The wire has one object for both kinds and no tag to tell them apart: a
/// badge whose object carries a `count` is a full badge, one without is a
/// simple badge.
#[derive(Clone, Debug, PartialEq, Eq)]
pub enum ChatMessageSenderBadge {
    FullBadge { kind: String, label: String, count: u32 },
    SimpleBadge { kind: String, label: String },
}

/// What a [`ChatMessageSenderBadge`] holds.
pub enum ChatMessageSenderBadgeView {
    FullBadge { kind: Seq<char>, label: Seq<char>, count: u32 },
    SimpleBadge { kind: Seq<char>, label: Seq<char> },
}

impl View for ChatMessageSenderBadge {
    type V = ChatMessageSenderBadgeView;

    open spec fn view(&self) -> ChatMessageSenderBadgeView {
        match self {
            ChatMessageSenderBadge::FullBadge { kind, label, count } => ChatMessageSenderBadgeView::FullBadge {
                kind: kind@,
                label: label@,
                count: *count,
            },
            ChatMessageSenderBadge::SimpleBadge { kind, label } => ChatMessageSenderBadgeView::SimpleBadge {
                kind: kind@,
                label: label@,
            },
        }
    }
}

impl DeepView for ChatMessageSenderBadge {
    type V = ChatMessageSenderBadgeView;

    open spec fn deep_view(&self) -> ChatMessageSenderBadgeView {
        self@
    }
}

impl Schema for ChatMessageSenderBadge {
    /// The kind of the badge is on the wire as `type`, its label as `text`.
    /// Whether the object has a `count` decides between the two kinds; a
    /// `count` that is `null` counts as left out, as with every optional
    /// member, and one that is no 32-bit count describes no badge at all.
    open spec fn matching(json: JsonValue) -> Option<ChatMessageSenderBadgeView> {
        match (json.text_at("type"@), json.text_at("text"@), json.optional_u32_at("count"@)) {
            (Some(kind), Some(label), Some(Some(count))) => Some(
                ChatMessageSenderBadgeView::FullBadge { kind, label, count },
            ),
            (Some(kind), Some(label), Some(None)) => Some(
                ChatMessageSenderBadgeView::SimpleBadge { kind, label },
            ),
            _ => None,
        }
    }

    fn from_json(json: &Json) -> (r: Option<ChatMessageSenderBadge>) {
        let kind = json.text_at("type")?;
        let label = json.text_at("text")?;
        match json.optional_u32_at("count")? {
            Some(count) => Some(ChatMessageSenderBadge::FullBadge { kind, label, count }),
            None => Some(ChatMessageSenderBadge::SimpleBadge { kind, label }),
        }
    }
}

/// A message was deleted.
#[derive(Clone, Debug, PartialEq, Eq)]
pub struct DeletedMessageEventData {
    pub id: String,
    pub message: DeletedMessage,
    /// Whether automatic moderation deleted it.
    pub ai_moderated: bool,
}

/// What a [`DeletedMessageEventData`] holds.
pub struct DeletedMessageEventDataView {
    pub id: Seq<char>,
    pub message: DeletedMessageView,
    pub ai_moderated: bool,
}

impl View for DeletedMessageEventData {
    type V = DeletedMessageEventDataView;

    open spec fn view(&self) -> DeletedMessageEventDataView {
        DeletedMessageEventDataView {
            id: self.id@,
            message: self.message@,
            ai_moderated: self.ai_moderated,
        }
    }
}

impl DeepView for DeletedMessageEventData {
    type V = DeletedMessageEventDataView;

    open spec fn deep_view(&self) -> DeletedMessageEventDataView {
        self@
    }
}

impl Schema for DeletedMessageEventData {
    open spec fn matching(json: JsonValue) -> Option<DeletedMessageEventDataView> {
        match (
            json.text_at("id"@),
            matching_at::<DeletedMessage>(json, "message"@),
            json.bool_at("ai_moderated"@),
        ) {
            (
                Some(id),
                Some(message),
                Some(ai_moderated),
            ) => Some(
                DeletedMessageEventDataView {
                    id,
                    message,
                    ai_moderated,
                },
            ),
            _ => None,
        }
    }

    fn from_json(json: &Json) -> (r: Option<DeletedMessageEventData>) {
        let id = json.text_at("id")?;
        let message = record_at::<DeletedMessage>(json, "message")?;
        let ai_moderated = json.bool_at("ai_moderated")?;
        Some(DeletedMessageEventData { id, message, ai_moderated })
    }
}

/// The message that a deletion names.
#[derive(Clone, Debug, PartialEq, Eq)]
pub struct DeletedMessage {
    pub id: String,
}

/// What a [`DeletedMessage`] holds.
pub struct DeletedMessageView {
    pub id: Seq<char>,
}

impl View for DeletedMessage {
    type V = DeletedMessageView;

    open spec fn view(&self) -> DeletedMessageView {
        DeletedMessageView {
            id: self.id@,
        }
    }
}

impl DeepView for DeletedMessage {
    type V = DeletedMessageView;

    open spec fn deep_view(&self) -> DeletedMessageView {
        self@
    }
}

impl Schema for DeletedMessage {
    open spec fn matching(json: JsonValue) -> Option<DeletedMessageView> {
        match json.text_at("id"@) {
            Some(id) => Some(DeletedMessageView { id }),
            None => None,
        }
    }

    fn from_json(json: &Json) -> (r: Option<DeletedMessage>) {
        let id = json.text_at("id")?;
        Some(DeletedMessage { id })
    }
}

} // verus!
