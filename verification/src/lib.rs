//! Decoding of chatroom event frames.
//!
//! A frame is a JSON envelope whose `data` member is itself JSON text. The
//! crate turns one frame into one [`MessageData`] value and never fails on a
//! malformed or unknown frame: [`classify`] has an answer for every text.
//!
//! - [`json`] holds the JSON document that the decoders read, and [`parse`]
//!   gets one from a text;
//! - [`schema`] and [`events`] hold the payload shapes, one record type for
//!   each, with the rule that says which documents describe such a record;
//! - [`registry`] names the shapes, knows their discriminators and probes them
//!   in a fixed order;
//! - [`decoder`] reads the envelope and classifies the frame;
//! - [`laws`] states what holds of all this on every input.

pub mod decoder;
pub mod events;
pub mod json;
pub mod laws;
pub mod parse;
pub mod registry;
pub mod schema;

pub use decoder::{
    classify, classify_envelope, classify_payload, decode_frame, ChatMessage, KickChatMessage,
};
pub use events::chat_events::{
    ChatMessageEventData, ChatMessageSender, ChatMessageSenderBadge, ChatMessageSenderIdentity,
    DeletedMessage, DeletedMessageEventData,
};
pub use events::moderation_events::{User, UserBannedEventData, UserUnbannedEventData};
pub use events::poll_events::{Poll, PollDeleteEventData, PollOption, PollUpdateEventData};
pub use events::pusher_events::{
    PusherConnectionEstablishedEventData, PusherPongEventData,
    PusherSubscriptionSucceededEventData,
};
pub use events::room_events::{
    AdvancedBotProtection, ChatroomClearEventData, ChatroomUpdatedEventData, EmotesMode,
    FollowersMode, SlowMode, SubscribersMode,
};
pub use json::{Json, JsonNumber};
pub use parse::parse_json;
pub use registry::{probe, try_match, MessageData, Shape};
pub use schema::Schema;
