//! Changes to a room as a whole.

use vstd::prelude::*;
use crate::json::{Json, JsonValue};
use crate::schema::{Schema, matching_at, record_at};

verus! {

/// The settings of the room after a change. The payload is the whole set of
/// settings, never only what changed.
#[derive(Clone, Copy, Debug, PartialEq, Eq)]
pub struct ChatroomUpdatedEventData {
    pub id: u32,
    pub slow_mode: SlowMode,
    pub subscribers_mode: SubscribersMode,
    pub followers_mode: FollowersMode,
    pub emotes_mode: EmotesMode,
    pub advanced_bot_protection: AdvancedBotProtection,
}

impl View for ChatroomUpdatedEventData {
    type V = ChatroomUpdatedEventData;

    open spec fn view(&self) -> ChatroomUpdatedEventData {
        *self
    }
}

impl DeepView for ChatroomUpdatedEventData {
    type V = ChatroomUpdatedEventData;

    open spec fn deep_view(&self) -> ChatroomUpdatedEventData {
        self@
    }
}

impl Schema for ChatroomUpdatedEventData {
    open spec fn matching(json: JsonValue) -> Option<ChatroomUpdatedEventData> {
        match (
            json.u32_at("id"@),
            matching_at::<SlowMode>(json, "slow_mode"@),
            matching_at::<SubscribersMode>(json, "subscribers_mode"@),
            matching_at::<FollowersMode>(json, "followers_mode"@),
            matching_at::<EmotesMode>(json, "emotes_mode"@),
            matching_at::<AdvancedBotProtection>(json, "advanced_bot_protection"@),
        ) {
            (
                Some(id),
                Some(slow_mode),
                Some(subscribers_mode),
                Some(followers_mode),
                Some(emotes_mode),
                Some(advanced_bot_protection),
            ) => Some(
                ChatroomUpdatedEventData {
                    id,
                    slow_mode,
                    subscribers_mode,
                    followers_mode,
                    emotes_mode,
                    advanced_bot_protection,
                },
            ),
            _ => None,
        }
    }

    fn from_json(json: &Json) -> (r: Option<ChatroomUpdatedEventData>) {
        let id = json.u32_at("id")?;
        let slow_mode = record_at::<SlowMode>(json, "slow_mode")?;
        let subscribers_mode = record_at::<SubscribersMode>(json, "subscribers_mode")?;
        let followers_mode = record_at::<FollowersMode>(json, "followers_mode")?;
        let emotes_mode = record_at::<EmotesMode>(json, "emotes_mode")?;
        let advanced_bot_protection = record_at::<AdvancedBotProtection>(json, "advanced_bot_protection")?;
        Some(
            ChatroomUpdatedEventData {
                id,
                slow_mode,
                subscribers_mode,
                followers_mode,
                emotes_mode,
                advanced_bot_protection,
            },
        )
    }
}

/// Slow mode: a pause that each user keeps between two messages.
#[derive(Clone, Copy, Debug, PartialEq, Eq)]
pub struct SlowMode {
    pub enabled: bool,
    /// The pause, in seconds.
    pub message_interval: u64,
}

impl View for SlowMode {
    type V = SlowMode;

    open spec fn view(&self) -> SlowMode {
        *self
    }
}

impl DeepView for SlowMode {
    type V = SlowMode;

    open spec fn deep_view(&self) -> SlowMode {
        self@
    }
}

impl Schema for SlowMode {
    open spec fn matching(json: JsonValue) -> Option<SlowMode> {
        match (
            json.bool_at("enabled"@),
            json.u64_at("message_interval"@),
        ) {
            (
                Some(enabled),
                Some(message_interval),
            ) => Some(
                SlowMode {
                    enabled,
                    message_interval,
                },
            ),
            _ => None,
        }
    }

    fn from_json(json: &Json) -> (r: Option<SlowMode>) {
        let enabled = json.bool_at("enabled")?;
        let message_interval = json.u64_at("message_interval")?;
        Some(SlowMode { enabled, message_interval })
    }
}

/// Subscribers-only mode.
#[derive(Clone, Copy, Debug, PartialEq, Eq)]
pub struct SubscribersMode {
    pub enabled: bool,
}

impl View for SubscribersMode {
    type V = SubscribersMode;

    open spec fn view(&self) -> SubscribersMode {
        *self
    }
}

impl DeepView for SubscribersMode {
    type V = SubscribersMode;

    open spec fn deep_view(&self) -> SubscribersMode {
        self@
    }
}

impl Schema for SubscribersMode {
    open spec fn matching(json: JsonValue) -> Option<SubscribersMode> {
        match json.bool_at("enabled"@) {
            Some(enabled) => Some(SubscribersMode { enabled }),
            None => None,
        }
    }

    fn from_json(json: &Json) -> (r: Option<SubscribersMode>) {
        let enabled = json.bool_at("enabled")?;
        Some(SubscribersMode { enabled })
    }
}

/// Followers-only mode.
#[derive(Clone, Copy, Debug, PartialEq, Eq)]
pub struct FollowersMode {
    pub enabled: bool,
    /// For how long a user must have followed, in minutes.
    pub min_duration: u64,
}

impl View for FollowersMode {
    type V = FollowersMode;

    open spec fn view(&self) -> FollowersMode {
        *self
    }
}

impl DeepView for FollowersMode {
    type V = FollowersMode;

    open spec fn deep_view(&self) -> FollowersMode {
        self@
    }
}

impl Schema for FollowersMode {
    open spec fn matching(json: JsonValue) -> Option<FollowersMode> {
        match (
            json.bool_at("enabled"@),
            json.u64_at("min_duration"@),
        ) {
            (
                Some(enabled),
                Some(min_duration),
            ) => Some(
                FollowersMode {
                    enabled,
                    min_duration,
                },
            ),
            _ => None,
        }
    }

    fn from_json(json: &Json) -> (r: Option<FollowersMode>) {
        let enabled = json.bool_at("enabled")?;
        let min_duration = json.u64_at("min_duration")?;
        Some(FollowersMode { enabled, min_duration })
    }
}

/// Emotes-only mode.
#[derive(Clone, Copy, Debug, PartialEq, Eq)]
pub struct EmotesMode {
    pub enabled: bool,
}

impl View for EmotesMode {
    type V = EmotesMode;

    open spec fn view(&self) -> EmotesMode {
        *self
    }
}

impl DeepView for EmotesMode {
    type V = EmotesMode;

    open spec fn deep_view(&self) -> EmotesMode {
        self@
    }
}

impl Schema for EmotesMode {
    open spec fn matching(json: JsonValue) -> Option<EmotesMode> {
        match json.bool_at("enabled"@) {
            Some(enabled) => Some(EmotesMode { enabled }),
            None => None,
        }
    }

    fn from_json(json: &Json) -> (r: Option<EmotesMode>) {
        let enabled = json.bool_at("enabled")?;
        Some(EmotesMode { enabled })
    }
}

/// Protection against bots.
#[derive(Clone, Copy, Debug, PartialEq, Eq)]
pub struct AdvancedBotProtection {
    pub enabled: bool,
    /// How long the protection stays on, in seconds.
    pub remaining_time: u64,
}

impl View for AdvancedBotProtection {
    type V = AdvancedBotProtection;

    open spec fn view(&self) -> AdvancedBotProtection {
        *self
    }
}

impl DeepView for AdvancedBotProtection {
    type V = AdvancedBotProtection;

    open spec fn deep_view(&self) -> AdvancedBotProtection {
        self@
    }
}

impl Schema for AdvancedBotProtection {
    open spec fn matching(json: JsonValue) -> Option<AdvancedBotProtection> {
        match (
            json.bool_at("enabled"@),
            json.u64_at("remaining_time"@),
        ) {
            (
                Some(enabled),
                Some(remaining_time),
            ) => Some(
                AdvancedBotProtection {
                    enabled,
                    remaining_time,
                },
            ),
            _ => None,
        }
    }

    fn from_json(json: &Json) -> (r: Option<AdvancedBotProtection>) {
        let enabled = json.bool_at("enabled")?;
        let remaining_time = json.u64_at("remaining_time")?;
        Some(AdvancedBotProtection { enabled, remaining_time })
    }
}

/// The room was cleared of its messages.
#[derive(Clone, Debug, PartialEq, Eq)]
pub struct ChatroomClearEventData {
    pub id: String,
}

/// What a [`ChatroomClearEventData`] holds.
pub struct ChatroomClearEventDataView {
    pub id: Seq<char>,
}

impl View for ChatroomClearEventData {
    type V = ChatroomClearEventDataView;

    open spec fn view(&self) -> ChatroomClearEventDataView {
        ChatroomClearEventDataView {
            id: self.id@,
        }
    }
}

impl DeepView for ChatroomClearEventData {
    type V = ChatroomClearEventDataView;

    open spec fn deep_view(&self) -> ChatroomClearEventDataView {
        self@
    }
}

impl Schema for ChatroomClearEventData {
    open spec fn matching(json: JsonValue) -> Option<ChatroomClearEventDataView> {
        match json.text_at("id"@) {
            Some(id) => Some(ChatroomClearEventDataView { id }),
            None => None,
        }
    }

    fn from_json(json: &Json) -> (r: Option<ChatroomClearEventData>) {
        let id = json.text_at("id")?;
        Some(ChatroomClearEventData { id })
    }
}

} // verus!
