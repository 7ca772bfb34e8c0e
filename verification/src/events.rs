//! The payload shapes, one record type for each.

pub mod chat_events;
pub mod moderation_events;
pub mod poll_events;
pub mod pusher_events;
pub mod room_events;
