//! The registry of payload shapes: which shapes there are, under which
//! discriminator the producer announces each, and in which order they are
//! tried on a payload that came without a usable discriminator.

use vstd::prelude::*;
use crate::events::chat_events::{
    ChatMessageEventData, ChatMessageEventDataView, DeletedMessageEventData,
    DeletedMessageEventDataView,
};
use crate::events::moderation_events::{
    UserBannedEventData, UserBannedEventDataView, UserUnbannedEventData,
    UserUnbannedEventDataView,
};
use crate::events::poll_events::{PollDeleteEventData, PollUpdateEventData, PollUpdateEventDataView};
use crate::events::pusher_events::{
    PusherConnectionEstablishedEventData, PusherConnectionEstablishedEventDataView,
    PusherPongEventData, PusherSubscriptionSucceededEventData,
};
use crate::events::room_events::{
    ChatroomClearEventData, ChatroomClearEventDataView, ChatroomUpdatedEventData,
};
use crate::json::{text_eq, Json, JsonValue};
use crate::schema::Schema;

verus! {

/// What one frame turned out to be.
#[derive(Clone, Debug, PartialEq, Eq)]
pub enum MessageData {
    /// A message in the room.
    ChatMessage(ChatMessageEventData),
    /// A message was deleted.
    DeletedMessage(DeletedMessageEventData),
    /// A user was banned from the room.
    UserBanned(UserBannedEventData),
    /// A ban was lifted.
    UserUnbanned(UserUnbannedEventData),
    /// The settings of the room changed.
    ChatroomUpdated(ChatroomUpdatedEventData),
    /// The room was cleared of its messages.
    ChatroomClear(ChatroomClearEventData),
    /// A poll was opened or its votes changed.
    PollUpdate(PollUpdateEventData),
    /// The poll of the room was removed.
    PollDelete(PollDeleteEventData),
    /// The server has accepted the connection.
    PusherConnectionEstablished(PusherConnectionEstablishedEventData),
    /// The server has accepted the subscription to a room.
    PusherSubscriptionSucceeded(PusherSubscriptionSucceededEventData),
    /// The connection is alive.
    PusherPong(PusherPongEventData),
    /// Nothing that the registry knows. The text is kept for inspection: the
    /// payload text of the frame, or the whole frame where it was not JSON.
    Unknown(String),
}

/// What a [`MessageData`] holds.
pub enum MessageDataView {
    ChatMessage(ChatMessageEventDataView),
    DeletedMessage(DeletedMessageEventDataView),
    UserBanned(UserBannedEventDataView),
    UserUnbanned(UserUnbannedEventDataView),
    ChatroomUpdated(ChatroomUpdatedEventData),
    ChatroomClear(ChatroomClearEventDataView),
    PollUpdate(PollUpdateEventDataView),
    PollDelete(PollDeleteEventData),
    PusherConnectionEstablished(PusherConnectionEstablishedEventDataView),
    PusherSubscriptionSucceeded(PusherSubscriptionSucceededEventData),
    PusherPong(PusherPongEventData),
    Unknown(Seq<char>),
}

impl View for MessageData {
    type V = MessageDataView;

    open spec fn view(&self) -> MessageDataView {
        match self {
            MessageData::ChatMessage(d) => MessageDataView::ChatMessage(d@),
            MessageData::DeletedMessage(d) => MessageDataView::DeletedMessage(d@),
            MessageData::UserBanned(d) => MessageDataView::UserBanned(d@),
            MessageData::UserUnbanned(d) => MessageDataView::UserUnbanned(d@),
            MessageData::ChatroomUpdated(d) => MessageDataView::ChatroomUpdated(d@),
            MessageData::ChatroomClear(d) => MessageDataView::ChatroomClear(d@),
            MessageData::PollUpdate(d) => MessageDataView::PollUpdate(d@),
            MessageData::PollDelete(d) => MessageDataView::PollDelete(d@),
            MessageData::PusherConnectionEstablished(d) => MessageDataView::PusherConnectionEstablished(d@),
            MessageData::PusherSubscriptionSucceeded(d) => MessageDataView::PusherSubscriptionSucceeded(d@),
            MessageData::PusherPong(d) => MessageDataView::PusherPong(d@),
            MessageData::Unknown(text) => MessageDataView::Unknown(text@),
        }
    }
}

impl DeepView for MessageData {
    type V = MessageDataView;

    open spec fn deep_view(&self) -> MessageDataView {
        self@
    }
}

/// The name of a payload shape.
#[derive(Clone, Copy, Debug, PartialEq, Eq, Structural)]
pub enum Shape {
    ChatMessage,
    DeletedMessage,
    UserBanned,
    UserUnbanned,
    ChatroomUpdated,
    ChatroomClear,
    PollUpdate,
    PollDelete,
    PusherConnectionEstablished,
    PusherSubscriptionSucceeded,
    PusherPong,
}

impl Shape {
    /// The discriminator under which the producer announces the shape.
    pub open spec fn discriminator(self) -> Seq<char> {
        match self {
            Shape::ChatMessage => "App\\Events\\ChatMessageEvent"@,
            Shape::DeletedMessage => "App\\Events\\DeletedMessageEvent"@,
            Shape::UserBanned => "App\\Events\\UserBannedEvent"@,
            Shape::UserUnbanned => "App\\Events\\UserUnbannedEvent"@,
            Shape::ChatroomUpdated => "App\\Events\\ChatroomUpdatedEvent"@,
            Shape::ChatroomClear => "App\\Events\\ChatroomClearEvent"@,
            Shape::PollUpdate => "App\\Events\\PollUpdateEvent"@,
            Shape::PollDelete => "App\\Events\\PollDeleteEvent"@,
            Shape::PusherConnectionEstablished => "pusher:connection_established"@,
            Shape::PusherSubscriptionSucceeded => "pusher_internal:subscription_succeeded"@,
            Shape::PusherPong => "pusher:pong"@,
        }
    }

    /// The shape that a discriminator announces: the one whose discriminator
    /// it is, character for character. No prefix and no pattern is matched.
    pub open spec fn announced_by(discriminator: Seq<char>) -> Option<Shape> {
        if discriminator == Shape::ChatMessage.discriminator() {
            Some(Shape::ChatMessage)
        } else if discriminator == Shape::DeletedMessage.discriminator() {
            Some(Shape::DeletedMessage)
        } else if discriminator == Shape::UserBanned.discriminator() {
            Some(Shape::UserBanned)
        } else if discriminator == Shape::UserUnbanned.discriminator() {
            Some(Shape::UserUnbanned)
        } else if discriminator == Shape::ChatroomUpdated.discriminator() {
            Some(Shape::ChatroomUpdated)
        } else if discriminator == Shape::ChatroomClear.discriminator() {
            Some(Shape::ChatroomClear)
        } else if discriminator == Shape::PollUpdate.discriminator() {
            Some(Shape::PollUpdate)
        } else if discriminator == Shape::PollDelete.discriminator() {
            Some(Shape::PollDelete)
        } else if discriminator == Shape::PusherConnectionEstablished.discriminator() {
            Some(Shape::PusherConnectionEstablished)
        } else if discriminator == Shape::PusherSubscriptionSucceeded.discriminator() {
            Some(Shape::PusherSubscriptionSucceeded)
        } else if discriminator == Shape::PusherPong.discriminator() {
            Some(Shape::PusherPong)
        } else {
            None
        }
    }

    /// The order in which the shapes are tried on a payload whose
    /// discriminator did not settle the matter: the busiest kind of event
    /// first. What the server says of the connection itself is never guessed.
    pub open spec fn probe_order() -> Seq<Shape> {
        seq![
            Shape::ChatMessage,
            Shape::DeletedMessage,
            Shape::UserBanned,
            Shape::UserUnbanned,
            Shape::ChatroomUpdated,
            Shape::ChatroomClear,
            Shape::PollUpdate,
            Shape::PollDelete,
        ]
    }

    /// The event that a document is when it is read as this shape.
    pub open spec fn matching(self, json: JsonValue) -> Option<MessageDataView> {
        match self {
            Shape::ChatMessage => match ChatMessageEventData::matching(json) {
                Some(d) => Some(MessageDataView::ChatMessage(d)),
                None => None,
            },
            Shape::DeletedMessage => match DeletedMessageEventData::matching(json) {
                Some(d) => Some(MessageDataView::DeletedMessage(d)),
                None => None,
            },
            Shape::UserBanned => match UserBannedEventData::matching(json) {
                Some(d) => Some(MessageDataView::UserBanned(d)),
                None => None,
            },
            Shape::UserUnbanned => match UserUnbannedEventData::matching(json) {
                Some(d) => Some(MessageDataView::UserUnbanned(d)),
                None => None,
            },
            Shape::ChatroomUpdated => match ChatroomUpdatedEventData::matching(json) {
                Some(d) => Some(MessageDataView::ChatroomUpdated(d)),
                None => None,
            },
            Shape::ChatroomClear => match ChatroomClearEventData::matching(json) {
                Some(d) => Some(MessageDataView::ChatroomClear(d)),
                None => None,
            },
            Shape::PollUpdate => match PollUpdateEventData::matching(json) {
                Some(d) => Some(MessageDataView::PollUpdate(d)),
                None => None,
            },
            Shape::PollDelete => match PollDeleteEventData::matching(json) {
                Some(d) => Some(MessageDataView::PollDelete(d)),
                None => None,
            },
            Shape::PusherConnectionEstablished => match PusherConnectionEstablishedEventData::matching(json) {
                Some(d) => Some(MessageDataView::PusherConnectionEstablished(d)),
                None => None,
            },
            Shape::PusherSubscriptionSucceeded => match PusherSubscriptionSucceededEventData::matching(json) {
                Some(d) => Some(MessageDataView::PusherSubscriptionSucceeded(d)),
                None => None,
            },
            Shape::PusherPong => match PusherPongEventData::matching(json) {
                Some(d) => Some(MessageDataView::PusherPong(d)),
                None => None,
            },
        }
    }

    /// The shape that a discriminator announces, if it announces one.
    pub fn from_discriminator(discriminator: &str) -> (r: Option<Shape>)
        ensures
            r == Shape::announced_by(discriminator@),
    {
        if text_eq(discriminator, "App\\Events\\ChatMessageEvent") {
            Some(Shape::ChatMessage)
        } else if text_eq(discriminator, "App\\Events\\DeletedMessageEvent") {
            Some(Shape::DeletedMessage)
        } else if text_eq(discriminator, "App\\Events\\UserBannedEvent") {
            Some(Shape::UserBanned)
        } else if text_eq(discriminator, "App\\Events\\UserUnbannedEvent") {
            Some(Shape::UserUnbanned)
        } else if text_eq(discriminator, "App\\Events\\ChatroomUpdatedEvent") {
            Some(Shape::ChatroomUpdated)
        } else if text_eq(discriminator, "App\\Events\\ChatroomClearEvent") {
            Some(Shape::ChatroomClear)
        } else if text_eq(discriminator, "App\\Events\\PollUpdateEvent") {
            Some(Shape::PollUpdate)
        } else if text_eq(discriminator, "App\\Events\\PollDeleteEvent") {
            Some(Shape::PollDelete)
        } else if text_eq(discriminator, "pusher:connection_established") {
            Some(Shape::PusherConnectionEstablished)
        } else if text_eq(discriminator, "pusher_internal:subscription_succeeded") {
            Some(Shape::PusherSubscriptionSucceeded)
        } else if text_eq(discriminator, "pusher:pong") {
            Some(Shape::PusherPong)
        } else {
            None
        }
    }
}

/// The first event that a document is when the shapes of the probe order are
/// tried on it from position `from` on; `None` where none of them matches.
pub open spec fn probed_from(json: JsonValue, from: nat) -> Option<MessageDataView>
    decreases Shape::probe_order().len() - from,
{
    if from >= Shape::probe_order().len() {
        None
    } else {
        match Shape::probe_order()[from as int].matching(json) {
            Some(event) => Some(event),
            None => probed_from(json, from + 1),
        }
    }
}

/// The event that a document is when nothing says which shape it has.
pub open spec fn probed(json: JsonValue) -> Option<MessageDataView> {
    probed_from(json, 0)
}

/// Reads a document as one shape.
///
/// Returns the event with the record that the document describes, `None` where
/// it does not describe a record of that shape. The result is never
/// [`MessageData::Unknown`].
pub fn try_match(shape: Shape, json: &Json) -> (r: Option<MessageData>)
    ensures
        r.deep_view() == shape.matching(json@),
{
    match shape {
        Shape::ChatMessage => match ChatMessageEventData::from_json(json) {
            Some(d) => Some(MessageData::ChatMessage(d)),
            None => None,
        },
        Shape::DeletedMessage => match DeletedMessageEventData::from_json(json) {
            Some(d) => Some(MessageData::DeletedMessage(d)),
            None => None,
        },
        Shape::UserBanned => match UserBannedEventData::from_json(json) {
            Some(d) => Some(MessageData::UserBanned(d)),
            None => None,
        },
        Shape::UserUnbanned => match UserUnbannedEventData::from_json(json) {
            Some(d) => Some(MessageData::UserUnbanned(d)),
            None => None,
        },
        Shape::ChatroomUpdated => match ChatroomUpdatedEventData::from_json(json) {
            Some(d) => Some(MessageData::ChatroomUpdated(d)),
            None => None,
        },
        Shape::ChatroomClear => match ChatroomClearEventData::from_json(json) {
            Some(d) => Some(MessageData::ChatroomClear(d)),
            None => None,
        },
        Shape::PollUpdate => match PollUpdateEventData::from_json(json) {
            Some(d) => Some(MessageData::PollUpdate(d)),
            None => None,
        },
        Shape::PollDelete => match PollDeleteEventData::from_json(json) {
            Some(d) => Some(MessageData::PollDelete(d)),
            None => None,
        },
        Shape::PusherConnectionEstablished => match PusherConnectionEstablishedEventData::from_json(json) {
            Some(d) => Some(MessageData::PusherConnectionEstablished(d)),
            None => None,
        },
        Shape::PusherSubscriptionSucceeded => match PusherSubscriptionSucceededEventData::from_json(json) {
            Some(d) => Some(MessageData::PusherSubscriptionSucceeded(d)),
            None => None,
        },
        Shape::PusherPong => match PusherPongEventData::from_json(json) {
            Some(d) => Some(MessageData::PusherPong(d)),
            None => None,
        },
    }
}

/// The shape at a position of the probe order.
fn probe_shape(position: usize) -> (shape: Shape)
    requires
        position < Shape::probe_order().len(),
    ensures
        shape == Shape::probe_order()[position as int],
{
    if position == 0 {
        Shape::ChatMessage
    } else if position == 1 {
        Shape::DeletedMessage
    } else if position == 2 {
        Shape::UserBanned
    } else if position == 3 {
        Shape::UserUnbanned
    } else if position == 4 {
        Shape::ChatroomUpdated
    } else if position == 5 {
        Shape::ChatroomClear
    } else if position == 6 {
        Shape::PollUpdate
    } else {
        Shape::PollDelete
    }
}

/// Tries the shapes of the probe order on a document, one after the other,
/// and returns the first event that comes of it.
pub fn probe(json: &Json) -> (r: Option<MessageData>)
    ensures
        r.deep_view() == probed(json@),
{
    let mut position: usize = 0;
    while position < 8
        invariant
            position <= 8,
            Shape::probe_order().len() == 8,
            probed(json@) == probed_from(json@, position as nat),
        decreases 8 - position,
    {
        match try_match(probe_shape(position), json) {
            Some(event) => {
                return Some(event);
            },
            None => {},
        }
        position += 1;
    }
    None
}

} // verus!
