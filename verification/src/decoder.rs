//! The envelope decoder: from the text of one frame to one classified event.
//!
//! A frame is an envelope,
//!
//! ```text
//! { "event": "<discriminator>", "data": "<payload as JSON text>", "channel": "<room>" }
//! ```
//!
//! and its payload is JSON once more, written out as a string. The two texts are
//! parsed one after the other, and either may fail without the other. No frame
//! is an error: what cannot be read is an [`MessageData::Unknown`] that keeps
//! the text.

use vstd::prelude::*;
use crate::json::{Json, JsonValue};
use crate::parse::{parse_json, parsed_json};
use crate::registry::{probe, probed, try_match, MessageData, MessageDataView, Shape};

verus! {

/// The envelope of a frame: what stands around the payload.
///
/// A member that is missing, or that is no string, is `None`.
#[derive(Clone, Debug, PartialEq, Eq)]
pub struct ChatMessage {
    /// The discriminator: the producer's name for the kind of event.
    pub event: Option<String>,
    /// The payload, still as text.
    pub data: Option<String>,
    /// The room that the event belongs to.
    pub channel: Option<String>,
}

/// What a [`ChatMessage`] holds.
pub struct ChatMessageView {
    pub event: Option<Seq<char>>,
    pub data: Option<Seq<char>>,
    pub channel: Option<Seq<char>>,
}

impl View for ChatMessage {
    type V = ChatMessageView;

    open spec fn view(&self) -> ChatMessageView {
        ChatMessageView {
            event: self.event.deep_view(),
            data: self.data.deep_view(),
            channel: self.channel.deep_view(),
        }
    }
}

impl DeepView for ChatMessage {
    type V = ChatMessageView;

    open spec fn deep_view(&self) -> ChatMessageView {
        self@
    }
}

/// One frame, decoded: the event and the room that it belongs to.
#[derive(Clone, Debug, PartialEq, Eq)]
pub struct KickChatMessage {
    pub data: MessageData,
    /// The room, where the frame names one.
    pub channel: Option<String>,
}

/// What a [`KickChatMessage`] holds.
pub struct KickChatMessageView {
    pub data: MessageDataView,
    pub channel: Option<Seq<char>>,
}

impl View for KickChatMessage {
    type V = KickChatMessageView;

    open spec fn view(&self) -> KickChatMessageView {
        KickChatMessageView { data: self.data@, channel: self.channel.deep_view() }
    }
}

impl DeepView for KickChatMessage {
    type V = KickChatMessageView;

    open spec fn deep_view(&self) -> KickChatMessageView {
        self@
    }
}

/// The envelope that a document is read as. Every document has one: a
/// document that is no object has an envelope without members.
pub open spec fn envelope_of(frame: JsonValue) -> ChatMessageView {
    ChatMessageView {
        event: frame.text_at("event"@),
        data: frame.text_at("data"@),
        channel: frame.text_at("channel"@),
    }
}

/// The text that an unknown event keeps: the payload text, or nothing where
/// the frame had no payload.
pub open spec fn kept_text(data: Option<Seq<char>>) -> Seq<char> {
    match data {
        Some(text) => text,
        None => Seq::empty(),
    }
}

/// The event that the discriminator alone leads to: the payload read as the
/// one shape that the discriminator announces.
pub open spec fn announced(event: Option<Seq<char>>, payload: JsonValue) -> Option<MessageDataView> {
    match event {
        Some(discriminator) => match Shape::announced_by(discriminator) {
            Some(shape) => shape.matching(payload),
            None => None,
        },
        None => None,
    }
}

/// The event that an envelope is, given what its payload text parsed to
/// (`None` where there was no payload text or it was not JSON).
///
/// The shape that the discriminator announces is tried first, and only that
/// one. Where this gives nothing (no discriminator, an unknown one, or a
/// payload that is not of the announced shape) the shapes are probed in their
/// order. Where that gives nothing either, the event is unknown.
pub open spec fn classified(
    event: Option<Seq<char>>,
    data: Option<Seq<char>>,
    payload: Option<JsonValue>,
) -> MessageDataView {
    match payload {
        Some(json) => match announced(event, json) {
            Some(found) => found,
            None => match probed(json) {
                Some(found) => found,
                None => MessageDataView::Unknown(kept_text(data)),
            },
        },
        None => MessageDataView::Unknown(kept_text(data)),
    }
}

/// What the payload text of an envelope parses to.
pub open spec fn payload_of(data: Option<Seq<char>>) -> Option<JsonValue> {
    match data {
        Some(text) => parsed_json(text),
        None => None,
    }
}

/// The event that an envelope is.
pub open spec fn envelope_classified(envelope: ChatMessageView) -> MessageDataView {
    classified(envelope.event, envelope.data, payload_of(envelope.data))
}

/// What a frame decodes to. A text that is not JSON is an unknown event that
/// keeps the whole text, in no room.
pub open spec fn frame_decoded(raw: Seq<char>) -> KickChatMessageView {
    match parsed_json(raw) {
        Some(frame) => KickChatMessageView {
            data: envelope_classified(envelope_of(frame)),
            channel: envelope_of(frame).channel,
        },
        None => KickChatMessageView { data: MessageDataView::Unknown(raw), channel: None },
    }
}

impl ChatMessage {
    /// Reads the envelope of a parsed frame.
    pub fn from_json(frame: &Json) -> (envelope: ChatMessage)
        ensures
            envelope@ == envelope_of(frame@),
    {
        ChatMessage {
            event: frame.text_at("event"),
            data: frame.text_at("data"),
            channel: frame.text_at("channel"),
        }
    }
}

impl KickChatMessage {
    /// What stands for a frame that carries no text (a binary frame, a ping):
    /// an unknown event that keeps nothing, in no room. The decoder itself
    /// sees text frames only.
    pub fn without_text() -> (decoded: KickChatMessage)
        ensures
            decoded@ == (KickChatMessageView {
                data: MessageDataView::Unknown(Seq::empty()),
                channel: None,
            }),
    {
        KickChatMessage { data: MessageData::Unknown(String::new()), channel: None }
    }
}

/// The text that an unknown event keeps.
fn keep_text(data: Option<&str>) -> (text: String)
    ensures
        text@ == kept_text(data.deep_view()),
{
    match data {
        Some(text) => text.to_owned(),
        None => String::new(),
    }
}

/// Classifies a payload that has been parsed already.
///
/// `event` is the discriminator of the envelope, `data` its payload text and
/// `payload` what that text parsed to, `None` where there was no text or it
/// was not JSON.
pub fn classify_payload(event: Option<&str>, data: Option<&str>, payload: Option<&Json>) -> (found:
    MessageData)
    ensures
        found@ == classified(event.deep_view(), data.deep_view(), payload.deep_view()),
{
    let json = match payload {
        Some(json) => json,
        None => {
            return MessageData::Unknown(keep_text(data));
        },
    };
    if let Some(discriminator) = event {
        if let Some(shape) = Shape::from_discriminator(discriminator) {
            if let Some(found) = try_match(shape, json) {
                return found;
            }
        }
    }
    match probe(json) {
        Some(found) => found,
        None => MessageData::Unknown(keep_text(data)),
    }
}

/// Classifies an envelope: parses its payload text and reads the result as
/// [`classify_payload`] does.
pub fn classify_envelope(envelope: &ChatMessage) -> (found: MessageData)
    ensures
        found@ == envelope_classified(envelope@),
{
    let event: Option<&str> = match &envelope.event {
        Some(text) => Some(text.as_str()),
        None => None,
    };
    match &envelope.data {
        Some(text) => {
            let payload = parse_json(text.as_str());
            classify_payload(event, Some(text.as_str()), payload.as_ref())
        },
        None => classify_payload(event, None, None),
    }
}

/// Decodes one frame into its event and its room.
pub fn decode_frame(raw: &str) -> (decoded: KickChatMessage)
    ensures
        decoded@ == frame_decoded(raw@),
{
    match parse_json(raw) {
        Some(frame) => {
            let envelope = ChatMessage::from_json(&frame);
            let data = classify_envelope(&envelope);
            KickChatMessage { data, channel: envelope.channel }
        },
        None => KickChatMessage { data: MessageData::Unknown(raw.to_owned()), channel: None },
    }
}

/// Classifies one frame.
///
/// Every text has an answer; one that cannot be read is
/// [`MessageData::Unknown`]. The answer depends on the text alone.
pub fn classify(raw: &str) -> (found: MessageData)
    ensures
        found@ == frame_decoded(raw@).data,
{
    decode_frame(raw).data
}

} // verus!
