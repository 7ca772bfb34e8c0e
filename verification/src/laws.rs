//! What holds of the decoder on every input.

use vstd::prelude::*;
use crate::decoder::{classified, envelope_classified, envelope_of, frame_decoded, kept_text};
use crate::events::chat_events::{
    ChatMessageEventData, ChatMessageEventDataView, ChatMessageSender, ChatMessageSenderBadge,
    ChatMessageSenderBadgeView, ChatMessageSenderIdentity, ChatMessageSenderIdentityView,
    ChatMessageSenderView,
};
use crate::json::{JsonNumber, JsonValue};
use crate::parse::parsed_json;
use crate::registry::{probed, probed_from, MessageData, MessageDataView, Shape};
use crate::schema::{matching_all, Schema};

verus! {

/// The members of an object with an optional string member added: nothing is
/// added for `None`, as the producer leaves such a member out.
pub open spec fn with_optional_text(
    members: Map<Seq<char>, JsonValue>,
    name: Seq<char>,
    value: Option<Seq<char>>,
) -> Map<Seq<char>, JsonValue> {
    match value {
        Some(text) => members.insert(name, JsonValue::Text(text)),
        None => members,
    }
}

/// A badge as it stands on the wire.
pub open spec fn badge_wire(badge: ChatMessageSenderBadgeView) -> JsonValue {
    match badge {
        ChatMessageSenderBadgeView::FullBadge { kind, label, count } => JsonValue::Object(
            map![
                "type"@ => JsonValue::Text(kind),
                "text"@ => JsonValue::Text(label),
                "count"@ => JsonValue::Number(JsonNumber::PosInt(count as u64)),
            ],
        ),
        ChatMessageSenderBadgeView::SimpleBadge { kind, label } => JsonValue::Object(
            map![
                "type"@ => JsonValue::Text(kind),
                "text"@ => JsonValue::Text(label),
            ],
        ),
    }
}

/// The identity of a sender as it stands on the wire.
pub open spec fn identity_wire(identity: ChatMessageSenderIdentityView) -> JsonValue {
    JsonValue::Object(
        with_optional_text(
            map![
                "badges"@ => JsonValue::Array(
                    Seq::new(identity.badges.len(), |i: int| badge_wire(identity.badges[i])),
                ),
            ],
            "color"@,
            identity.color,
        ),
    )
}

/// A sender as it stands on the wire.
pub open spec fn sender_wire(sender: ChatMessageSenderView) -> JsonValue {
    JsonValue::Object(
        map![
            "id"@ => JsonValue::Number(JsonNumber::PosInt(sender.id as u64)),
            "username"@ => JsonValue::Text(sender.username),
            "slug"@ => JsonValue::Text(sender.slug),
            "identity"@ => identity_wire(sender.identity),
        ],
    )
}

/// A chat message as it stands on the wire: the payload that the producer
/// writes for it, with the attributes that the message lacks left out.
pub open spec fn chat_message_wire(message: ChatMessageEventDataView) -> JsonValue {
    JsonValue::Object(
        with_optional_text(
            with_optional_text(
                with_optional_text(
                    map![
                        "id"@ => JsonValue::Text(message.id),
                        "chatroom_id"@ => JsonValue::Number(JsonNumber::PosInt(message.chatroom_id as u64)),
                        "sender"@ => sender_wire(message.sender),
                    ],
                    "content"@,
                    message.content,
                ),
                "type"@,
                message.message_type,
            ),
            "created_at"@,
            message.created_at,
        ),
    )
}

/// A badge that is written to the wire and read back is the same badge.
pub proof fn lemma_badge_round_trip(badge: ChatMessageSenderBadgeView)
    ensures
        ChatMessageSenderBadge::matching(badge_wire(badge)) == Some(badge),
{
    reveal_strlit("type");
    reveal_strlit("text");
    reveal_strlit("count");
    assert("type"@ != "text"@) by {
        assert("type"@[1] != "text"@[1]);
    }
    assert("type"@.len() != "count"@.len());
    assert("text"@.len() != "count"@.len());
}

/// The identity of a sender that is written to the wire and read back is the
/// same identity, badge for badge and in the same order.
pub proof fn lemma_identity_round_trip(identity: ChatMessageSenderIdentityView)
    ensures
        ChatMessageSenderIdentity::matching(identity_wire(identity)) == Some(identity),
{
    reveal_strlit("color");
    reveal_strlit("badges");
    assert("color"@.len() != "badges"@.len());
    let items = Seq::new(identity.badges.len(), |i: int| badge_wire(identity.badges[i]));
    assert forall|i: int| 0 <= i < items.len() implies (#[trigger] ChatMessageSenderBadge::matching(
        items[i],
    )) == Some(identity.badges[i]) by {
        lemma_badge_round_trip(identity.badges[i]);
    }
    assert(matching_all::<ChatMessageSenderBadge>(items) is Some);
    assert(matching_all::<ChatMessageSenderBadge>(items)->Some_0 =~= identity.badges);
}

/// A sender that is written to the wire and read back is the same sender.
pub proof fn lemma_sender_round_trip(sender: ChatMessageSenderView)
    ensures
        ChatMessageSender::matching(sender_wire(sender)) == Some(sender),
{
    reveal_strlit("id");
    reveal_strlit("username");
    reveal_strlit("slug");
    reveal_strlit("identity");
    assert("username"@ != "identity"@) by {
        assert("username"@[0] != "identity"@[0]);
    }
    assert("id"@.len() != "username"@.len());
    assert("id"@.len() != "slug"@.len());
    assert("id"@.len() != "identity"@.len());
    assert("slug"@.len() != "username"@.len());
    assert("slug"@.len() != "identity"@.len());
    lemma_identity_round_trip(sender.identity);
}

/// A chat message that is written to the wire and read back is the same
/// message, attribute for attribute.
pub proof fn lemma_chat_message_round_trip(message: ChatMessageEventDataView)
    ensures
        ChatMessageEventData::matching(chat_message_wire(message)) == Some(message),
{
    reveal_strlit("id");
    reveal_strlit("chatroom_id");
    reveal_strlit("sender");
    reveal_strlit("content");
    reveal_strlit("type");
    reveal_strlit("created_at");
    lemma_sender_round_trip(message.sender);
    let base = map![
        "id"@ => JsonValue::Text(message.id),
        "chatroom_id"@ => JsonValue::Number(JsonNumber::PosInt(message.chatroom_id as u64)),
        "sender"@ => sender_wire(message.sender),
    ];
    let with_content = with_optional_text(base, "content"@, message.content);
    let with_type = with_optional_text(with_content, "type"@, message.message_type);
    let all = with_optional_text(with_type, "created_at"@, message.created_at);
    let json = chat_message_wire(message);
    assert(json == JsonValue::Object(all));
    assert("id"@.len() == 2 && "chatroom_id"@.len() == 11 && "sender"@.len() == 6);
    assert("content"@.len() == 7 && "type"@.len() == 4 && "created_at"@.len() == 10);
    assert(json.text_at("id"@) == Some(message.id));
    assert(json.u32_at("chatroom_id"@) == Some(message.chatroom_id));
    assert(json.member("sender"@) == Some(sender_wire(message.sender)));
    assert(json.optional_text_at("content"@) == Some(message.content));
    assert(json.optional_text_at("type"@) == Some(message.message_type));
    assert(json.optional_text_at("created_at"@) == Some(message.created_at));
}

/// Each shape is announced by its own discriminator and by no other: the
/// registry maps a known discriminator to exactly one shape.
pub proof fn lemma_discriminator_announces_its_shape(shape: Shape)
    ensures
        Shape::announced_by(shape.discriminator()) == Some(shape),
{
    reveal_strlit("App\\Events\\ChatMessageEvent");
    reveal_strlit("App\\Events\\DeletedMessageEvent");
    reveal_strlit("App\\Events\\UserBannedEvent");
    reveal_strlit("App\\Events\\UserUnbannedEvent");
    reveal_strlit("App\\Events\\ChatroomUpdatedEvent");
    reveal_strlit("App\\Events\\ChatroomClearEvent");
    reveal_strlit("App\\Events\\PollUpdateEvent");
    reveal_strlit("App\\Events\\PollDeleteEvent");
    reveal_strlit("pusher:connection_established");
    reveal_strlit("pusher_internal:subscription_succeeded");
    reveal_strlit("pusher:pong");
    let chat = Shape::ChatMessage.discriminator();
    let deleted = Shape::DeletedMessage.discriminator();
    let banned = Shape::UserBanned.discriminator();
    let unbanned = Shape::UserUnbanned.discriminator();
    let updated = Shape::ChatroomUpdated.discriminator();
    let clear = Shape::ChatroomClear.discriminator();
    let poll_update = Shape::PollUpdate.discriminator();
    let poll_delete = Shape::PollDelete.discriminator();
    let established = Shape::PusherConnectionEstablished.discriminator();
    let subscribed = Shape::PusherSubscriptionSucceeded.discriminator();
    let pong = Shape::PusherPong.discriminator();
    assert(chat.len() == 27 && deleted.len() == 30 && banned.len() == 26 && unbanned.len() == 28);
    assert(updated.len() == 31 && clear.len() == 29 && poll_update.len() == 26);
    assert(poll_delete.len() == 26 && established.len() == 29 && subscribed.len() == 38);
    assert(pong.len() == 11);
    assert(banned[11] != poll_update[11]);
    assert(banned[11] != poll_delete[11]);
    assert(poll_update[15] != poll_delete[15]);
    assert(clear[0] != established[0]);
}

/// A discriminator announces a shape only if it is the discriminator of that
/// shape.
pub proof fn lemma_announced_shape_has_the_discriminator(discriminator: Seq<char>, shape: Shape)
    requires
        Shape::announced_by(discriminator) == Some(shape),
    ensures
        discriminator == shape.discriminator(),
{
}

/// Where the discriminator announces a shape and the payload is of that
/// shape, the event is the payload read as that shape, whatever other shapes
/// the payload would match as well.
pub proof fn lemma_announced_shape_is_taken(
    event: Seq<char>,
    data: Option<Seq<char>>,
    payload: JsonValue,
    shape: Shape,
)
    requires
        Shape::announced_by(event) == Some(shape),
        shape.matching(payload) is Some,
    ensures
        classified(Some(event), data, Some(payload)) == shape.matching(payload)->Some_0,
{
}

/// A payload that describes a chat message, under the discriminator of chat
/// messages, is classified as that chat message: every attribute of the event
/// is the attribute of the payload.
pub proof fn lemma_chat_message_is_classified(
    data: Option<Seq<char>>,
    payload: JsonValue,
    message: ChatMessageEventDataView,
)
    requires
        ChatMessageEventData::matching(payload) == Some(message),
    ensures
        classified(Some(Shape::ChatMessage.discriminator()), data, Some(payload))
            == MessageDataView::ChatMessage(message),
{
    lemma_discriminator_announces_its_shape(Shape::ChatMessage);
}

/// A chat message that is written to the wire under its discriminator and
/// classified comes back as it was.
pub proof fn lemma_chat_message_survives_the_wire(
    data: Option<Seq<char>>,
    message: ChatMessageEventDataView,
)
    ensures
        classified(
            Some(Shape::ChatMessage.discriminator()),
            data,
            Some(chat_message_wire(message)),
        ) == MessageDataView::ChatMessage(message),
{
    lemma_chat_message_round_trip(message);
    lemma_chat_message_is_classified(data, chat_message_wire(message), message);
}

/// The same, said of a whole frame: where the frame is an envelope with the
/// discriminator of chat messages and its payload text holds a chat message,
/// the frame decodes to that chat message.
pub proof fn lemma_chat_message_frame(
    raw: Seq<char>,
    frame: JsonValue,
    text: Seq<char>,
    payload: JsonValue,
    message: ChatMessageEventDataView,
)
    ensures
        parsed_json(raw) == Some(frame) && frame.text_at("event"@) == Some(
            Shape::ChatMessage.discriminator(),
        ) && frame.text_at("data"@) == Some(text) && parsed_json(text) == Some(payload)
            && ChatMessageEventData::matching(payload) == Some(message) ==> frame_decoded(raw).data
            == MessageDataView::ChatMessage(message),
{
    if ChatMessageEventData::matching(payload) == Some(message) {
        lemma_chat_message_is_classified(Some(text), payload, message);
    }
}

/// The probe returns the first shape of the probe order that the document
/// matches: an event comes from position `k` exactly if the shape there
/// matches and no shape before it does.
pub proof fn lemma_probed_is_first_match(json: JsonValue, k: int)
    requires
        0 <= k < Shape::probe_order().len(),
        Shape::probe_order()[k].matching(json) is Some,
        forall|j: int| 0 <= j < k ==> (#[trigger] Shape::probe_order()[j]).matching(json) is None,
    ensures
        probed(json) == Shape::probe_order()[k].matching(json),
{
    lemma_probed_from_skips(json, 0, k);
}

/// Probing from a position on passes over the shapes that do not match.
proof fn lemma_probed_from_skips(json: JsonValue, from: nat, k: int)
    requires
        from <= k < Shape::probe_order().len(),
        Shape::probe_order()[k].matching(json) is Some,
        forall|j: int| from <= j < k ==> (#[trigger] Shape::probe_order()[j]).matching(json) is None,
    ensures
        probed_from(json, from) == Shape::probe_order()[k].matching(json),
    decreases k - from,
{
    if from < k {
        assert(Shape::probe_order()[from as int].matching(json) is None);
        lemma_probed_from_skips(json, from + 1, k);
    }
}

/// The probe finds nothing exactly where no shape of the probe order matches.
pub proof fn lemma_probed_nothing(json: JsonValue)
    ensures
        probed(json) is None <==> forall|j: int|
            0 <= j < Shape::probe_order().len() ==> (#[trigger] Shape::probe_order()[j]).matching(
                json,
            ) is None,
{
    lemma_probed_from_nothing(json, 0);
}

proof fn lemma_probed_from_nothing(json: JsonValue, from: nat)
    ensures
        probed_from(json, from) is None <==> forall|j: int|
            from <= j < Shape::probe_order().len() ==> (#[trigger] Shape::probe_order()[j]).matching(
                json,
            ) is None,
    decreases Shape::probe_order().len() - from,
{
    if from < Shape::probe_order().len() {
        lemma_probed_from_nothing(json, from + 1);
        if probed_from(json, from) is None {
            assert forall|j: int| from <= j < Shape::probe_order().len() implies (
            #[trigger] Shape::probe_order()[j]).matching(json) is None by {
                if j == from {
                } else {
                    assert(from + 1 <= j);
                }
            }
        } else if Shape::probe_order()[from as int].matching(json) is None {
        }
    }
}

/// The probe finds an event in every object and in nothing else: an object
/// that is of no other shape is still the removal of a poll, which asks for
/// no member.
pub proof fn lemma_probed_exactly_objects(json: JsonValue)
    ensures
        probed(json) is Some <==> json is Object,
{
    lemma_probed_nothing(json);
    let order = Shape::probe_order();
    if json is Object {
        assert(order[7].matching(json) is Some);
    } else {
        assert forall|j: int| 0 <= j < order.len() implies (#[trigger] order[j]).matching(json) is None by {
            assert(json.member("id"@) is None);
            assert(json.member("poll"@) is None);
        }
    }
}

/// The probe never answers with what the server says of the connection
/// itself, nor with an unknown event.
pub proof fn lemma_probed_is_a_room_event(json: JsonValue)
    requires
        probed(json) is Some,
    ensures
        probed(json)->Some_0 !is PusherConnectionEstablished,
        probed(json)->Some_0 !is PusherSubscriptionSucceeded,
        probed(json)->Some_0 !is PusherPong,
        probed(json)->Some_0 !is Unknown,
{
    lemma_probed_from_is_a_room_event(json, 0);
}

proof fn lemma_probed_from_is_a_room_event(json: JsonValue, from: nat)
    requires
        probed_from(json, from) is Some,
    ensures
        probed_from(json, from)->Some_0 !is PusherConnectionEstablished,
        probed_from(json, from)->Some_0 !is PusherSubscriptionSucceeded,
        probed_from(json, from)->Some_0 !is PusherPong,
        probed_from(json, from)->Some_0 !is Unknown,
    decreases Shape::probe_order().len() - from,
{
    if from < Shape::probe_order().len() {
        if Shape::probe_order()[from as int].matching(json) is None {
            lemma_probed_from_is_a_room_event(json, from + 1);
        }
    }
}

/// An event is unknown only where the payload text was no JSON, or held no
/// object, or was missing; and an unknown event keeps the payload text.
pub proof fn lemma_unknown_keeps_the_payload_text(
    event: Option<Seq<char>>,
    data: Option<Seq<char>>,
    payload: Option<JsonValue>,
)
    requires
        classified(event, data, payload) is Unknown,
    ensures
        classified(event, data, payload) == MessageDataView::Unknown(kept_text(data)),
        payload matches Some(json) ==> !(json is Object),
{
    if let Some(json) = payload {
        lemma_probed_exactly_objects(json);
        if probed(json) is Some {
            lemma_probed_is_a_room_event(json);
        }
        if let Some(discriminator) = event {
            if let Some(shape) = Shape::announced_by(discriminator) {
                assert(shape.matching(json) is Some ==> shape.matching(json)->Some_0 !is Unknown);
            }
        }
    }
}

/// A discriminator that announces no shape is no error: the payload is
/// probed, and the event is the first shape of the probe order that the
/// payload matches.
pub proof fn lemma_unknown_discriminator_is_probed(
    event: Seq<char>,
    data: Option<Seq<char>>,
    payload: JsonValue,
    k: int,
)
    requires
        Shape::announced_by(event) is None,
        0 <= k < Shape::probe_order().len(),
        Shape::probe_order()[k].matching(payload) is Some,
        forall|j: int|
            0 <= j < k ==> (#[trigger] Shape::probe_order()[j]).matching(payload) is None,
    ensures
        classified(Some(event), data, Some(payload)) == Shape::probe_order()[k].matching(
            payload,
        )->Some_0,
{
    lemma_probed_is_first_match(payload, k);
}

/// The same, said of a whole frame: a frame whose discriminator announces no
/// shape decodes to the first shape of the probe order that its payload
/// matches.
pub proof fn lemma_unknown_discriminator_frame(
    raw: Seq<char>,
    frame: JsonValue,
    event: Seq<char>,
    text: Seq<char>,
    payload: JsonValue,
    k: int,
)
    requires
        Shape::announced_by(event) is None,
        0 <= k < Shape::probe_order().len(),
        Shape::probe_order()[k].matching(payload) is Some,
        forall|j: int|
            0 <= j < k ==> (#[trigger] Shape::probe_order()[j]).matching(payload) is None,
    ensures
        parsed_json(raw) == Some(frame) && frame.text_at("event"@) == Some(event) && frame.text_at(
            "data"@,
        ) == Some(text) && parsed_json(text) == Some(payload) ==> frame_decoded(raw).data
            == Shape::probe_order()[k].matching(payload)->Some_0,
{
    lemma_unknown_discriminator_is_probed(event, Some(text), payload, k);
}

/// A discriminator that announces no shape, on a payload that no shape of the
/// probe order matches, gives an unknown event that keeps the payload text.
pub proof fn lemma_unknown_discriminator_unknown_payload(
    event: Seq<char>,
    data: Option<Seq<char>>,
    payload: JsonValue,
)
    requires
        Shape::announced_by(event) is None,
        forall|j: int|
            0 <= j < Shape::probe_order().len() ==> (#[trigger] Shape::probe_order()[j]).matching(
                payload,
            ) is None,
    ensures
        classified(Some(event), data, Some(payload)) == MessageDataView::Unknown(kept_text(data)),
{
    lemma_probed_nothing(payload);
}

/// An envelope without a `data` member is an unknown event with no text,
/// whatever its discriminator says.
pub proof fn lemma_no_data_is_unknown(frame: JsonValue)
    requires
        frame.member("data"@) is None,
    ensures
        envelope_classified(envelope_of(frame)) == MessageDataView::Unknown(Seq::empty()),
{
}

/// The same, said of a whole frame.
pub proof fn lemma_frame_without_data_is_unknown(raw: Seq<char>, frame: JsonValue)
    requires
        frame.member("data"@) is None,
    ensures
        parsed_json(raw) == Some(frame) ==> frame_decoded(raw).data == MessageDataView::Unknown(
            Seq::empty(),
        ),
{
}

/// A badge object with a `count` that is a 32-bit count is a full badge with
/// that count, zero included.
pub proof fn lemma_badge_with_count_is_full(
    json: JsonValue,
    kind: Seq<char>,
    label: Seq<char>,
    count: u32,
)
    requires
        json.text_at("type"@) == Some(kind),
        json.text_at("text"@) == Some(label),
        json.member("count"@) == Some(JsonValue::Number(JsonNumber::PosInt(count as u64))),
    ensures
        ChatMessageSenderBadge::matching(json) == Some(
            ChatMessageSenderBadgeView::FullBadge { kind, label, count },
        ),
{
}

/// A badge object without a `count` is a simple badge.
pub proof fn lemma_badge_without_count_is_simple(json: JsonValue, kind: Seq<char>, label: Seq<char>)
    requires
        json.text_at("type"@) == Some(kind),
        json.text_at("text"@) == Some(label),
        json.member("count"@) is None,
    ensures
        ChatMessageSenderBadge::matching(json) == Some(
            ChatMessageSenderBadgeView::SimpleBadge { kind, label },
        ),
{
}

/// Which kind a badge is depends on its `count` alone: a full badge is read
/// exactly from an object that has a `count` other than `null`.
pub proof fn lemma_badge_kind_is_decided_by_count(json: JsonValue)
    requires
        ChatMessageSenderBadge::matching(json) is Some,
    ensures
        ChatMessageSenderBadge::matching(json)->Some_0 is FullBadge <==> !json.lacks("count"@),
{
}

/// Two events that were classified from the same text hold the same.
pub proof fn lemma_classification_is_repeatable(first: MessageData, second: MessageData, raw: Seq<char>)
    requires
        first@ == frame_decoded(raw).data,
        second@ == frame_decoded(raw).data,
    ensures
        first@ == second@,
{
}

} // verus!
