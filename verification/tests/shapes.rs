use kick_client::{
    parse_json, AdvancedBotProtection, ChatMessageEventData, ChatMessageSender,
    ChatMessageSenderBadge, ChatMessageSenderIdentity, ChatroomClearEventData,
    ChatroomUpdatedEventData, DeletedMessage, DeletedMessageEventData, EmotesMode, FollowersMode,
    Json, JsonNumber, Poll, PollDeleteEventData, PollOption, PollUpdateEventData,
    PusherConnectionEstablishedEventData, PusherPongEventData,
    PusherSubscriptionSucceededEventData, Schema, SlowMode, SubscribersMode, User,
    UserBannedEventData, UserUnbannedEventData,
};

fn doc(text: &str) -> Json {
    parse_json(text).expect("the test's own JSON")
}

fn full(kind: &str, label: &str, count: u32) -> ChatMessageSenderBadge {
    ChatMessageSenderBadge::FullBadge { kind: kind.to_string(), label: label.to_string(), count }
}

fn simple(kind: &str, label: &str) -> ChatMessageSenderBadge {
    ChatMessageSenderBadge::SimpleBadge { kind: kind.to_string(), label: label.to_string() }
}

fn user(id: u32, name: &str) -> User {
    User { id, username: name.to_string(), slug: name.to_lowercase() }
}

#[test]
fn badge_with_count_is_full() {
    let badge = ChatMessageSenderBadge::from_json(&doc(
        r#"{"type": "subscriber", "text": "Subscriber", "count": 14}"#,
    ));
    assert_eq!(badge, Some(full("subscriber", "Subscriber", 14)));
}

#[test]
fn badge_with_count_zero_is_full() {
    let badge = ChatMessageSenderBadge::from_json(&doc(
        r#"{"type": "sub_gifter", "text": "Gifter", "count": 0}"#,
    ));
    assert_eq!(badge, Some(full("sub_gifter", "Gifter", 0)));
}

#[test]
fn badge_without_count_is_simple() {
    let badge = ChatMessageSenderBadge::from_json(&doc(r#"{"type": "vip", "text": "VIP"}"#));
    assert_eq!(badge, Some(simple("vip", "VIP")));
}

#[test]
fn badge_kind_does_not_depend_on_member_order() {
    let texts = [
        r#"{"type": "a", "text": "b", "count": 3}"#,
        r#"{"type": "a", "count": 3, "text": "b"}"#,
        r#"{"text": "b", "type": "a", "count": 3}"#,
        r#"{"text": "b", "count": 3, "type": "a"}"#,
        r#"{"count": 3, "type": "a", "text": "b"}"#,
        r#"{"count": 3, "text": "b", "type": "a"}"#,
    ];
    for text in texts {
        assert_eq!(ChatMessageSenderBadge::from_json(&doc(text)), Some(full("a", "b", 3)));
    }
    assert_eq!(
        ChatMessageSenderBadge::from_json(&doc(r#"{"text": "b", "type": "a"}"#)),
        Some(simple("a", "b"))
    );
}

fn kind_member() -> (String, Json) {
    ("type".to_string(), Json::Text("a".to_string()))
}

fn label_member() -> (String, Json) {
    ("text".to_string(), Json::Text("b".to_string()))
}

fn count_member() -> (String, Json) {
    ("count".to_string(), Json::Number(JsonNumber::PosInt(0)))
}

#[test]
fn badge_built_by_hand_in_either_order_reads_the_same() {
    let one = Json::Object(vec![kind_member(), label_member(), count_member()]);
    let other = Json::Object(vec![count_member(), label_member(), kind_member()]);
    assert_eq!(ChatMessageSenderBadge::from_json(&one), Some(full("a", "b", 0)));
    assert_eq!(ChatMessageSenderBadge::from_json(&other), Some(full("a", "b", 0)));
    let one = Json::Object(vec![kind_member(), label_member()]);
    let other = Json::Object(vec![label_member(), kind_member()]);
    assert_eq!(ChatMessageSenderBadge::from_json(&one), Some(simple("a", "b")));
    assert_eq!(ChatMessageSenderBadge::from_json(&other), Some(simple("a", "b")));
}

#[test]
fn badge_with_null_count_is_simple() {
    let badge = ChatMessageSenderBadge::from_json(&doc(
        r#"{"type": "vip", "text": "VIP", "count": null}"#,
    ));
    assert_eq!(badge, Some(simple("vip", "VIP")));
}

#[test]
fn badge_with_a_count_that_is_no_count_is_no_badge() {
    for text in [
        r#"{"type": "vip", "text": "VIP", "count": "3"}"#,
        r#"{"type": "vip", "text": "VIP", "count": -1}"#,
        r#"{"type": "vip", "text": "VIP", "count": 1.5}"#,
        r#"{"type": "vip", "text": "VIP", "count": 4294967296}"#,
        r#"{"type": "vip", "text": "VIP", "count": true}"#,
    ] {
        assert_eq!(ChatMessageSenderBadge::from_json(&doc(text)), None);
    }
    assert_eq!(
        ChatMessageSenderBadge::from_json(&doc(
            r#"{"type": "vip", "text": "VIP", "count": 4294967295}"#
        )),
        Some(full("vip", "VIP", u32::MAX))
    );
}

#[test]
fn badge_needs_kind_and_label() {
    assert_eq!(ChatMessageSenderBadge::from_json(&doc(r#"{"type": "vip"}"#)), None);
    assert_eq!(ChatMessageSenderBadge::from_json(&doc(r#"{"text": "VIP", "count": 1}"#)), None);
    assert_eq!(ChatMessageSenderBadge::from_json(&doc(r#"{"type": 1, "text": "VIP"}"#)), None);
    assert_eq!(ChatMessageSenderBadge::from_json(&doc(r#"{"type": null, "text": "VIP"}"#)), None);
    assert_eq!(ChatMessageSenderBadge::from_json(&doc(r#"["vip", "VIP"]"#)), None);
    assert_eq!(ChatMessageSenderBadge::from_json(&doc("null")), None);
}

#[test]
fn chat_message_with_every_attribute() {
    let message = ChatMessageEventData::from_json(&doc(
        r##"{
            "id": "m-1",
            "chatroom_id": 281473,
            "content": "hello [emote:37226:KEKW]",
            "type": "message",
            "created_at": "2024-05-01T12:00:00+00:00",
            "sender": {
                "id": 42,
                "username": "Alice",
                "slug": "alice",
                "identity": {
                    "color": "#FF00AA",
                    "badges": [
                        {"type": "moderator", "text": "Moderator"},
                        {"type": "subscriber", "text": "Subscriber", "count": 7}
                    ]
                }
            },
            "metadata": {"ignored": true}
        }"##,
    ));
    assert_eq!(
        message,
        Some(ChatMessageEventData {
            id: "m-1".to_string(),
            chatroom_id: 281473,
            content: Some("hello [emote:37226:KEKW]".to_string()),
            message_type: Some("message".to_string()),
            created_at: Some("2024-05-01T12:00:00+00:00".to_string()),
            sender: ChatMessageSender {
                id: 42,
                username: "Alice".to_string(),
                slug: "alice".to_string(),
                identity: ChatMessageSenderIdentity {
                    color: Some("#FF00AA".to_string()),
                    badges: vec![simple("moderator", "Moderator"), full("subscriber", "Subscriber", 7)],
                },
            },
        })
    );
}

#[test]
fn chat_message_with_only_what_is_required() {
    let message = ChatMessageEventData::from_json(&doc(
        r#"{"id": "1", "chatroom_id": 5, "sender": {"id": 9, "username": "a", "slug": "a",
            "identity": {"badges": []}}}"#,
    ));
    assert_eq!(
        message,
        Some(ChatMessageEventData {
            id: "1".to_string(),
            chatroom_id: 5,
            content: None,
            message_type: None,
            created_at: None,
            sender: ChatMessageSender {
                id: 9,
                username: "a".to_string(),
                slug: "a".to_string(),
                identity: ChatMessageSenderIdentity { color: None, badges: vec![] },
            },
        })
    );
}

#[test]
fn chat_message_mismatches() {
    let sender = r#""sender": {"id": 9, "username": "a", "slug": "a", "identity": {"badges": []}}"#;
    let cases = [
        // no id
        format!(r#"{{"chatroom_id": 5, {}}}"#, sender),
        // id is a number
        format!(r#"{{"id": 1, "chatroom_id": 5, {}}}"#, sender),
        // no room
        format!(r#"{{"id": "1", {}}}"#, sender),
        // room is a string
        format!(r#"{{"id": "1", "chatroom_id": "5", {}}}"#, sender),
        // room does not fit in 32 bits
        format!(r#"{{"id": "1", "chatroom_id": 4294967296, {}}}"#, sender),
        // room is negative
        format!(r#"{{"id": "1", "chatroom_id": -5, {}}}"#, sender),
        // room is a fraction
        format!(r#"{{"id": "1", "chatroom_id": 5.0, {}}}"#, sender),
        // content is a number
        format!(r#"{{"id": "1", "chatroom_id": 5, "content": 7, {}}}"#, sender),
        // type is a boolean
        format!(r#"{{"id": "1", "chatroom_id": 5, "type": false, {}}}"#, sender),
        // no sender
        r#"{"id": "1", "chatroom_id": 5}"#.to_string(),
        // sender is null
        r#"{"id": "1", "chatroom_id": 5, "sender": null}"#.to_string(),
        // sender without identity
        r#"{"id": "1", "chatroom_id": 5, "sender": {"id": 9, "username": "a", "slug": "a"}}"#
            .to_string(),
        // identity without badges
        r#"{"id": "1", "chatroom_id": 5, "sender": {"id": 9, "username": "a", "slug": "a",
            "identity": {"color": "red"}}}"#
            .to_string(),
        // badges is no array
        r#"{"id": "1", "chatroom_id": 5, "sender": {"id": 9, "username": "a", "slug": "a",
            "identity": {"badges": {}}}}"#
            .to_string(),
        // one badge of two is none
        r#"{"id": "1", "chatroom_id": 5, "sender": {"id": 9, "username": "a", "slug": "a",
            "identity": {"badges": [{"type": "a", "text": "b"}, {"type": "a"}]}}}"#
            .to_string(),
        // an array in place of the object
        r#"["1", 5]"#.to_string(),
    ];
    for text in cases.iter() {
        assert_eq!(ChatMessageEventData::from_json(&doc(text)), None, "{}", text);
    }
}

#[test]
fn null_stands_for_a_left_out_attribute() {
    let message = ChatMessageEventData::from_json(&doc(
        r#"{"id": "1", "chatroom_id": 5, "content": null, "type": null, "created_at": null,
            "sender": {"id": 9, "username": "a", "slug": "a",
            "identity": {"color": null, "badges": []}}}"#,
    ))
    .unwrap();
    assert_eq!(message.content, None);
    assert_eq!(message.message_type, None);
    assert_eq!(message.created_at, None);
    assert_eq!(message.sender.identity.color, None);
}

#[test]
fn badges_keep_their_order() {
    let identity = ChatMessageSenderIdentity::from_json(&doc(
        r#"{"badges": [{"type": "c", "text": "3"}, {"type": "a", "text": "1", "count": 1},
            {"type": "b", "text": "2"}]}"#,
    ))
    .unwrap();
    assert_eq!(identity.badges, vec![simple("c", "3"), full("a", "1", 1), simple("b", "2")]);
}

#[test]
fn deleted_message() {
    assert_eq!(
        DeletedMessageEventData::from_json(&doc(
            r#"{"id": "d-1", "message": {"id": "m-1"}, "ai_moderated": false}"#
        )),
        Some(DeletedMessageEventData {
            id: "d-1".to_string(),
            message: DeletedMessage { id: "m-1".to_string() },
            ai_moderated: false,
        })
    );
    assert_eq!(
        DeletedMessageEventData::from_json(&doc(r#"{"id": "d-1", "message": {"id": "m-1"}}"#)),
        None
    );
    assert_eq!(
        DeletedMessageEventData::from_json(&doc(
            r#"{"id": "d-1", "message": {}, "ai_moderated": true}"#
        )),
        None
    );
    assert_eq!(
        DeletedMessageEventData::from_json(&doc(
            r#"{"id": "d-1", "message": {"id": "m-1"}, "ai_moderated": "no"}"#
        )),
        None
    );
}

#[test]
fn user_banned_with_and_without_an_end() {
    assert_eq!(
        UserBannedEventData::from_json(&doc(
            r#"{"id": "b-1", "user": {"id": 1, "username": "Eve", "slug": "eve"},
                "banned_by": {"id": 2, "username": "Mod", "slug": "mod"},
                "permanent": false, "duration": 10, "expires_at": "2024-05-01T12:10:00+00:00"}"#
        )),
        Some(UserBannedEventData {
            id: "b-1".to_string(),
            user: user(1, "Eve"),
            banned_by: user(2, "Mod"),
            permanent: false,
            duration: Some(10),
            expires_at: Some("2024-05-01T12:10:00+00:00".to_string()),
        })
    );
    assert_eq!(
        UserBannedEventData::from_json(&doc(
            r#"{"id": "b-2", "user": {"id": 1, "username": "Eve", "slug": "eve"},
                "banned_by": {"id": 2, "username": "Mod", "slug": "mod"}, "permanent": true}"#
        )),
        Some(UserBannedEventData {
            id: "b-2".to_string(),
            user: user(1, "Eve"),
            banned_by: user(2, "Mod"),
            permanent: true,
            duration: None,
            expires_at: None,
        })
    );
}

#[test]
fn user_banned_duration_may_use_all_of_64_bits() {
    let banned = UserBannedEventData::from_json(&doc(
        r#"{"id": "b-1", "user": {"id": 1, "username": "Eve", "slug": "eve"},
            "banned_by": {"id": 2, "username": "Mod", "slug": "mod"},
            "permanent": false, "duration": 18446744073709551615}"#,
    ))
    .unwrap();
    assert_eq!(banned.duration, Some(u64::MAX));
}

#[test]
fn user_banned_mismatches() {
    for text in [
        // the identifier of a moderation event is a string
        r#"{"id": 7, "user": {"id": 1, "username": "Eve", "slug": "eve"},
            "banned_by": {"id": 2, "username": "Mod", "slug": "mod"}, "permanent": true}"#,
        // a user always has all three attributes
        r#"{"id": "b", "user": {"id": 1, "username": "Eve"},
            "banned_by": {"id": 2, "username": "Mod", "slug": "mod"}, "permanent": true}"#,
        // the identifier of a user is a number
        r#"{"id": "b", "user": {"id": "1", "username": "Eve", "slug": "eve"},
            "banned_by": {"id": 2, "username": "Mod", "slug": "mod"}, "permanent": true}"#,
        r#"{"id": "b", "user": {"id": 1, "username": "Eve", "slug": "eve"}, "permanent": true}"#,
        r#"{"id": "b", "user": {"id": 1, "username": "Eve", "slug": "eve"},
            "banned_by": {"id": 2, "username": "Mod", "slug": "mod"}}"#,
        r#"{"id": "b", "user": {"id": 1, "username": "Eve", "slug": "eve"},
            "banned_by": {"id": 2, "username": "Mod", "slug": "mod"}, "permanent": true,
            "duration": "ten"}"#,
        r#"{"id": "b", "user": {"id": 1, "username": "Eve", "slug": "eve"},
            "unbanned_by": {"id": 2, "username": "Mod", "slug": "mod"}, "permanent": true}"#,
    ] {
        assert_eq!(UserBannedEventData::from_json(&doc(text)), None, "{}", text);
    }
}

#[test]
fn user_unbanned() {
    assert_eq!(
        UserUnbannedEventData::from_json(&doc(
            r#"{"id": "u-1", "user": {"id": 1, "username": "Eve", "slug": "eve"},
                "unbanned_by": {"id": 2, "username": "Mod", "slug": "mod"}, "permanent": false}"#
        )),
        Some(UserUnbannedEventData {
            id: "u-1".to_string(),
            user: user(1, "Eve"),
            unbanned_by: user(2, "Mod"),
            permanent: false,
        })
    );
    assert_eq!(
        UserUnbannedEventData::from_json(&doc(
            r#"{"id": "u-1", "user": {"id": 1, "username": "Eve", "slug": "eve"},
                "banned_by": {"id": 2, "username": "Mod", "slug": "mod"}, "permanent": false}"#
        )),
        None
    );
}

#[test]
fn chatroom_updated_is_a_whole_set_of_settings() {
    let text = r#"{"id": 5,
        "slow_mode": {"enabled": true, "message_interval": 6},
        "subscribers_mode": {"enabled": false},
        "followers_mode": {"enabled": true, "min_duration": 10},
        "emotes_mode": {"enabled": false},
        "advanced_bot_protection": {"enabled": true, "remaining_time": 300}}"#;
    assert_eq!(
        ChatroomUpdatedEventData::from_json(&doc(text)),
        Some(ChatroomUpdatedEventData {
            id: 5,
            slow_mode: SlowMode { enabled: true, message_interval: 6 },
            subscribers_mode: SubscribersMode { enabled: false },
            followers_mode: FollowersMode { enabled: true, min_duration: 10 },
            emotes_mode: EmotesMode { enabled: false },
            advanced_bot_protection: AdvancedBotProtection { enabled: true, remaining_time: 300 },
        })
    );
}

#[test]
fn chatroom_updated_needs_every_group() {
    let groups = [
        r#""slow_mode": {"enabled": true, "message_interval": 6}"#,
        r#""subscribers_mode": {"enabled": false}"#,
        r#""followers_mode": {"enabled": true, "min_duration": 10}"#,
        r#""emotes_mode": {"enabled": false}"#,
        r#""advanced_bot_protection": {"enabled": true, "remaining_time": 300}"#,
    ];
    for left_out in 0..groups.len() {
        let mut members = vec![r#""id": 5"#.to_string()];
        for (i, group) in groups.iter().enumerate() {
            if i != left_out {
                members.push(group.to_string());
            }
        }
        let text = format!("{{{}}}", members.join(", "));
        assert_eq!(ChatroomUpdatedEventData::from_json(&doc(&text)), None, "{}", text);
    }
    assert_eq!(
        SlowMode::from_json(&doc(r#"{"enabled": true}"#)),
        None
    );
    assert_eq!(
        FollowersMode::from_json(&doc(r#"{"enabled": 1, "min_duration": 10}"#)),
        None
    );
    assert_eq!(
        AdvancedBotProtection::from_json(&doc(r#"{"enabled": true, "remaining_time": -1}"#)),
        None
    );
    assert_eq!(SubscribersMode::from_json(&doc(r#"{}"#)), None);
    assert_eq!(EmotesMode::from_json(&doc(r#"{"enabled": true}"#)), Some(EmotesMode { enabled: true }));
}

#[test]
fn chatroom_clear() {
    assert_eq!(
        ChatroomClearEventData::from_json(&doc(r#"{"id": "c-1"}"#)),
        Some(ChatroomClearEventData { id: "c-1".to_string() })
    );
    assert_eq!(ChatroomClearEventData::from_json(&doc(r#"{"id": 1}"#)), None);
    assert_eq!(ChatroomClearEventData::from_json(&doc(r#"{}"#)), None);
}

#[test]
fn poll_update() {
    let text = r#"{"poll": {"title": "Best?", "options": [
        {"id": 0, "label": "A", "votes": 3}, {"id": 1, "label": "B", "votes": 0}],
        "duration": 30, "remaining": 12, "result_display_duration": 15,
        "has_voted": true, "voted_option_id": "1"}}"#;
    assert_eq!(
        PollUpdateEventData::from_json(&doc(text)),
        Some(PollUpdateEventData {
            poll: Poll {
                title: "Best?".to_string(),
                options: vec![
                    PollOption { id: 0, label: "A".to_string(), votes: 3 },
                    PollOption { id: 1, label: "B".to_string(), votes: 0 },
                ],
                duration: 30,
                remaining: 12,
                result_display_duration: 15,
                has_voted: Some(true),
                voted_option_id: Some("1".to_string()),
            },
        })
    );
}

#[test]
fn poll_update_without_the_viewer_state() {
    let text = r#"{"poll": {"title": "Best?", "options": [],
        "duration": 30, "remaining": 30, "result_display_duration": 15}}"#;
    let poll = PollUpdateEventData::from_json(&doc(text)).unwrap().poll;
    assert_eq!(poll.has_voted, None);
    assert_eq!(poll.voted_option_id, None);
    assert_eq!(poll.options, vec![]);
}

#[test]
fn poll_update_mismatches() {
    for text in [
        r#"{}"#,
        r#"{"poll": null}"#,
        r#"{"poll": {"options": [], "duration": 30, "remaining": 30, "result_display_duration": 15}}"#,
        r#"{"poll": {"title": "t", "duration": 30, "remaining": 30, "result_display_duration": 15}}"#,
        r#"{"poll": {"title": "t", "options": [{"id": 0, "label": "A"}],
            "duration": 30, "remaining": 30, "result_display_duration": 15}}"#,
        r#"{"poll": {"title": "t", "options": [], "duration": 30, "remaining": 30}}"#,
        r#"{"poll": {"title": "t", "options": [], "duration": 30, "remaining": 30,
            "result_display_duration": 15, "has_voted": "yes"}}"#,
        r#"{"poll": {"title": "t", "options": [], "duration": 30, "remaining": 30,
            "result_display_duration": 15, "voted_option_id": 1}}"#,
    ] {
        assert_eq!(PollUpdateEventData::from_json(&doc(text)), None, "{}", text);
    }
}

#[test]
fn shapes_without_members_match_every_object_and_nothing_else() {
    for text in [r#"{}"#, r#"{"anything": [1, 2, 3]}"#] {
        assert_eq!(PollDeleteEventData::from_json(&doc(text)), Some(PollDeleteEventData {}));
        assert_eq!(
            PusherSubscriptionSucceededEventData::from_json(&doc(text)),
            Some(PusherSubscriptionSucceededEventData {})
        );
        assert_eq!(PusherPongEventData::from_json(&doc(text)), Some(PusherPongEventData {}));
    }
    for text in ["null", "[]", "\"{}\"", "0", "true"] {
        assert_eq!(PollDeleteEventData::from_json(&doc(text)), None);
        assert_eq!(PusherSubscriptionSucceededEventData::from_json(&doc(text)), None);
        assert_eq!(PusherPongEventData::from_json(&doc(text)), None);
    }
}

#[test]
fn connection_established() {
    assert_eq!(
        PusherConnectionEstablishedEventData::from_json(&doc(
            r#"{"socket_id": "123.456", "activity_timeout": 120}"#
        )),
        Some(PusherConnectionEstablishedEventData {
            socket_id: "123.456".to_string(),
            activity_timeout: 120,
        })
    );
    assert_eq!(
        PusherConnectionEstablishedEventData::from_json(&doc(r#"{"socket_id": "123.456"}"#)),
        None
    );
    assert_eq!(
        PusherConnectionEstablishedEventData::from_json(&doc(
            r#"{"socket_id": 123.456, "activity_timeout": 120}"#
        )),
        None
    );
}
