//! What the server says of the connection itself.

use vstd::prelude::*;
use crate::json::{Json, JsonValue};
use crate::schema::Schema;

verus! {

/// The server has accepted the connection.
#[derive(Clone, Debug, PartialEq, Eq)]
pub struct PusherConnectionEstablishedEventData {
    pub socket_id: String,
    /// After how many seconds of silence the server expects a ping.
    pub activity_timeout: u32,
}

/// What a [`PusherConnectionEstablishedEventData`] holds.
pub struct PusherConnectionEstablishedEventDataView {
    pub socket_id: Seq<char>,
    pub activity_timeout: u32,
}

impl View for PusherConnectionEstablishedEventData {
    type V = PusherConnectionEstablishedEventDataView;

    open spec fn view(&self) -> PusherConnectionEstablishedEventDataView {
        PusherConnectionEstablishedEventDataView {
            socket_id: self.socket_id@,
            activity_timeout: self.activity_timeout,
        }
    }
}

impl DeepView for PusherConnectionEstablishedEventData {
    type V = PusherConnectionEstablishedEventDataView;

    open spec fn deep_view(&self) -> PusherConnectionEstablishedEventDataView {
        self@
    }
}

impl Schema for PusherConnectionEstablishedEventData {
    open spec fn matching(json: JsonValue) -> Option<PusherConnectionEstablishedEventDataView> {
        match (
            json.text_at("socket_id"@),
            json.u32_at("activity_timeout"@),
        ) {
            (
                Some(socket_id),
                Some(activity_timeout),
            ) => Some(
                PusherConnectionEstablishedEventDataView {
                    socket_id,
                    activity_timeout,
                },
            ),
            _ => None,
        }
    }

    fn from_json(json: &Json) -> (r: Option<PusherConnectionEstablishedEventData>) {
        let socket_id = json.text_at("socket_id")?;
        let activity_timeout = json.u32_at("activity_timeout")?;
        Some(PusherConnectionEstablishedEventData { socket_id, activity_timeout })
    }
}

/// The server has accepted the subscription to a room.
#[derive(Clone, Copy, Debug, PartialEq, Eq)]
pub struct PusherSubscriptionSucceededEventData {}

impl View for PusherSubscriptionSucceededEventData {
    type V = PusherSubscriptionSucceededEventData;

    open spec fn view(&self) -> PusherSubscriptionSucceededEventData {
        *self
    }
}

impl DeepView for PusherSubscriptionSucceededEventData {
    type V = PusherSubscriptionSucceededEventData;

    open spec fn deep_view(&self) -> PusherSubscriptionSucceededEventData {
        self@
    }
}

impl Schema for PusherSubscriptionSucceededEventData {
    /// Any object describes the record: there is no member to ask for.
    open spec fn matching(json: JsonValue) -> Option<PusherSubscriptionSucceededEventData> {
        if json is Object {
            Some(PusherSubscriptionSucceededEventData {})
        } else {
            None
        }
    }

    fn from_json(json: &Json) -> (r: Option<PusherSubscriptionSucceededEventData>) {
        if json.is_object() {
            Some(PusherSubscriptionSucceededEventData {})
        } else {
            None
        }
    }
}

/// The answer to a ping: the connection is alive.
#[derive(Clone, Copy, Debug, PartialEq, Eq)]
pub struct PusherPongEventData {}

impl View for PusherPongEventData {
    type V = PusherPongEventData;

    open spec fn view(&self) -> PusherPongEventData {
        *self
    }
}

impl DeepView for PusherPongEventData {
    type V = PusherPongEventData;

    open spec fn deep_view(&self) -> PusherPongEventData {
        self@
    }
}

impl Schema for PusherPongEventData {
    /// Any object describes the record: there is no member to ask for.
    open spec fn matching(json: JsonValue) -> Option<PusherPongEventData> {
        if json is Object {
            Some(PusherPongEventData {})
        } else {
            None
        }
    }

    fn from_json(json: &Json) -> (r: Option<PusherPongEventData>) {
        if json.is_object() {
            Some(PusherPongEventData {})
        } else {
            None
        }
    }
}

} // verus!
