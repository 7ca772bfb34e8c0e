//! Polls.

use vstd::prelude::*;
use crate::json::{Json, JsonValue};
use crate::schema::{Schema, matching_all_at, matching_at, record_at, records_at};

verus! {

/// A poll was opened or its votes changed.
#[derive(Clone, Debug, PartialEq, Eq)]
pub struct PollUpdateEventData {
    pub poll: Poll,
}

/// What a [`PollUpdateEventData`] holds.
pub struct PollUpdateEventDataView {
    pub poll: PollView,
}

impl View for PollUpdateEventData {
    type V = PollUpdateEventDataView;

    open spec fn view(&self) -> PollUpdateEventDataView {
        PollUpdateEventDataView {
            poll: self.poll@,
        }
    }
}

impl DeepView for PollUpdateEventData {
    type V = PollUpdateEventDataView;

    open spec fn deep_view(&self) -> PollUpdateEventDataView {
        self@
    }
}

impl Schema for PollUpdateEventData {
    open spec fn matching(json: JsonValue) -> Option<PollUpdateEventDataView> {
        match matching_at::<Poll>(json, "poll"@) {
            Some(poll) => Some(PollUpdateEventDataView { poll }),
            None => None,
        }
    }

    fn from_json(json: &Json) -> (r: Option<PollUpdateEventData>) {
        let poll = record_at::<Poll>(json, "poll")?;
        Some(PollUpdateEventData { poll })
    }
}

/// A poll and its standing.
#[derive(Clone, Debug, PartialEq, Eq)]
pub struct Poll {
    pub title: String,
    /// The answers, in the order in which they are shown.
    pub options: Vec<PollOption>,
    /// How long the poll runs, in seconds.
    pub duration: u32,
    /// How much of that is left.
    pub remaining: u32,
    /// For how long the result is shown afterwards.
    pub result_display_duration: u32,
    /// Whether the viewer has voted.
    pub has_voted: Option<bool>,
    /// The answer that the viewer voted for.
    pub voted_option_id: Option<String>,
}

/// What a [`Poll`] holds.
pub struct PollView {
    pub title: Seq<char>,
    pub options: Seq<PollOptionView>,
    pub duration: u32,
    pub remaining: u32,
    pub result_display_duration: u32,
    pub has_voted: Option<bool>,
    pub voted_option_id: Option<Seq<char>>,
}

impl View for Poll {
    type V = PollView;

    open spec fn view(&self) -> PollView {
        PollView {
            title: self.title@,
            options: self.options.deep_view(),
            duration: self.duration,
            remaining: self.remaining,
            result_display_duration: self.result_display_duration,
            has_voted: self.has_voted,
            voted_option_id: self.voted_option_id.deep_view(),
        }
    }
}

impl DeepView for Poll {
    type V = PollView;

    open spec fn deep_view(&self) -> PollView {
        self@
    }
}

impl Schema for Poll {
    open spec fn matching(json: JsonValue) -> Option<PollView> {
        match (
            json.text_at("title"@),
            matching_all_at::<PollOption>(json, "options"@),
            json.u32_at("duration"@),
            json.u32_at("remaining"@),
            json.u32_at("result_display_duration"@),
            json.optional_bool_at("has_voted"@),
            json.optional_text_at("voted_option_id"@),
        ) {
            (
                Some(title),
                Some(options),
                Some(duration),
                Some(remaining),
                Some(result_display_duration),
                Some(has_voted),
                Some(voted_option_id),
            ) => Some(
                PollView {
                    title,
                    options,
                    duration,
                    remaining,
                    result_display_duration,
                    has_voted,
                    voted_option_id,
                },
            ),
            _ => None,
        }
    }

    fn from_json(json: &Json) -> (r: Option<Poll>) {
        let title = json.text_at("title")?;
        let options = records_at::<PollOption>(json, "options")?;
        let duration = json.u32_at("duration")?;
        let remaining = json.u32_at("remaining")?;
        let result_display_duration = json.u32_at("result_display_duration")?;
        let has_voted = json.optional_bool_at("has_voted")?;
        let voted_option_id = json.optional_text_at("voted_option_id")?;
        Some(
            Poll {
                title,
                options,
                duration,
                remaining,
                result_display_duration,
                has_voted,
                voted_option_id,
            },
        )
    }
}

/// One answer of a poll.
#[derive(Clone, Debug, PartialEq, Eq)]
pub struct PollOption {
    pub id: u32,
    pub label: String,
    pub votes: u32,
}

/// What a [`PollOption`] holds.
pub struct PollOptionView {
    pub id: u32,
    pub label: Seq<char>,
    pub votes: u32,
}

impl View for PollOption {
    type V = PollOptionView;

    open spec fn view(&self) -> PollOptionView {
        PollOptionView {
            id: self.id,
            label: self.label@,
            votes: self.votes,
        }
    }
}

impl DeepView for PollOption {
    type V = PollOptionView;

    open spec fn deep_view(&self) -> PollOptionView {
        self@
    }
}

impl Schema for PollOption {
    open spec fn matching(json: JsonValue) -> Option<PollOptionView> {
        match (
            json.u32_at("id"@),
            json.text_at("label"@),
            json.u32_at("votes"@),
        ) {
            (Some(id), Some(label), Some(votes)) => Some(PollOptionView { id, label, votes }),
            _ => None,
        }
    }

    fn from_json(json: &Json) -> (r: Option<PollOption>) {
        let id = json.u32_at("id")?;
        let label = json.text_at("label")?;
        let votes = json.u32_at("votes")?;
        Some(PollOption { id, label, votes })
    }
}

/// The poll of the room was removed. The payload says nothing more.
#[derive(Clone, Copy, Debug, PartialEq, Eq)]
pub struct PollDeleteEventData {}

impl View for PollDeleteEventData {
    type V = PollDeleteEventData;

    open spec fn view(&self) -> PollDeleteEventData {
        *self
    }
}

impl DeepView for PollDeleteEventData {
    type V = PollDeleteEventData;

    open spec fn deep_view(&self) -> PollDeleteEventData {
        self@
    }
}

impl Schema for PollDeleteEventData {
    /// Any object describes the record: there is no member to ask for.
    open spec fn matching(json: JsonValue) -> Option<PollDeleteEventData> {
        if json is Object {
            Some(PollDeleteEventData {})
        } else {
            None
        }
    }

    fn from_json(json: &Json) -> (r: Option<PollDeleteEventData>) {
        if json.is_object() {
            Some(PollDeleteEventData {})
        } else {
            None
        }
    }
}

} // verus!
