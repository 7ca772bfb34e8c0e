//! Bans and their lifting.

use vstd::prelude::*;
use crate::json::{Json, JsonValue};
use crate::schema::{Schema, matching_at, record_at};

verus! {

/// A user was banned from the room.
#[derive(Clone, Debug, PartialEq, Eq)]
pub struct UserBannedEventData {
    pub id: String,
    /// The user who was banned.
    pub user: User,
    /// The moderator who banned them.
    pub banned_by: User,
    pub permanent: bool,
    /// How long the ban lasts; a permanent ban carries none.
    pub duration: Option<u64>,
    /// When the ban ends.
    pub expires_at: Option<String>,
}

/// What a [`UserBannedEventData`] holds.
pub struct UserBannedEventDataView {
    pub id: Seq<char>,
    pub user: UserView,
    pub banned_by: UserView,
    pub permanent: bool,
    pub duration: Option<u64>,
    pub expires_at: Option<Seq<char>>,
}

impl View for UserBannedEventData {
    type V = UserBannedEventDataView;

    open spec fn view(&self) -> UserBannedEventDataView {
        UserBannedEventDataView {
            id: self.id@,
            user: self.user@,
            banned_by: self.banned_by@,
            permanent: self.permanent,
            duration: self.duration,
            expires_at: self.expires_at.deep_view(),
        }
    }
}

impl DeepView for UserBannedEventData {
    type V = UserBannedEventDataView;

    open spec fn deep_view(&self) -> UserBannedEventDataView {
        self@
    }
}

impl Schema for UserBannedEventData {
    open spec fn matching(json: JsonValue) -> Option<UserBannedEventDataView> {
        match (
            json.text_at("id"@),
            matching_at::<User>(json, "user"@),
            matching_at::<User>(json, "banned_by"@),
            json.bool_at("permanent"@),
            json.optional_u64_at("duration"@),
            json.optional_text_at("expires_at"@),
        ) {
            (
                Some(id),
                Some(user),
                Some(banned_by),
                Some(permanent),
                Some(duration),
                Some(expires_at),
            ) => Some(
                UserBannedEventDataView {
                    id,
                    user,
                    banned_by,
                    permanent,
                    duration,
                    expires_at,
                },
            ),
            _ => None,
        }
    }

    fn from_json(json: &Json) -> (r: Option<UserBannedEventData>) {
        let id = json.text_at("id")?;
        let user = record_at::<User>(json, "user")?;
        let banned_by = record_at::<User>(json, "banned_by")?;
        let permanent = json.bool_at("permanent")?;
        let duration = json.optional_u64_at("duration")?;
        let expires_at = json.optional_text_at("expires_at")?;
        Some(UserBannedEventData { id, user, banned_by, permanent, duration, expires_at })
    }
}

/// A ban was lifted.
#[derive(Clone, Debug, PartialEq, Eq)]
pub struct UserUnbannedEventData {
    pub id: String,
    /// The user whose ban was lifted.
    pub user: User,
    /// The moderator who lifted it.
    pub unbanned_by: User,
    /// Whether the lifted ban was a permanent one.
    pub permanent: bool,
}

/// What a [`UserUnbannedEventData`] holds.
pub struct UserUnbannedEventDataView {
    pub id: Seq<char>,
    pub user: UserView,
    pub unbanned_by: UserView,
    pub permanent: bool,
}

impl View for UserUnbannedEventData {
    type V = UserUnbannedEventDataView;

    open spec fn view(&self) -> UserUnbannedEventDataView {
        UserUnbannedEventDataView {
            id: self.id@,
            user: self.user@,
            unbanned_by: self.unbanned_by@,
            permanent: self.permanent,
        }
    }
}

impl DeepView for UserUnbannedEventData {
    type V = UserUnbannedEventDataView;

    open spec fn deep_view(&self) -> UserUnbannedEventDataView {
        self@
    }
}

impl Schema for UserUnbannedEventData {
    open spec fn matching(json: JsonValue) -> Option<UserUnbannedEventDataView> {
        match (
            json.text_at("id"@),
            matching_at::<User>(json, "user"@),
            matching_at::<User>(json, "unbanned_by"@),
            json.bool_at("permanent"@),
        ) {
            (
                Some(id),
                Some(user),
                Some(unbanned_by),
                Some(permanent),
            ) => Some(
                UserUnbannedEventDataView {
                    id,
                    user,
                    unbanned_by,
                    permanent,
                },
            ),
            _ => None,
        }
    }

    fn from_json(json: &Json) -> (r: Option<UserUnbannedEventData>) {
        let id = json.text_at("id")?;
        let user = record_at::<User>(json, "user")?;
        let unbanned_by = record_at::<User>(json, "unbanned_by")?;
        let permanent = json.bool_at("permanent")?;
        Some(UserUnbannedEventData { id, user, unbanned_by, permanent })
    }
}

/// A chatroom user as a moderation event names one.
#[derive(Clone, Debug, PartialEq, Eq)]
pub struct User {
    pub id: u32,
    pub username: String,
    pub slug: String,
}

/// What a [`User`] holds.
pub struct UserView {
    pub id: u32,
    pub username: Seq<char>,
    pub slug: Seq<char>,
}

impl View for User {
    type V = UserView;

    open spec fn view(&self) -> UserView {
        UserView {
            id: self.id,
            username: self.username@,
            slug: self.slug@,
        }
    }
}

impl DeepView for User {
    type V = UserView;

    open spec fn deep_view(&self) -> UserView {
        self@
    }
}

impl Schema for User {
    open spec fn matching(json: JsonValue) -> Option<UserView> {
        match (
            json.u32_at("id"@),
            json.text_at("username"@),
            json.text_at("slug"@),
        ) {
            (Some(id), Some(username), Some(slug)) => Some(UserView { id, username, slug }),
            _ => None,
        }
    }

    fn from_json(json: &Json) -> (r: Option<User>) {
        let id = json.u32_at("id")?;
        let username = json.text_at("username")?;
        let slug = json.text_at("slug")?;
        Some(User { id, username, slug })
    }
}

} // verus!
