//! Plain data carried by the surrounding backend.
//!
//! The subsystems that produce and consume these values (registration,
//! login, tag management) live outside this library; the types themselves
//! are ordinary records and are kept here so that callers and the
//! fetch-and-cache core agree on them.

use vstd::prelude::*;

verus! {

/// Identifier of a registered user.
pub type UserId = i64;

/// A user's login name.
pub type Username = String;

/// Identifier of a torrent tag.
pub type TagId = i64;

/// A tag that can be attached to a torrent listing.
#[derive(Debug, Clone)]
pub struct TorrentTag {
    pub tag_id: TagId,
    pub name: String,
}

/// Payload of a registration request.
#[derive(Debug, Clone)]
pub struct Register {
    pub username: String,
    pub email: Option<String>,
    pub password: String,
    pub confirm_password: String,
    pub invitation: Option<String>,
}

/// Payload of a login request.
#[derive(Debug, Clone)]
pub struct Login {
    pub login: String,
    pub password: String,
}

/// An authentication token presented by a client.
#[derive(Debug, Clone)]
pub struct Token {
    pub token: String,
}

} // verus!
