//! The typed shapes of the remote service's responses.
//!
//! Every successful response wraps its payload in [`APIResponse`], the uniform
//! envelope (`data` plus an optional permissions block). Optional fields are
//! optional because the service omits them contextually; the small
//! visibility, status and role codes are kept as plain integers so that
//! values the client has not enumerated still round-trip unchanged.

use vstd::prelude::*;

verus! {

/// The uniform envelope of every successful response.
#[derive(Clone, Debug)]
pub struct APIResponse<T> {
    pub data: T,
    pub abilities: Option<Abilities>,
}

/// The permissions block of an envelope, possibly nested per sub-resource.
#[derive(Clone, Debug)]
pub struct Abilities {
    pub base: BaseAbilities,
    pub group_user: BaseAbilities,
    pub repo: BaseAbilities,
}

/// Read, update and destroy permission flags.
#[derive(Clone, Debug, Default)]
pub struct BaseAbilities {
    pub read: Option<bool>,
    pub update: Option<bool>,
    pub destroy: Option<bool>,
}

/// The part every entity shares: the service-assigned identifier and
/// timestamps, and the serializer tag.
#[derive(Clone, Debug, Default)]
pub struct Object {
    pub id: u32,
    pub typ: Option<String>,
    pub created_at: String,
    pub updated_at: String,
    pub _serializer: String,
}

/// A user, as embedded in other payloads.
#[derive(Clone, Debug, Default)]
pub struct UserSerializer {
    pub object: Object,
    pub name: String,
    pub login: String,
    pub avatar_url: String,
    pub books_count: Option<u32>,
    pub public_books_count: Option<u32>,
    pub followers_count: u32,
    pub following_count: u32,
    pub public: Option<u8>,
    pub description: Option<String>,
}

/// A group.
#[derive(Clone, Debug, Default)]
pub struct GroupSerializer {
    pub object: Object,
    pub name: String,
    pub login: String,
    pub avatar_url: String,
    pub owner_id: Option<u32>,
    pub books_count: Option<u32>,
    pub public_books_count: Option<u32>,
    pub topics_count: u32,
    pub public_topics_count: u32,
    pub members_count: u32,
    pub public: u8,
    pub description: Option<String>,
}

/// A membership association between a group and a user.
#[derive(Clone, Debug, Default)]
pub struct GroupUserSerializer {
    pub object: Object,
    pub group_id: u32,
    pub user_id: u32,
    pub group: Option<UserSerializer>,
    pub user: UserSerializer,
    pub role: u8,
    pub visibility: u8,
    pub status: u8,
}

/// A repository ("book").
#[derive(Clone, Debug, Default)]
pub struct BookSerializer {
    pub object: Object,
    pub slug: String,
    pub name: String,
    pub user_id: u32,
    pub description: Option<String>,
    pub creator_id: Option<u32>,
    pub public: u8,
    pub items_count: u32,
    pub likes_count: u32,
    pub watches_count: u32,
    pub content_updated_at: Option<String>,
    pub namespace: Option<String>,
    pub user: Option<UserSerializer>,
    pub toc: Option<String>,
    pub toc_yml: Option<String>,
    pub pinned_at: Option<String>,
    pub archived_at: Option<String>,
}

/// A document, with its body in whichever representations the service chose
/// to include.
#[derive(Clone, Debug, Default)]
pub struct DocSerializer {
    pub object: Object,
    pub slug: String,
    pub title: String,
    pub description: Option<String>,
    pub user_id: u32,
    pub book_id: u32,
    pub format: String,
    pub public: u8,
    pub status: u8,
    pub view_status: u8,
    pub read_status: u8,
    pub likes_count: Option<u32>,
    pub read_count: Option<u32>,
    pub comments_count: Option<u32>,
    pub content_updated_at: String,
    pub published_at: Option<String>,
    pub first_published_at: Option<String>,
    pub draft_version: Option<u16>,
    pub last_editor_id: Option<u32>,
    pub word_count: u32,
    pub cover: Option<String>,
    pub custom_description: Option<String>,
    pub last_editor: Option<UserSerializer>,
    pub book: Option<BookSerializer>,
    pub hits: Option<u32>,
    pub creator: Option<UserSerializer>,
    pub body: Option<String>,
    pub body_draft: Option<String>,
    pub body_html: Option<String>,
    pub body_lake: Option<String>,
    pub body_draft_lake: Option<String>,
    pub deleted_at: Option<String>,
}

} // verus!
