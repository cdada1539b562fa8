//! A desktop Reddit client's core: the feed controller that owns post
//! lists, pagination and loading state; the API client's request building
//! and response classification; and the credential-settings records. The
//! renderer and the HTTP transport sit outside and talk to it in plain
//! values.

/// Request building and response classification for the provider's OAuth2
/// token endpoint and listing endpoints.
pub mod api;
/// The feed controller: a state machine over posts, cursor, loading and
/// error state, with single-flight fetches and the infinite-scroll trigger.
pub mod feed;
/// Trusted accessors over JSON documents and the verified decoders of the
/// provider's response shapes.
pub mod json;
/// Post records and the renderer's image-selection rules.
pub mod post;
/// The stored settings record.
pub mod settings;
