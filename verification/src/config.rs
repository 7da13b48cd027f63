//! The configuration the collaborating front end supplies: where the local
//! record store lives, the two auth tokens, the target page, and an
//! optional user-agent override.

use vstd::prelude::*;

verus! {

#[derive(Debug, Clone, PartialEq, Eq)]
pub struct DatabaseConfig {
    pub host: String,
}

#[derive(Debug, Clone, PartialEq, Eq)]
pub struct NotionConfig {
    /// The long-lived session token sent as the `token_v2` cookie.
    pub token_v2: String,
    /// The short-lived file-access token sent when fetching signed URLs.
    pub file_token: String,
    /// The target page identifier, dashed or not.
    pub page_id: String,
    /// Overrides the default browser user-agent when present.
    pub user_agent: Option<String>,
}

#[derive(Debug, Clone, PartialEq, Eq)]
pub struct Config {
    pub database: DatabaseConfig,
    pub notion: NotionConfig,
}

} // verus!
