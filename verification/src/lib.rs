//! The core of an editor for articles that are kept as documents in a git repository: the
//! codec of a document's header, the article store, and the tracker of the repository's
//! state. The library decides and plans; reading and writing files, walking the repository
//! and running the git client are left to the caller.

pub mod articles;
pub mod codec_laws;
pub mod commit;
pub mod error;
pub mod frontmatter;
pub mod git;
pub mod git_flags;
pub mod header;
pub mod instant;
pub mod listing;
pub mod listing_laws;
pub mod paths;
pub mod push;
pub mod settings;
pub mod store_laws;
pub mod text;
pub mod yaml;
