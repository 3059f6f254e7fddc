//! A webhook endpoint that reacts to GitHub pull-request `closed` events:
//! when a pull request was merged into the repository's default branch
//! without a milestone, it assigns the most recently created milestone.
//! Inbound deliveries are authenticated with a keyed digest of the raw body;
//! at most one read and one write go out per delivery, and every API
//! failure propagates instead of being reported as success.

pub mod event;
pub mod github;
pub mod handler;
pub mod numstr;
pub mod parse;
pub mod signature;
pub mod webhook;
