//! A credential vault and a publishing engine for posting one message to
//! several social platforms.
//!
//! The vault ([`crypto`], [`config`]) keeps every account secret encrypted
//! at rest under a key that lives in memory only. The engine turns one text,
//! with an optional image, into the calls of each platform: an adapter
//! ([`bluesky`], [`mastodon`], [`microblog`], [`nostr`]) says step by step
//! what has to be done ([`session`], [`social`]), the caller does it and
//! hands back what came of it, and [`publish`] folds the outcomes of all
//! chosen platforms into one result. [`model`] is the application's state
//! and its reaction to every message.
//!
//! Nothing here touches the network, the disk or the environment. What
//! other crates compute stands behind contracts that are believed rather
//! than proved, each in a file of its own: [`aead`], [`kdf`], [`wipe`],
//! [`signer`], [`clock`], [`mime`] and [`std_text`], and the `serde_json`
//! part of [`json`].

pub mod aead;
pub mod bluesky;
pub mod clock;
pub mod config;
pub mod crypto;
pub mod json;
pub mod kdf;
pub mod mastodon;
pub mod microblog;
pub mod mime;
pub mod model;
pub mod nostr;
pub mod publish;
pub mod session;
pub mod signer;
pub mod social;
pub mod std_text;
pub mod text;
pub mod validate;
pub mod wipe;
