//! The workflow engine of a chat assistant that provisions accounts on a
//! media server and keeps track of requests for new media.
//!
//! The library decides and records; it sends nothing. Chat updates, HTTP
//! calls and webhook events come in as plain values, and what goes out is a
//! list of effects, a notification batch or an answer for the caller to
//! deliver. Where a flow has to wait for an outside service, one function
//! says which call to make and a second takes what came of it.
//!
//! - [`bot`]: the per-chat dialogue — states, routing, the handlers of
//!   registration, password reset, account deletion and media requests, and
//!   the engine that puts them together.
//! - [`auth`]: the user directory, one registration per chat.
//! - [`ledger`]: the request ledger, one request per catalog item, and the
//!   status changes a request may go through.
//! - [`webhook`]: arrival events, each series announced once; adjudication
//!   with its notice to the requester; the batch that fetches missing metadata.
//! - [`scraper`] and [`provisioning`]: what to ask the metadata catalogs and
//!   the media server, and how to read their answers.
//! - [`database`], [`static_files`], [`settings`], [`archive`]: upkeep of the
//!   database, the embedded front end, settings given as text, and the
//!   filing of downloaded episodes.
//! - [`models`], [`messages`], [`text`], [`clock`]: rows, wording, character
//!   work, and the wall clock.
//!
//! Every function is specified over views in which text is a `Seq<char>`.
//! The properties that hold across calls are stated as proof functions
//! whose names begin with `law_`.

pub mod archive;
pub mod auth;
pub mod bot;
pub mod clock;
pub mod database;
pub mod ledger;
pub mod messages;
pub mod models;
pub mod provisioning;
pub mod scraper;
pub mod settings;
pub mod static_files;
pub mod text;
pub mod webhook;
