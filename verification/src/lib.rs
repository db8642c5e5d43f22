//! The core of an agent engine: what a session does with what comes in, with what
//! the model replies and with what its tools return.
//!
//! The library decides and computes. It neither waits nor does it reach outside:
//! calling models, running tools, asking plugins and reading and writing the store
//! are up to whoever drives it. Where such steps and decisions alternate, the library
//! offers a machine that is told what happened and says what is to be done next.
//!
//! Records and their models:
//! - [`model`]: how values are modelled and copied
//! - [`text`], [`json`], [`idset`]: text, JSON text, sets of names
//! - [`message`], [`input`], [`chat`]: events, messages, requests and replies
//!
//! A session:
//! - [`session`]: waiting, taking a batch, running a turn
//! - [`queue`]: the two queues, and when they may be consumed
//! - [`turn`]: a turn, from the first call of the model to the last reply
//! - [`retry`]: calling the model again when a call fails
//! - [`interrupt`]: what is left to do when a turn is cut short
//! - [`builders`]: requests, models, replies
//! - [`history`]: events to stored messages and back
//! - [`normalize`]: keeping inbound images small
//! - [`compression`], [`rollback`], [`title`], [`snapshot`]: what else a session does
//! - [`dispatch`], [`emit`]: the way of an event out of a session
//!
//! The engine around the sessions:
//! - [`engine`]: the table of sessions, and what may be asked of them
//! - [`provider_ops`]: providers in line with the configuration
//! - [`init`], [`error`]: getting ready, and what can go wrong
//!
//! An engine that runs a single conversation:
//! - [`dispatcher`], [`turn_executor`], [`message_queue`]: input, turns, queues
//! - [`stream_session`]: one call of a model
//! - [`conversation`]: a conversation without tools
//! - [`handle`]: the user's side
pub mod builders;
pub mod chat;
pub mod compression;
pub mod conversation;
pub mod dispatch;
pub mod dispatcher;
pub mod emit;
pub mod engine;
pub mod error;
pub mod handle;
pub mod history;
pub mod idset;
pub mod init;
pub mod input;
pub mod interrupt;
pub mod json;
pub mod message;
pub mod message_queue;
pub mod model;
pub mod normalize;
pub mod provider_ops;
pub mod queue;
pub mod retry;
pub mod rollback;
pub mod session;
pub mod snapshot;
pub mod stream_session;
pub mod text;
pub mod title;
pub mod turn;
pub mod turn_executor;
