//! A thin account gateway in front of a hosted auth and database service.
//!
//! The gateway creates accounts, reads a user's rows and patches them. It
//! keeps nothing itself: every operation is one or two calls to the upstream
//! service and a translation of what comes back.
//!
//! The crate holds the decisions of the gateway as verified state machines.
//! Each operation is a function from the current state and the latest
//! upstream event to the next state and the action to perform. The caller
//! performs the action (an HTTP call, a body read, a clock read) and hands
//! the resulting event back, until the action is the reply.
//!
//! - [`config`]: the start-up configuration and the plan tiers.
//! - [`models`]: the plain data of requests, responses and identities.
//! - [`json`]: JSON documents as `serde_json` builds and reads them.
//! - [`upstream`]: the upstream calls, described as values.
//! - [`exchange`]: events, actions and replies.
//! - [`sign_up`]: account creation, a saga of two calls.
//! - [`records`]: reading and patching a user's rows.

pub mod config;
pub mod exchange;
pub mod json;
pub mod models;
pub mod records;
pub mod sign_up;
pub mod upstream;
