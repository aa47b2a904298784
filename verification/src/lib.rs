//! Proxy providers, health checking and proxy-group selection for a
//! rule-based traffic router.
//!
//! A provider owns a set of outbound proxy handles and one health-check
//! engine. Groups pick, out of the members that providers show, the proxy
//! for the next connection, each by its own strategy.
//!
//! The library decides and keeps no time: it neither probes nor waits. It
//! is told what happened and says what is to be done, so everything in it
//! is an ordinary function of its arguments.
//!
//! - [`config`]: the proxy and group records of a configuration, and the
//!   rules on group records.
//! - [`health`]: the health-check engine.
//! - [`providers`]: providers of fixed and of fetched handle lists.
//! - [`member`]: the members a group selects from, and which are live.
//! - [`registry`]: resolving a group's members against what exists.
//! - [`group`]: the five kinds of group.
//! - [`error`], [`text`], [`yaml`]: errors, and helpers for their messages.
pub mod config;
pub mod error;
pub mod group;
pub mod health;
pub mod member;
pub mod providers;
pub mod registry;
pub mod text;
pub mod yaml;
