//! The verified core of a community chat bot.
//!
//! The bot listens to one ordered stream of gateway events and hands each of
//! them to a fixed set of services: experience tracking with a decaying
//! cooldown, the `/rank`, `/top` and `/info` commands, and reaction roles.
//!
//! Nothing in this crate talks to the network or to the database. A service
//! answers an event with a piece of work: a small state machine that names the
//! next outside call it needs (a query, a response, a wait) and continues once
//! the caller hands back what that call returned. The surrounding program owns
//! the gateway connection, the HTTP client, the database pool and the async
//! runtime. The one thing that the crate reads for itself is the clock, for
//! the cooldowns of the experience service.

pub mod text;

pub mod bot;
pub mod command;
pub mod event;
pub mod model;
pub mod service;
