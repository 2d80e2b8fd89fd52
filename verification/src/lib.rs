//! The message-passing core of a desktop client for a federated social
//! network.
//!
//! A rendering loop that must never block is paired with a network actor
//! that must never touch the state of the loop. The two talk through two
//! queues of typed messages, and the loop remembers in its caches what it
//! has asked for, so that nothing is asked for twice.
//!
//! - [`model`]: posts, images, profiles and references to content.
//! - [`messages`]: the commands to the actor and the messages to the loop.
//! - [`keys`] and [`cache`]: the caches, whose every key is absent,
//!   pending or loaded.
//! - [`app`]: the state of the loop and what one tick makes of one message.
//! - [`remote`]: what the remote service is asked and what it answers.
//! - [`bsky_actor`]: the dispatcher of the actor and its jobs.
//! - [`laws`]: what holds of every run of the loop and of every job.
//!
//! Nothing in this crate waits, reads or sends. Whoever drives it hands
//! in what arrived and hands on what is queued.

pub mod keys;
pub mod cache;
pub mod model;
pub mod messages;
pub mod app;
pub mod remote;
pub mod bsky_actor;
pub mod laws;
