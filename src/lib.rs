//! Picks a few recent papers, has their title and abstract translated by a
//! chat-completion service, and posts the result to a chat channel.
//!
//! The network calls live outside this library; what stands here is every
//! decision around them: which papers are picked, what is sent, how each
//! HTTP status is read, and what happens to an item whose call failed.
pub mod status;

pub mod model;
pub mod sampler;
pub mod translator;
pub mod publisher;
pub mod pipeline;
