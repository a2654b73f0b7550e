//! The core of a small marketplace: who may read and write which post, and
//! what a post looks like when it is shown.
//!
//! Users register and log in; the session of a request names its user.
//! Posts are offers or requests. Every operation takes the collaborators it
//! works on as arguments: the store of users and posts ([`database`], with
//! its rows in [`rows`]), the session of the request ([`session`]) and the
//! image host ([`images`]), each held in memory, so that a caller can run
//! the operations on values of its own. The operations themselves stand in
//! [`auth`] and [`posts`]; what they decide once a collaborator has answered
//! is public too, for callers whose collaborators are elsewhere. [`laws`]
//! states what holds across operations.

pub mod auth;
pub mod composer;
pub mod database;
pub mod error;
pub mod images;
pub mod laws;
pub mod outside;
pub mod posts;
pub mod rows;
pub mod session;
pub mod structs;
pub mod text;
