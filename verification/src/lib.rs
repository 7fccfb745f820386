//! The decisions of an HTTP proxy that serves two kinds of request on one
//! port: CONNECT requests, for which it opens a tunnel of raw bytes to the
//! `host:port` that the client names, and requests for paths under one fixed
//! prefix, which it sends on to one fixed upstream, counting the images that
//! the upstream delivers.
//!
//! The library reads no socket and keeps no clock. For each request it says
//! what is to be done ([`dispatch::dispatch`]); for each step of a tunnel,
//! what comes next ([`tunnel::Tunnel::step`]); for each reply of the
//! upstream, what goes back to the client ([`forward::Pending::on_response`]).
//! The caller does the listening, the dialling and the copying, and tells the
//! library how each went.
//!
//! Request targets are read by the `http` crate's URI parser. What it returns
//! is taken on trust ([`uri::uri_parts`]); everything that is decided from
//! it is proved.

pub mod classify;
pub mod config;
pub mod dispatch;
pub mod forward;
pub mod message;
pub mod text;
pub mod tunnel;
pub mod uri;
