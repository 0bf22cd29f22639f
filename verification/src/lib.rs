//! A minimal federation-discovery identity service: one configured actor,
//! a WebFinger resolver for its `acct:` resource, an ActivityPub actor
//! document responder with content negotiation, and an inbox acceptor.

pub mod actor;
pub mod identity;
pub mod inbox;
pub mod response;
pub mod strings;
pub mod webfinger;
