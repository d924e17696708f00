//! A client library for the MediaWiki query API, specialised to pick a
//! pseudo-random article beneath a Wikipedia category.
//!
//! The verified core covers the query builders, the percent-encoding of
//! titles, the response decoder, the pagination driver, and the random
//! article resolver.  Network transport is left to the caller: the
//! pagination driver and the resolver are step functions that say which
//! request to send next and what to do with each decoded response.

pub mod api;
pub mod decode;
pub mod error;
pub mod member;
pub mod paginate;
pub mod resolve;
pub mod url;
