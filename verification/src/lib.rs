//! Session core of a terminal front-end for browsing fetched page digests.
//!
//! The library covers the modal input state machine, the fetch
//! coordination rules, the tolerant result decoder, and list navigation
//! over the decoded entries. Terminal painting and the outside services
//! that retrieve and extract page content are left to the surrounding
//! application.

pub mod coordinator;
pub mod decode;
pub mod digest;
pub mod json;
pub mod mock;
pub mod session;
pub mod types;
pub mod utilities;
