//! Access to one collection of a remote key-value document store: the
//! create / read / update / delete operations, the change counter that tells
//! list views to re-fetch, and an in-memory store that obeys the same
//! contract as the remote one.

pub mod error;
pub mod tracker;
pub mod store;
pub mod accessor;
pub mod laws;
pub mod user;
pub mod reply;
pub mod view;
