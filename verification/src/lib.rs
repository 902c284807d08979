//! Core logic of a terminal news reader: fixed-width text reflow,
//! a forward-only section cursor, a paginated story collection with a
//! selection cursor, and the navigation state machine that turns input
//! events into state transitions and fetch requests.
//!
//! Network fetching, terminal rendering and key decoding are outside
//! collaborators: callers perform them and hand plain values in and out.

pub mod nav;
pub mod reflow;
pub mod sections;
pub mod stories;
