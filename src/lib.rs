//! Decisions of a UDP bridge that feeds quantum gate instructions to a
//! simulator backend: the message schema, packet framing, the receiving
//! policy, the runner's instruction accumulator and the backend run.
pub mod backend;
pub mod framing;
pub mod message;
pub mod receiver;
pub mod runner;
pub mod sender;
