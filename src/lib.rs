//! Runs a command and reports its start and its end to a chat webhook.
//!
//! The library holds the logic: the duration text, the command line, the
//! lifecycle of a run as a state machine, and the rendering of each lifecycle
//! event into the webhook's JSON payload. Events are stamped with the UTC time
//! at which they are made. Running the child process, measuring how long it
//! ran and posting over HTTP are left to the caller, which drives a
//! [`lifecycle::Run`] by reporting what happened and doing what it asks next.
pub mod clock;
pub mod duration;
pub mod event;
pub mod json;
pub mod discord;
pub mod lifecycle;
pub mod sender;
