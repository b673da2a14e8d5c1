//! Talking to a music-streaming web API and to a local `spotifyd` daemon:
//! which requests to make, how to read the answers, and which commands to run.
//!
//! Nothing here touches the network, the environment or a subprocess. Callers
//! carry out the requests and commands that these functions describe and hand
//! the raw answers back.

pub mod dbus;
pub mod decode;
pub mod json;
pub mod model;
pub mod process;
pub mod request;
pub mod session;
