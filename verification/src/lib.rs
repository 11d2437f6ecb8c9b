//! A single-flight cache for a short-lived bearer credential.
//!
//! The credential comes from a slow source. The cache decides, for each
//! caller, whether to serve what it holds, to wait for the one permit behind a
//! fetch in flight, or to start the one fetch that is due; and it forgets a
//! credential once its time has passed. The library holds the decisions. The
//! program around it waits, fetches and sleeps, and reports back what
//! happened.

pub mod cache;
pub mod clock;
pub mod expiry;
pub mod json;
pub mod logger;
pub mod protocol;
pub mod respond;
pub mod source;
pub mod text;
