//! A participant in the Connect protocol that scrobbles what the account
//! plays.
//!
//! [`spirc`] holds the protocol engine, which keeps one device present on the
//! broadcast channel of its account, and [`scrobbler`] the pipeline that
//! reports the playing track to a listening-history service. Neither does any
//! I/O: both say what is to be done and are told what came of it.
//! [`spirc_theorems`] and [`scrobbler_theorems`] state what holds of them
//! whatever they are fed.

pub mod audio_backend;
pub mod config;
pub mod metadata;
pub mod protocol;
pub mod scrobbler;
pub mod scrobbler_theorems;
pub mod spirc;
pub mod spirc_theorems;
pub mod util;
