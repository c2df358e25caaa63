//! Session-collection orchestrator core: verified decision logic for
//! negotiating a notarization session, binding a proving process to a
//! forwarded application connection, supervising two background tasks,
//! conducting one HTTP exchange over the secured channel, and finalizing
//! the run into a notarized artifact.
pub mod b64;
pub mod collector;
pub mod jsonio;
pub mod phase;
pub mod reqplan;
pub mod strutil;
pub mod supervisor;
pub mod urlinfo;
