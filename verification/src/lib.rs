//! Listener core for a desktop accessibility bus.
//!
//! The crate models the observable pipeline of a diagnostic bus listener:
//! raw messages are filtered down to signals, signals are decoded into
//! lifecycle events about accessible objects, each event is dispatched to
//! its per-kind reaction, and for an `Add` event the outcomes of a fixed
//! set of remote property probes are turned into report lines.  The
//! asynchronous transport itself (connection setup, awaiting messages,
//! issuing remote calls) lives outside this crate; every decision and
//! every produced line of output is specified and verified here.

pub mod bus;
pub mod dispatch;
pub mod events;
pub mod filter;
pub mod inspect;
pub mod lines;
pub mod pipeline;
