//! Audio device snapshots for a status bar.
//!
//! The audio server reports its output devices through callbacks fired from a
//! blocking event loop. This library holds the rules that turn those reports
//! into complete, immutable snapshots: how one device record becomes a
//! [`device::Sink`], how the records of one enumeration are gathered and
//! released on its end marker, what the thread that owns the loop does on
//! each event, and which speaker icon a snapshot calls for.
pub mod accumulator;
pub mod bridge;
pub mod channel;
pub mod device;
pub mod history;
pub mod icon;
pub mod native;
pub mod snapshot;
