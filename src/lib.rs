//! Status client library for Hame energy storage appliances: the status payload
//! codec, the typed field decoder, the snapshot transform, the event-loop state
//! machine and the line-protocol export, each with a verified contract.

pub mod error;
pub mod number;
pub mod units;
pub mod text;
pub mod codec;
pub mod device;
pub mod event_loop;
pub mod influx;
