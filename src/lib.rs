//! ICMP echo (ping) protocol engine: probes, their replies, series of probes
//! and the statistics derived from a finished series.
//!
//! Durations are whole microseconds held in a `u64`; addresses are IPv4.

mod address;
mod packet;
mod ping;
mod request;
mod response;
mod series;
mod summary;

pub use address::Ipv4Address;
pub use packet::{echo_request_packet, reply_kind, IcmpKind, Reply};
pub use ping::Ping;
pub use request::PingRequest;
pub use response::PingResponse;
pub use series::{PingSeries, SeriesRun};
pub use summary::PingSummary;
