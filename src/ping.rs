use vstd::prelude::*;

verus! {

/// A simple ping configuration: timeout (seconds), number of packets,
/// time-to-live and pause between packets (seconds). Setters ignore zero.
#[derive(Clone, Copy, Debug, PartialEq, Eq, Structural)]
pub struct Ping {
    pub timeout: u64,
    pub packets: u32,
    pub ttl: u64,
    pub sleep: u64,
}

impl Default for Ping {
    fn default() -> (r: Ping)
        ensures
            r == (Ping { timeout: 1, packets: 4, ttl: 64, sleep: 1 }),
    {
        Ping { timeout: 1, packets: 4, ttl: 64, sleep: 1 }
    }
}

impl Ping {
    pub fn with_timeout(self, t: u64) -> (r: Ping)
        ensures
            r == (if t > 0 { Ping { timeout: t, ..self } } else { self }),
    {
        if t > 0 {
            Ping { timeout: t, ..self }
        } else {
            self
        }
    }

    pub fn timeout(&self) -> (r: u64)
        ensures
            r == self.timeout,
    {
        self.timeout
    }

    pub fn with_packets(self, t: u32) -> (r: Ping)
        ensures
            r == (if t > 0 { Ping { packets: t, ..self } } else { self }),
    {
        if t > 0 {
            Ping { packets: t, ..self }
        } else {
            self
        }
    }

    pub fn packets(&self) -> (r: u32)
        ensures
            r == self.packets,
    {
        self.packets
    }

    pub fn with_ttl(self, t: u64) -> (r: Ping)
        ensures
            r == (if t > 0 { Ping { ttl: t, ..self } } else { self }),
    {
        if t > 0 {
            Ping { ttl: t, ..self }
        } else {
            self
        }
    }

    pub fn ttl(&self) -> (r: u64)
        ensures
            r == self.ttl,
    {
        self.ttl
    }
}

} // verus!
