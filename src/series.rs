use vstd::prelude::*;

use crate::packet::Reply;
use crate::request::PingRequest;
use crate::response::{response_of, PingResponse};

verus! {

/// Probes in a series unless told otherwise.
pub const DEFAULT_COUNT: u64 = 4;

/// Microseconds of pause between two probes unless told otherwise.
pub const DEFAULT_SLEEP: u64 = 1_000_000;

/// How many probes a series sends and how long it pauses between two of them
/// (microseconds). The count is at least 1.
#[derive(Clone, Copy, Debug, PartialEq, Eq, Structural)]
pub struct PingSeries {
    pub count: u64,
    pub sleep: u64,
}

/// The probe with sequence number `n` of a series built on `template`.
pub open spec fn probe_of(template: PingRequest, n: int) -> PingRequest {
    PingRequest { sequence_number: n as u64, ..template }
}

impl Default for PingSeries {
    fn default() -> (r: PingSeries)
        ensures
            r == (PingSeries { count: DEFAULT_COUNT, sleep: DEFAULT_SLEEP }),
    {
        PingSeries { count: DEFAULT_COUNT, sleep: DEFAULT_SLEEP }
    }
}

impl PingSeries {
    pub fn with_sleep(self, s: u64) -> (r: PingSeries)
        ensures
            r == (PingSeries { sleep: s, ..self }),
    {
        PingSeries { sleep: s, ..self }
    }

    /// Sets the number of probes; zero leaves the number as it was.
    pub fn with_number_of_packets(self, n: u64) -> (r: PingSeries)
        ensures
            r == (if n > 0 { PingSeries { count: n, ..self } } else { self }),
    {
        if n > 0 {
            PingSeries { count: n, ..self }
        } else {
            self
        }
    }

    pub fn number_of_packets(&self) -> (r: u64)
        ensures
            r == self.count,
    {
        self.count
    }

    /// Starts a run of this series with probes built on `request`: probe `i`
    /// is `request` with sequence number `i`, for `i` from 1 to the count.
    pub fn start(self, request: PingRequest) -> (r: SeriesRun)
        requires
            self.count >= 1,
        ensures
            r.wf(),
            r.series() == self,
            r.template() == request,
            r.results() == Seq::<PingResponse>::empty(),
    {
        SeriesRun { series: self, template: request, results: Vec::new() }
    }
}

/// A series in progress: the results gathered so far, one per probe sent, in
/// the order of their sequence numbers.
pub struct SeriesRun {
    series: PingSeries,
    template: PingRequest,
    results: Vec<PingResponse>,
}

impl SeriesRun {
    pub closed spec fn series(&self) -> PingSeries {
        self.series
    }

    pub closed spec fn template(&self) -> PingRequest {
        self.template
    }

    pub closed spec fn results(&self) -> Seq<PingResponse> {
        self.results@
    }

    /// At most `count` results, the `k`-th of them (from 0) for the probe
    /// with sequence number `k + 1`.
    pub open spec fn wf(&self) -> bool {
        &&& self.results().len() <= self.series().count
        &&& forall|k: int|
            0 <= k < self.results().len() ==> (#[trigger] self.results()[k]).request == probe_of(
                self.template(),
                k + 1,
            )
    }

    /// The next probe to send, or `None` once every probe has its result.
    pub fn next_probe(&self) -> (r: Option<PingRequest>)
        requires
            self.wf(),
        ensures
            r.is_some() <==> self.results().len() < self.series().count,
            r.is_some() ==> r.unwrap() == probe_of(self.template(), self.results().len() + 1 as int),
    {
        let done = self.results.len() as u64;
        if done < self.series.count {
            Some(self.template.with_sequence_number(done + 1))
        } else {
            None
        }
    }

    /// Records the outcome of the next probe from what arrived while it
    /// waited (`None`: nothing before its timeout). Returns its result, and
    /// the pause to make before the next probe (`None` after the last one).
    pub fn record(&mut self, reply: Option<Reply>) -> (r: (PingResponse, Option<u64>))
        requires
            old(self).wf(),
            old(self).results().len() < old(self).series().count,
        ensures
            final(self).wf(),
            final(self).series() == old(self).series(),
            final(self).template() == old(self).template(),
            r.0 == response_of(probe_of(old(self).template(), old(self).results().len() + 1 as int), reply),
            final(self).results() == old(self).results().push(r.0),
            r.1 == (if final(self).results().len() < final(self).series().count {
                Some(old(self).series().sleep)
            } else {
                None::<u64>
            }),
    {
        let n = self.results.len() as u64 + 1;
        let probe = self.template.with_sequence_number(n);
        let response = probe.response(reply);
        self.results.push(response);
        let pause = if (self.results.len() as u64) < self.series.count {
            Some(self.series.sleep)
        } else {
            None
        };
        (response, pause)
    }

    /// Ends the run. With a transport failure the run yields that error and
    /// none of its results; without one every probe has its result, and the
    /// run yields them all, in order of sequence number.
    pub fn conclude<E>(self, failure: Option<E>) -> (r: Result<Vec<PingResponse>, E>)
        requires
            self.wf(),
            failure.is_none() ==> self.results().len() == self.series().count,
        ensures
            failure.is_some() ==> r == Err::<Vec<PingResponse>, E>(failure.unwrap()),
            failure.is_none() ==> r is Ok && r->Ok_0@ == self.results(),
            failure.is_none() ==> r->Ok_0@.len() == self.series().count,
            failure.is_none() ==> forall|k: int|
                0 <= k < r->Ok_0@.len() ==> (#[trigger] r->Ok_0@[k]).request.sequence_number
                    == k + 1 && r->Ok_0@[k].request == probe_of(self.template(), k + 1),
    {
        match failure {
            Some(e) => Err(e),
            None => Ok(self.results),
        }
    }
}

} // verus!
