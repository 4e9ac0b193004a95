//! The port-scan state machine.
//!
//! A scan probes every port of an inclusive range, at most `max_concurrency`
//! probes in flight at once, and classifies each probe's connect result.
//! The surrounding process performs the actual connects and reports each
//! result back as a [`ProbeResult`]; this module holds every decision: when
//! a probe may launch, which port it probes, how a connect result is
//! classified, how outcomes are recorded, and what the final summary says.

use vstd::prelude::*;
use vstd::string::*;
use crate::decimal::{dec_chars, port_string};
use crate::limiter::ThreadLimiter;
use crate::sink::{Outcome, ResultSink};

verus! {

/// One scan request: host, inclusive port range, worker limit, and the
/// per-connection timeout.  The caller is responsible for an ordered range
/// and positive limits.
pub struct ScanRequest {
    pub host: String,
    pub start_port: u16,
    pub end_port: u16,
    pub max_concurrency: usize,
    pub timeout_ms: u64,
}

impl ScanRequest {
    pub open spec fn valid(&self) -> bool {
        &&& self.start_port <= self.end_port
        &&& self.max_concurrency > 0
        &&& self.timeout_ms > 0
    }

    /// The number of ports in the inclusive range.
    pub open spec fn port_count(&self) -> int {
        self.end_port - self.start_port + 1
    }
}

/// How one TCP connect attempt ended, as observed by the prober.
#[derive(Clone, Copy, Debug, PartialEq, Eq, Structural)]
pub enum ConnectResult {
    /// The connection was established within the timeout.
    Connected,
    /// The connect failed because the timeout elapsed.
    TimedOutError,
    /// The connect failed for any other reason: refused, unreachable,
    /// reset.
    OtherError,
}

/// The classification policy: open on success, timed out on a timeout
/// failure, refused on every other failure.  No other outcome exists.
pub open spec fn classification(c: ConnectResult) -> Outcome {
    match c {
        ConnectResult::Connected => Outcome::Open,
        ConnectResult::TimedOutError => Outcome::TimedOut,
        ConnectResult::OtherError => Outcome::Refused,
    }
}

/// Classify one connect result.
pub fn classify_connect(c: ConnectResult) -> (r: Outcome)
    ensures
        r == classification(c),
{
    match c {
        ConnectResult::Connected => Outcome::Open,
        ConnectResult::TimedOutError => Outcome::TimedOut,
        ConnectResult::OtherError => Outcome::Refused,
    }
}

/// What one probe reported: a classified outcome, or a silent skip when
/// the port's target address failed to resolve (such a port is omitted
/// from every log and counter).
#[derive(Clone, Copy, Debug, PartialEq, Eq, Structural)]
pub enum ProbeResult {
    Classified(Outcome),
    Skipped,
}

/// The target address string handed to the resolver: `host:port`.
pub fn probe_address(host: &str, port: u16) -> (r: String)
    ensures
        r@ == host@ + seq![':'] + dec_chars(port as nat),
{
    let mut addr = String::from_str(host);
    proof {
        reveal_strlit(":");
    }
    addr.append(":");
    let digits = port_string(port);
    addr.append(digits.as_str());
    proof {
        assert(addr@ =~= host@ + seq![':'] + dec_chars(port as nat));
    }
    addr
}

/// The live state of one scan: which ports have been launched and
/// completed, how many probes are in flight, and what has been recorded.
pub struct ScanState {
    pub start_port: u16,
    pub end_port: u16,
    pub limiter: ThreadLimiter,
    pub sink: ResultSink,
    /// Probes launched so far; the next port to probe is
    /// `start_port + launched`.
    pub launched: u32,
    /// Probes that have finished, whether recorded or skipped.
    pub completed: u32,
    /// Finished probes whose address failed to resolve.
    pub skipped: u64,
}

impl ScanState {
    /// The number of ports in the inclusive range.
    pub open spec fn port_count(&self) -> int {
        self.end_port - self.start_port + 1
    }

    /// Probes launched but not yet completed.
    pub open spec fn in_flight(&self) -> int {
        self.limiter.running as int
    }

    pub open spec fn wf(&self) -> bool {
        &&& self.start_port <= self.end_port
        &&& self.limiter.wf()
        &&& self.limiter.limit > 0
        &&& self.sink.wf()
        &&& self.launched <= self.port_count()
        &&& self.completed + self.limiter.running == self.launched
        &&& self.sink.total() + self.skipped == self.completed
    }

    /// All ports launched and every probe completed.
    pub open spec fn finished(&self) -> bool {
        &&& self.launched == self.port_count()
        &&& self.completed == self.launched
    }

    /// Begin a scan.  The sink starts empty — the classification logs are
    /// truncated at scan start, so nothing accumulates across scans — and
    /// no probe is yet in flight.
    pub fn new(req: &ScanRequest) -> (r: ScanState)
        requires
            req.valid(),
        ensures
            r.wf(),
            r.start_port == req.start_port,
            r.end_port == req.end_port,
            r.limiter.limit == req.max_concurrency,
            r.launched == 0,
            r.completed == 0,
            r.skipped == 0,
            r.in_flight() == 0,
            r.sink.open_ports@ == Seq::<u16>::empty(),
            r.sink.timeout_ports@ == Seq::<u16>::empty(),
            r.sink.refused_ports@ == Seq::<u16>::empty(),
    {
        ScanState {
            start_port: req.start_port,
            end_port: req.end_port,
            limiter: ThreadLimiter::new(req.max_concurrency),
            sink: ResultSink::new(),
            launched: 0,
            completed: 0,
            skipped: 0,
        }
    }

    /// Whether another probe may launch now: a port remains and a permit
    /// is free.  A worker for which this is false must wait for a release
    /// or stop.
    pub fn can_launch(&self) -> (r: bool)
        requires
            self.wf(),
        ensures
            r == (self.launched < self.port_count() && self.in_flight() < self.limiter.limit),
    {
        let count: u32 = (self.end_port - self.start_port) as u32 + 1;
        self.launched < count && self.limiter.can_acquire()
    }

    /// Launch the next probe: take a permit and hand out the next port of
    /// the range.
    pub fn launch(&mut self) -> (port: u16)
        requires
            old(self).wf(),
            old(self).launched < old(self).port_count(),
            old(self).in_flight() < old(self).limiter.limit,
        ensures
            final(self).wf(),
            port == old(self).start_port + old(self).launched,
            final(self).launched == old(self).launched + 1,
            final(self).in_flight() == old(self).in_flight() + 1,
            final(self).in_flight() <= final(self).limiter.limit,
            final(self).start_port == old(self).start_port,
            final(self).end_port == old(self).end_port,
            final(self).limiter.limit == old(self).limiter.limit,
            final(self).completed == old(self).completed,
            final(self).skipped == old(self).skipped,
            final(self).sink == old(self).sink,
    {
        self.limiter.acquire();
        let port32: u32 = self.start_port as u32 + self.launched;
        self.launched = self.launched + 1;
        port32 as u16
    }

    /// Complete one in-flight probe: return its permit and record its
    /// result — one line in one log and one counter increment for a
    /// classified outcome, nothing for a resolution skip.
    pub fn complete(&mut self, port: u16, result: ProbeResult)
        requires
            old(self).wf(),
            old(self).in_flight() > 0,
        ensures
            final(self).wf(),
            final(self).completed == old(self).completed + 1,
            final(self).in_flight() == old(self).in_flight() - 1,
            final(self).launched == old(self).launched,
            final(self).start_port == old(self).start_port,
            final(self).end_port == old(self).end_port,
            final(self).limiter.limit == old(self).limiter.limit,
            result == ProbeResult::Classified(Outcome::Open) ==> {
                &&& final(self).sink.open_ports@ == old(self).sink.open_ports@.push(port)
                &&& final(self).sink.timeout_ports@ == old(self).sink.timeout_ports@
                &&& final(self).sink.refused_ports@ == old(self).sink.refused_ports@
                &&& final(self).skipped == old(self).skipped
            },
            result == ProbeResult::Classified(Outcome::TimedOut) ==> {
                &&& final(self).sink.open_ports@ == old(self).sink.open_ports@
                &&& final(self).sink.timeout_ports@ == old(self).sink.timeout_ports@.push(port)
                &&& final(self).sink.refused_ports@ == old(self).sink.refused_ports@
                &&& final(self).skipped == old(self).skipped
            },
            result == ProbeResult::Classified(Outcome::Refused) ==> {
                &&& final(self).sink.open_ports@ == old(self).sink.open_ports@
                &&& final(self).sink.timeout_ports@ == old(self).sink.timeout_ports@
                &&& final(self).sink.refused_ports@ == old(self).sink.refused_ports@.push(port)
                &&& final(self).skipped == old(self).skipped
            },
            result == ProbeResult::Skipped ==> {
                &&& final(self).sink == old(self).sink
                &&& final(self).skipped == old(self).skipped + 1
            },
    {
        proof {
            assert(old(self).sink.total() < u64::MAX);
            assert(old(self).skipped < u64::MAX);
        }
        self.limiter.release();
        self.completed = self.completed + 1;
        match result {
            ProbeResult::Classified(outcome) => {
                self.sink.record(port, outcome);
            },
            ProbeResult::Skipped => {
                self.skipped = self.skipped + 1;
            },
        }
    }

    /// Whether every port has been launched and every probe has finished.
    pub fn is_finished(&self) -> (r: bool)
        requires
            self.wf(),
        ensures
            r == self.finished(),
    {
        let count: u32 = (self.end_port - self.start_port) as u32 + 1;
        self.launched == count && self.completed == self.launched
    }

    /// The success summary of a finished scan, assembled from the sink's
    /// counters and the elapsed wall-clock time.
    pub fn summary(&self, elapsed_ms: u64) -> (r: ScanSummary)
        requires
            self.wf(),
            self.finished(),
        ensures
            r.ok,
            r.elapsed_ms == elapsed_ms,
            r.open_count == self.sink.open_count,
            r.timeout_count == self.sink.timeout_count,
            r.refused_count == self.sink.refused_count,
            r.error_message is None,
            r.open_count + r.timeout_count + r.refused_count <= self.port_count(),
            self.skipped == 0 ==> r.open_count + r.timeout_count + r.refused_count
                == self.port_count(),
    {
        ScanSummary {
            ok: true,
            elapsed_ms,
            open_count: self.sink.open_count,
            timeout_count: self.sink.timeout_count,
            refused_count: self.sink.refused_count,
            error_message: None,
        }
    }
}

/// The recorded outcomes of a well-formed scan state never exceed the
/// number of ports in its range; once the scan has finished and every
/// port's address resolved (no probe was skipped), they equal it exactly.
pub proof fn lemma_outcome_totals(s: &ScanState)
    requires
        s.wf(),
    ensures
        s.sink.total() <= s.port_count(),
        s.finished() && s.skipped == 0 ==> s.sink.total() == s.port_count(),
{
}

/// At no instant does a well-formed scan state hold more in-flight probes
/// than its concurrency limit.
pub proof fn lemma_bounded_concurrency(s: &ScanState)
    requires
        s.wf(),
    ensures
        s.in_flight() <= s.limiter.limit,
{
}

/// The ports of the range starting at `start` whose probe result was the
/// classified outcome `oc`, in port order.
pub open spec fn outcome_ports(results: Seq<ProbeResult>, start: u16, oc: Outcome) -> Seq<u16>
    decreases results.len(),
{
    if results.len() == 0 {
        Seq::empty()
    } else {
        outcome_ports(results.drop_last(), start, oc) + if results.last()
            == ProbeResult::Classified(oc) {
            seq![(start + results.len() - 1) as u16]
        } else {
            Seq::empty()
        }
    }
}

/// How many probes of `results` were skipped for failed resolution.
pub open spec fn skip_total(results: Seq<ProbeResult>) -> int
    decreases results.len(),
{
    if results.len() == 0 {
        0
    } else {
        skip_total(results.drop_last()) + if results.last() == ProbeResult::Skipped {
            1int
        } else {
            0int
        }
    }
}

/// Drive one whole scan over the per-port probe results, one result for
/// each port of the range in order.  Returns the summary and the sink
/// whose three logs hold exactly the ports classified under each outcome,
/// in port order.  The result is a function of the request and the probe
/// results alone: repeating a scan reproduces the same logs and counts,
/// it never accumulates them.
pub fn drive_scan(req: &ScanRequest, results: &Vec<ProbeResult>, elapsed_ms: u64) -> (r: (
    ScanSummary,
    ResultSink,
))
    requires
        req.valid(),
        results@.len() == req.port_count(),
    ensures
        r.1.wf(),
        r.1.open_ports@ == outcome_ports(results@, req.start_port, Outcome::Open),
        r.1.timeout_ports@ == outcome_ports(results@, req.start_port, Outcome::TimedOut),
        r.1.refused_ports@ == outcome_ports(results@, req.start_port, Outcome::Refused),
        r.0.ok,
        r.0.elapsed_ms == elapsed_ms,
        r.0.open_count == r.1.open_ports@.len(),
        r.0.timeout_count == r.1.timeout_ports@.len(),
        r.0.refused_count == r.1.refused_ports@.len(),
        r.0.error_message is None,
        r.0.open_count + r.0.timeout_count + r.0.refused_count <= req.port_count(),
        skip_total(results@) == 0 ==> r.0.open_count + r.0.timeout_count + r.0.refused_count
            == req.port_count(),
{
    let mut state = ScanState::new(req);
    let mut i: usize = 0;
    while i < results.len()
        invariant
            state.wf(),
            results@.len() == req.port_count(),
            i <= results@.len(),
            state.start_port == req.start_port,
            state.end_port == req.end_port,
            state.limiter.limit == req.max_concurrency,
            req.max_concurrency > 0,
            state.launched == i,
            state.completed == i,
            state.in_flight() == 0,
            state.sink.open_ports@ == outcome_ports(
                results@.subrange(0, i as int),
                req.start_port,
                Outcome::Open,
            ),
            state.sink.timeout_ports@ == outcome_ports(
                results@.subrange(0, i as int),
                req.start_port,
                Outcome::TimedOut,
            ),
            state.sink.refused_ports@ == outcome_ports(
                results@.subrange(0, i as int),
                req.start_port,
                Outcome::Refused,
            ),
            state.skipped == skip_total(results@.subrange(0, i as int)),
        decreases results@.len() - i,
    {
        let port = state.launch();
        state.complete(port, results[i]);
        proof {
            let prefix = results@.subrange(0, i as int);
            let extended = results@.subrange(0, i + 1);
            assert(extended.drop_last() =~= prefix);
            assert(extended.last() == results@[i as int]);
            assert(state.sink.open_ports@ =~= outcome_ports(
                extended,
                req.start_port,
                Outcome::Open,
            ));
            assert(state.sink.timeout_ports@ =~= outcome_ports(
                extended,
                req.start_port,
                Outcome::TimedOut,
            ));
            assert(state.sink.refused_ports@ =~= outcome_ports(
                extended,
                req.start_port,
                Outcome::Refused,
            ));
        }
        i = i + 1;
    }
    proof {
        assert(results@.subrange(0, results@.len() as int) =~= results@);
        lemma_outcome_totals(&state);
    }
    let report = state.summary(elapsed_ms);
    (report, state.sink)
}

/// Scans do not accumulate: the classification logs a scan leaves are a
/// function of the request and the probe results alone — `outcome_ports`
/// over the results — never of what an earlier scan left on disk, because
/// every scan begins by truncating the logs (`ScanState::new` starts from
/// an empty sink).  Re-running a scan over the same results therefore
/// reproduces the log of a single run: whenever anything was recorded at
/// all, that log differs from the two runs' logs laid end to end.
pub proof fn lemma_rescan_overwrites(results: Seq<ProbeResult>, start: u16, oc: Outcome)
    ensures
        outcome_ports(results, start, oc).len() > 0 ==> outcome_ports(results, start, oc)
            + outcome_ports(results, start, oc) != outcome_ports(results, start, oc),
{
    let one_run = outcome_ports(results, start, oc);
    if one_run.len() > 0 {
        assert((one_run + one_run).len() == 2 * one_run.len());
    }
}

/// The scan's answer to the caller: either a success with the three
/// counters and the elapsed time, or a failure with a message.
pub struct ScanSummary {
    pub ok: bool,
    pub elapsed_ms: u64,
    pub open_count: u64,
    pub timeout_count: u64,
    pub refused_count: u64,
    pub error_message: Option<String>,
}

/// The summary of a scan that failed during validation — host
/// unresolvable or log directory unavailable — before any probe was
/// spawned.  No counts are reported and no classification log is touched.
pub fn failed_summary(message: String) -> (r: ScanSummary)
    ensures
        !r.ok,
        r.error_message matches Some(m) && m@ == message@,
        r.open_count == 0,
        r.timeout_count == 0,
        r.refused_count == 0,
        r.elapsed_ms == 0,
{
    ScanSummary {
        ok: false,
        elapsed_ms: 0,
        open_count: 0,
        timeout_count: 0,
        refused_count: 0,
        error_message: Some(message),
    }
}

} // verus!
