//! Per-scan result sink: three append-only classification logs and their
//! counters.
//!
//! Each recorded outcome appends exactly one port number to exactly one log
//! and increments exactly one counter.  A sink exists for the duration of
//! one scan; a fresh sink starts empty, which models the truncation of the
//! on-disk logs at scan start.

use vstd::prelude::*;
use vstd::string::*;
use crate::decimal::{dec_chars, port_line};

verus! {

/// The three-way classification of one probed port.
///
/// This split is exhaustive over connect results: a successful connect is
/// `Open`, a connect that failed because the timeout elapsed is `TimedOut`,
/// and a connect that failed for any other reason is `Refused`.
#[derive(Clone, Copy, Debug, PartialEq, Eq, Structural)]
pub enum Outcome {
    Open,
    TimedOut,
    Refused,
}

/// The text of one classification log: one line per recorded port, each
/// line the port's decimal digits followed by a newline.
pub open spec fn log_text(ports: Seq<u16>) -> Seq<char>
    decreases ports.len(),
{
    if ports.len() == 0 {
        Seq::empty()
    } else {
        log_text(ports.drop_last()) + dec_chars(ports.last() as nat) + seq!['\n']
    }
}

/// Three independent classification logs plus one counter per log.
pub struct ResultSink {
    pub open_ports: Vec<u16>,
    pub timeout_ports: Vec<u16>,
    pub refused_ports: Vec<u16>,
    pub open_count: u64,
    pub timeout_count: u64,
    pub refused_count: u64,
}

impl ResultSink {
    /// Each counter equals the length of its log.
    pub open spec fn wf(&self) -> bool {
        &&& self.open_count == self.open_ports@.len()
        &&& self.timeout_count == self.timeout_ports@.len()
        &&& self.refused_count == self.refused_ports@.len()
    }

    /// The number of outcomes recorded so far.
    pub open spec fn total(&self) -> int {
        self.open_count + self.timeout_count + self.refused_count
    }

    /// A fresh sink: all three logs empty, all counters zero.  Every scan
    /// starts from this state; nothing carries over from an earlier scan.
    pub fn new() -> (r: ResultSink)
        ensures
            r.wf(),
            r.open_ports@ == Seq::<u16>::empty(),
            r.timeout_ports@ == Seq::<u16>::empty(),
            r.refused_ports@ == Seq::<u16>::empty(),
            r.total() == 0,
    {
        ResultSink {
            open_ports: Vec::new(),
            timeout_ports: Vec::new(),
            refused_ports: Vec::new(),
            open_count: 0,
            timeout_count: 0,
            refused_count: 0,
        }
    }

    /// Record one outcome for one port: append the port to the matching
    /// log and increment the matching counter, leaving the other two logs
    /// untouched.
    pub fn record(&mut self, port: u16, outcome: Outcome)
        requires
            old(self).wf(),
            old(self).total() < u64::MAX,
        ensures
            final(self).wf(),
            final(self).total() == old(self).total() + 1,
            outcome is Open ==> {
                &&& final(self).open_ports@ == old(self).open_ports@.push(port)
                &&& final(self).timeout_ports@ == old(self).timeout_ports@
                &&& final(self).refused_ports@ == old(self).refused_ports@
            },
            outcome is TimedOut ==> {
                &&& final(self).open_ports@ == old(self).open_ports@
                &&& final(self).timeout_ports@ == old(self).timeout_ports@.push(port)
                &&& final(self).refused_ports@ == old(self).refused_ports@
            },
            outcome is Refused ==> {
                &&& final(self).open_ports@ == old(self).open_ports@
                &&& final(self).timeout_ports@ == old(self).timeout_ports@
                &&& final(self).refused_ports@ == old(self).refused_ports@.push(port)
            },
            final(self).open_count == old(self).open_count + if outcome is Open {
                1int
            } else {
                0int
            },
            final(self).timeout_count == old(self).timeout_count + if outcome is TimedOut {
                1int
            } else {
                0int
            },
            final(self).refused_count == old(self).refused_count + if outcome is Refused {
                1int
            } else {
                0int
            },
    {
        match outcome {
            Outcome::Open => {
                self.open_ports.push(port);
                self.open_count = self.open_count + 1;
            },
            Outcome::TimedOut => {
                self.timeout_ports.push(port);
                self.timeout_count = self.timeout_count + 1;
            },
            Outcome::Refused => {
                self.refused_ports.push(port);
                self.refused_count = self.refused_count + 1;
            },
        }
    }
}

/// Render one classification log as it stands on disk: one decimal port
/// number per line.
pub fn render_log(ports: &Vec<u16>) -> (r: String)
    ensures
        r@ == log_text(ports@),
{
    let mut text = String::new();
    let mut i: usize = 0;
    while i < ports.len()
        invariant
            i <= ports@.len(),
            text@ == log_text(ports@.subrange(0, i as int)),
        decreases ports@.len() - i,
    {
        let line = port_line(ports[i]);
        text.append(line.as_str());
        proof {
            let prefix = ports@.subrange(0, i as int);
            let extended = ports@.subrange(0, i + 1);
            assert(extended.drop_last() =~= prefix);
            assert(extended.last() == ports@[i as int]);
        }
        i = i + 1;
    }
    proof {
        assert(ports@.subrange(0, ports@.len() as int) =~= ports@);
    }
    text
}

} // verus!
