//! Scanning a port range for a port that can be bound.
//!
//! Binding is the caller's business. The scan proposes candidates in
//! ascending order; the caller tries each and reports back. The first
//! candidate that binds is the answer. A successful bind is released at
//! once, so the answer is advice, not a reservation.

use vstd::prelude::*;

verus! {

/// A closed interval of candidate ports; empty when `end` lies below `start`.
#[derive(Clone, Copy, Debug, PartialEq, Eq, Structural)]
pub struct PortRange {
    /// The lowest candidate.
    pub start: u16,
    /// The highest candidate.
    pub end: u16,
}

impl PortRange {
    /// Whether `port` is one of the candidates.
    pub open spec fn contains(self, port: u16) -> bool {
        self.start <= port <= self.end
    }

    /// The candidate a scan begins with: the lowest, if there is any.
    pub open spec fn spec_first(self) -> Option<u16> {
        if self.start <= self.end {
            Some(self.start)
        } else {
            None
        }
    }

    /// The candidate that follows `port` in a scan, if there is any.
    pub open spec fn spec_after(self, port: u16) -> Option<u16> {
        if self.start <= port < self.end {
            Some((port + 1) as u16)
        } else {
            None
        }
    }

    /// The outcome of a scan that stands at `candidate`, when exactly the
    /// ports in `busy` refuse to bind: the candidates are tried in order
    /// until one binds.
    pub open spec fn scan_from(self, candidate: Option<u16>, busy: Set<u16>) -> Option<u16>
        decreases
            match candidate {
                Some(port) => if port <= self.end { self.end - port + 1 } else { 0 },
                None => 0,
            },
    {
        match candidate {
            None => None,
            Some(port) => if !busy.contains(port) {
                Some(port)
            } else {
                match self.spec_after(port) {
                    Some(next) => self.scan_from(Some(next), busy),
                    None => None,
                }
            },
        }
    }

    /// Whether `answer` is what a scan owes when exactly the ports in
    /// `busy` are taken: the lowest candidate outside `busy`, and nothing
    /// only if every candidate is in `busy`.
    pub open spec fn is_first_free(self, busy: Set<u16>, answer: Option<u16>) -> bool {
        match answer {
            Some(port) => {
                &&& self.contains(port)
                &&& !busy.contains(port)
                &&& forall|lower: u16|
                    self.start <= lower < port ==> #[trigger] busy.contains(lower)
            },
            None => forall|port: u16| self.contains(port) ==> #[trigger] busy.contains(port),
        }
    }

    /// The range from `start` to `end`, both included.
    pub fn new(start: u16, end: u16) -> (range: PortRange)
        ensures
            range == (PortRange { start, end }),
    {
        PortRange { start, end }
    }

    /// The candidate to try first.
    pub fn first(&self) -> (candidate: Option<u16>)
        ensures
            candidate == self.spec_first(),
    {
        if self.start <= self.end {
            Some(self.start)
        } else {
            None
        }
    }

    /// The candidate to try once `port` has refused to bind.
    pub fn after(&self, port: u16) -> (candidate: Option<u16>)
        ensures
            candidate == self.spec_after(port),
    {
        if self.start <= port && port < self.end {
            Some(port + 1)
        } else {
            None
        }
    }
}

/// A scan that has reached `candidate` after finding every lower
/// candidate busy ends on the lowest free port of the whole range.
pub proof fn lemma_scan_from(range: PortRange, candidate: u16, busy: Set<u16>)
    requires
        range.contains(candidate),
        forall|lower: u16| range.start <= lower < candidate ==> #[trigger] busy.contains(lower),
    ensures
        range.is_first_free(busy, range.scan_from(Some(candidate), busy)),
    decreases range.end - candidate,
{
    if busy.contains(candidate) {
        if candidate < range.end {
            let next = (candidate + 1) as u16;
            lemma_scan_from(range, next, busy);
        }
    }
}

/// Whatever ports are taken, a scan of a range skips every taken port
/// and ends on the lowest free one; it ends without a port exactly when
/// the whole range is taken.
pub proof fn law_scan_finds_first_free(range: PortRange, busy: Set<u16>)
    ensures
        range.is_first_free(busy, range.scan_from(range.spec_first(), busy)),
{
    if range.start <= range.end {
        lemma_scan_from(range, range.start, busy);
    }
}

} // verus!
