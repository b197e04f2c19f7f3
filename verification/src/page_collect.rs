//! Collection of one page of visible records for a list query: the store is
//! read page by page, newest first, until the page is full or the store is
//! exhausted, and a full page is followed by a probe that decides whether
//! the response continues. The finding lists of Data Quality and the case
//! and legal-hold lists of Customer Privacy all page this way. The reads
//! and the visibility checks are the caller's; the collector decides what
//! to read next and when to stop.
use vstd::prelude::*;

verus! {

/// What the collector asks for next.
#[derive(Debug, Clone, Copy, PartialEq, Eq, Structural)]
pub enum CollectStep {
    /// Read up to this many records after the current continuation.
    Fetch(u32),
    /// The page is complete. `keep_anchor` says whether the response carries
    /// the continuation at which the page was filled.
    Finish { keep_anchor: bool },
}

/// The inspection bound of a list query was passed.
#[derive(Debug, Clone, Copy, PartialEq, Eq, Structural)]
pub struct ScanLimitReached;

/// The state of one page collection.
pub struct PageCollector {
    page_size: u32,
    collected: u32,
    scanned: usize,
    probing: bool,
    probe_size: u32,
    scan_limit: usize,
}

/// The scan count after `fetched` more records, saturating at the word size.
pub open spec fn scanned_after(scanned: nat, fetched: nat) -> nat {
    if scanned + fetched > usize::MAX { usize::MAX as nat } else { scanned + fetched }
}

impl PageCollector {
    #[verifier::type_invariant]
    spec fn never_over_full(self) -> bool {
        self.collected <= self.page_size
    }

    /// How many records the page may hold.
    pub closed spec fn requested(self) -> nat {
        self.page_size as nat
    }

    /// How many records the page holds so far.
    pub closed spec fn collected(self) -> nat {
        self.collected as nat
    }

    /// How many stored records were inspected so far.
    pub closed spec fn scanned(self) -> nat {
        self.scanned as nat
    }

    /// Whether the page is full and the collector only looks for one more
    /// visible record.
    pub closed spec fn probing(self) -> bool {
        self.probing
    }

    /// How many records one read of the probe asks for.
    pub closed spec fn probe_size(self) -> u32 {
        self.probe_size
    }

    /// How many stored records the query may inspect in all.
    pub closed spec fn scan_limit(self) -> nat {
        self.scan_limit as nat
    }

    /// Starts a page of `page_size` records, read after the request's
    /// continuation if it carries one (`has_after`); the probe reads
    /// `probe_size` records at a time and the query may inspect at most
    /// `scan_limit` stored records. An empty page only probes whether a
    /// visible record follows that continuation.
    pub fn begin(page_size: u32, has_after: bool, probe_size: u32, scan_limit: usize) -> (r: (Self, CollectStep))
        ensures
            r.0.requested() == page_size,
            r.0.collected() == 0,
            r.0.scanned() == 0,
            r.0.probing() == (page_size == 0),
            r.0.probe_size() == probe_size,
            r.0.scan_limit() == scan_limit,
            page_size > 0 ==> r.1 == CollectStep::Fetch(page_size),
            page_size == 0 && has_after ==> r.1 == CollectStep::Fetch(probe_size),
            page_size == 0 && !has_after ==> r.1 == (CollectStep::Finish { keep_anchor: false }),
    {
        let probing = page_size == 0;
        let collector = PageCollector { page_size, collected: 0, scanned: 0, probing, probe_size, scan_limit };
        let step = if !probing {
            CollectStep::Fetch(page_size)
        } else if has_after {
            CollectStep::Fetch(probe_size)
        } else {
            CollectStep::Finish { keep_anchor: false }
        };
        (collector, step)
    }

    /// Whether the collector is probing.
    pub fn is_probing(&self) -> (r: bool)
        ensures
            r == self.probing(),
    {
        self.probing
    }

    /// How many more records the page may take.
    pub fn remaining(&self) -> (r: u32)
        ensures
            r == self.requested() - self.collected(),
    {
        proof {
            use_type_invariant(self);
        }
        self.page_size - self.collected
    }

    /// Counts `fetched` more inspected records; passing the inspection bound
    /// refuses the query before any of them is looked at.
    pub fn inspect(&mut self, fetched: usize) -> (r: Result<(), ScanLimitReached>)
        ensures
            final(self).requested() == old(self).requested(),
            final(self).collected() == old(self).collected(),
            final(self).probing() == old(self).probing(),
            final(self).probe_size() == old(self).probe_size(),
            final(self).scan_limit() == old(self).scan_limit(),
            final(self).scanned() == scanned_after(old(self).scanned(), fetched as nat),
            r is Ok <==> final(self).scanned() <= final(self).scan_limit(),
            r is Err ==> r == Err::<(), ScanLimitReached>(ScanLimitReached),
    {
        proof {
            use_type_invariant(&*self);
        }
        let scanned = self.scanned.saturating_add(fetched);
        *self = PageCollector {
            page_size: self.page_size,
            collected: self.collected,
            scanned,
            probing: self.probing,
            probe_size: self.probe_size,
            scan_limit: self.scan_limit,
        };
        if scanned > self.scan_limit {
            Err(ScanLimitReached)
        } else {
            Ok(())
        }
    }

    /// Takes the outcome of one read of the filling phase: `admitted` of the
    /// records read passed the query's filter and were visible, and
    /// `has_next` says whether the store has more after them. The read may
    /// admit no more records than the page still takes. The page ends with
    /// the store, turns to the probe once full, or reads what is missing.
    pub fn fill_page(&mut self, admitted: u32, has_next: bool) -> (r: CollectStep)
        requires
            !old(self).probing(),
            admitted <= old(self).requested() - old(self).collected(),
        ensures
            ({
                let collected = old(self).collected() + admitted;
                let remaining = old(self).requested() - collected;
                &&& final(self).requested() == old(self).requested()
                &&& final(self).probe_size() == old(self).probe_size()
                &&& final(self).scan_limit() == old(self).scan_limit()
                &&& final(self).scanned() == old(self).scanned()
                &&& final(self).collected() == collected
                &&& final(self).collected() <= final(self).requested()
                &&& !has_next ==> r == (CollectStep::Finish { keep_anchor: false }) && !final(self).probing()
                &&& has_next && remaining == 0 ==> r == CollectStep::Fetch(old(self).probe_size())
                    && final(self).probing()
                &&& has_next && remaining > 0 ==> r == CollectStep::Fetch(remaining as u32) && !final(self).probing()
            }),
    {
        proof {
            use_type_invariant(&*self);
        }
        let collected = self.collected + admitted;
        let remaining = self.page_size - collected;
        let probing = has_next && remaining == 0;
        let probe_size = self.probe_size;
        *self = PageCollector {
            page_size: self.page_size,
            collected,
            scanned: self.scanned,
            probing,
            probe_size,
            scan_limit: self.scan_limit,
        };
        if !has_next {
            CollectStep::Finish { keep_anchor: false }
        } else if remaining == 0 {
            CollectStep::Fetch(probe_size)
        } else {
            CollectStep::Fetch(remaining)
        }
    }

    /// Takes the outcome of one read of the probing phase: `found` says
    /// whether a record read passed the filter and was visible. The first
    /// such record ends the probe with the anchor kept; the end of the
    /// store ends it without.
    pub fn probe_page(&mut self, found: bool, has_next: bool) -> (r: CollectStep)
        requires
            old(self).probing(),
        ensures
            *final(self) == *old(self),
            found ==> r == (CollectStep::Finish { keep_anchor: true }),
            !found && !has_next ==> r == (CollectStep::Finish { keep_anchor: false }),
            !found && has_next ==> r == CollectStep::Fetch(old(self).probe_size()),
    {
        if found {
            CollectStep::Finish { keep_anchor: true }
        } else if !has_next {
            CollectStep::Finish { keep_anchor: false }
        } else {
            CollectStep::Fetch(self.probe_size)
        }
    }
}

} // verus!
