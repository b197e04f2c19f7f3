//! Memoized canonical-Party resolution for a privacy-scope contribution: each
//! persisted Party reference is resolved against the subject's canonical Party
//! at most once, and the number of resolutions is bounded.
use vstd::prelude::*;
use crate::privacy_contract::{PrivacyScopeError, MAX_PRIVACY_CANONICAL_PARTY_RESOLUTIONS};
use crate::text::str_eq;

verus! {

/// The code with which Identity Resolution reports that a Party resolves to
/// a different canonical Party.
pub const CANONICAL_PARTY_MISMATCH_CODE: &'static str = "IDENTITY_RESOLUTION_CANONICAL_PARTY_MISMATCH";

/// The code with which Identity Resolution reports that its topology
/// generation moved on.
pub const TOPOLOGY_GENERATION_STALE_CODE: &'static str = "IDENTITY_RESOLUTION_TOPOLOGY_GENERATION_STALE";

/// Whether a resolved Party belongs to the subject, decided from what the
/// canonical-Party proof returned: `Ok` when it proved the Party canonical to
/// the subject, or the code it failed with.
pub open spec fn proof_verdict(outcome: Result<(), Seq<char>>) -> Result<bool, PrivacyScopeError> {
    match outcome {
        Ok(()) => Ok(true),
        Err(code) => if code == CANONICAL_PARTY_MISMATCH_CODE@ {
            Ok(false)
        } else if code == TOPOLOGY_GENERATION_STALE_CODE@ {
            Err(PrivacyScopeError::TopologyGenerationStale)
        } else {
            Err(PrivacyScopeError::CanonicalResolutionUnavailable)
        },
    }
}

/// Executable form of [`proof_verdict`].
pub fn classify_canonical_proof(outcome: Result<(), &str>) -> (r: Result<bool, PrivacyScopeError>)
    ensures
        r == proof_verdict(match outcome {
            Ok(()) => Ok(()),
            Err(code) => Err(code@),
        }),
{
    match outcome {
        Ok(()) => Ok(true),
        Err(code) => if str_eq(code, CANONICAL_PARTY_MISMATCH_CODE) {
            Ok(false)
        } else if str_eq(code, TOPOLOGY_GENERATION_STALE_CODE) {
            Err(PrivacyScopeError::TopologyGenerationStale)
        } else {
            Err(PrivacyScopeError::CanonicalResolutionUnavailable)
        },
    }
}

/// Resolutions already made, Party by Party, and how many were made.
pub struct CanonicalResolutionCache {
    entries: Vec<(String, bool)>,
    examined: usize,
}

/// The verdict recorded for `party` among `entries`.
pub open spec fn recorded(entries: Seq<(String, bool)>, party: Seq<char>) -> Option<bool>
    decreases entries.len(),
{
    if entries.len() == 0 {
        None
    } else if entries.last().0@ == party {
        Some(entries.last().1)
    } else {
        recorded(entries.drop_last(), party)
    }
}

impl CanonicalResolutionCache {
    /// What the cache holds: the verdict of every resolved Party.
    pub closed spec fn verdicts(&self) -> Map<Seq<char>, bool> {
        Map::new(|p: Seq<char>| recorded(self.entries@, p) is Some, |p: Seq<char>| recorded(self.entries@, p).unwrap())
    }

    /// How many resolutions were charged.
    pub closed spec fn resolutions(&self) -> nat {
        self.examined as nat
    }

    /// An empty cache that has charged nothing.
    pub fn new() -> (r: Self)
        ensures
            r.verdicts() == Map::<Seq<char>, bool>::empty(),
            r.resolutions() == 0,
    {
        let r = CanonicalResolutionCache { entries: Vec::new(), examined: 0 };
        assert(r.verdicts() =~= Map::<Seq<char>, bool>::empty());
        r
    }

    /// The verdict already recorded for `party_id`, if any.
    pub fn cached(&self, party_id: &String) -> (r: Option<bool>)
        ensures
            r == (if self.verdicts().contains_key(party_id@) {
                Some(self.verdicts()[party_id@])
            } else {
                None
            }),
    {
        let mut i: usize = self.entries.len();
        assert(self.entries@.take(i as int) =~= self.entries@);
        while i > 0
            invariant
                i <= self.entries@.len(),
                recorded(self.entries@, party_id@) == recorded(self.entries@.take(i as int), party_id@),
            decreases i,
        {
            assert(self.entries@.take(i as int).drop_last() =~= self.entries@.take(i - 1));
            assert(self.entries@.take(i as int).last() == self.entries@[i - 1]);
            if self.entries[i - 1].0 == *party_id {
                return Some(self.entries[i - 1].1);
            }
            i = i - 1;
        }
        None
    }

    /// Charges one resolution; fails once the frozen bound would be passed.
    pub fn charge_resolution(&mut self) -> (r: Result<(), PrivacyScopeError>)
        ensures
            r is Ok <==> old(self).resolutions() < MAX_PRIVACY_CANONICAL_PARTY_RESOLUTIONS,
            r is Err ==> r == Err::<(), PrivacyScopeError>(PrivacyScopeError::ScanLimitExceeded),
            final(self).verdicts() == old(self).verdicts(),
            r is Ok ==> final(self).resolutions() == old(self).resolutions() + 1,
    {
        match self.examined.checked_add(1) {
            None => Err(PrivacyScopeError::ScanLimitExceeded),
            Some(next) => {
                self.examined = next;
                if self.examined > MAX_PRIVACY_CANONICAL_PARTY_RESOLUTIONS {
                    Err(PrivacyScopeError::ScanLimitExceeded)
                } else {
                    Ok(())
                }
            },
        }
    }

    /// A settled verdict is what the cache answers for that Party from then
    /// on, and settling one Party leaves every other Party's answer as it was.
    pub proof fn settled_verdict_is_cached(before: Self, after: Self, party: Seq<char>, verdict: bool, other: Seq<char>)
        requires
            after.verdicts() == before.verdicts().insert(party, verdict),
            other != party,
        ensures
            after.verdicts().contains_key(party),
            after.verdicts()[party] == verdict,
            after.verdicts().contains_key(other) == before.verdicts().contains_key(other),
            after.verdicts().contains_key(other) ==> after.verdicts()[other] == before.verdicts()[other],
    {
    }

    /// Settles a resolution from what the canonical-Party proof returned:
    /// a verdict is recorded for `party_id` and returned; a failure is
    /// returned and nothing is recorded.
    pub fn settle(&mut self, party_id: String, outcome: Result<(), &str>) -> (r: Result<bool, PrivacyScopeError>)
        ensures
            r == proof_verdict(match outcome {
                Ok(()) => Ok(()),
                Err(code) => Err(code@),
            }),
            final(self).resolutions() == old(self).resolutions(),
            match r {
                Ok(v) => final(self).verdicts() == old(self).verdicts().insert(party_id@, v),
                Err(_) => final(self).verdicts() == old(self).verdicts(),
            },
    {
        let verdict = classify_canonical_proof(outcome)?;
        let ghost before = self.entries@;
        let ghost key = party_id@;
        self.entries.push((party_id, verdict));
        proof {
            assert(self.entries@.drop_last() =~= before);
            assert forall|p: Seq<char>| #![auto] recorded(self.entries@, p) == (if p == key {
                Some(verdict)
            } else {
                recorded(before, p)
            }) by {}
            assert(self.verdicts() =~= old(self).verdicts().insert(key, verdict));
        }
        Ok(verdict)
    }
}


/// A Party belongs to the subject exactly when the canonical-Party proof
/// succeeded; a proof that found another canonical Party excludes it, and
/// any other failure is an error, never a verdict.
pub proof fn verdicts_follow_the_canonical_proof(outcome: Result<(), Seq<char>>)
    ensures
        proof_verdict(outcome) == Ok::<bool, PrivacyScopeError>(true) <==> outcome is Ok,
        proof_verdict(outcome) == Ok::<bool, PrivacyScopeError>(false) <==> outcome == Err::<(), Seq<char>>(
            CANONICAL_PARTY_MISMATCH_CODE@),
        outcome is Err && outcome->Err_0 != CANONICAL_PARTY_MISMATCH_CODE@ ==> proof_verdict(outcome) is Err,
{
}

} // verus!
