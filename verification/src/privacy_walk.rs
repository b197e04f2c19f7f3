//! The walk of a Data Quality privacy-scope contribution: the seven record
//! families in their frozen order, each in the order it was read, keeping
//! the records whose Party resolves to the request's subject; and the page
//! of that walk that follows a cursor.
use vstd::prelude::*;
use crate::privacy_contract::PrivacyScopeError;
use crate::privacy_page::{
    filtered_is_sorted, is_page_of, resources_after, select_page, successive_pages, successive_pages_cover_the_walk,
    walk_before, walk_sorted, CursorState, ResourceFamily,
    ScopePage, VerifiedResource,
};
use crate::privacy_resolution::CanonicalResolutionCache;
use crate::text::chars_less;

verus! {

/// A stored Data Quality record as the walk reads it: the Party it names,
/// its identity and its stored version.
pub struct ScopeRecord {
    pub party_id: String,
    pub record_id: String,
    pub version: u64,
}

/// The owner records of the seven families, each as read in stored identity
/// order.
pub struct FamilyRecords {
    pub jobs: Vec<ScopeRecord>,
    pub inputs: Vec<ScopeRecord>,
    pub outcomes: Vec<ScopeRecord>,
    pub findings: Vec<ScopeRecord>,
    pub observations: Vec<ScopeRecord>,
    pub completeness_results: Vec<ScopeRecord>,
    pub remediation_attempts: Vec<ScopeRecord>,
}

/// The family at position `rank` of the walk.
pub open spec fn family_at(rank: int) -> ResourceFamily {
    if rank <= 0 {
        ResourceFamily::EvaluationJob
    } else if rank == 1 {
        ResourceFamily::EvaluationInput
    } else if rank == 2 {
        ResourceFamily::RuleOutcome
    } else if rank == 3 {
        ResourceFamily::Finding
    } else if rank == 4 {
        ResourceFamily::FindingObservation
    } else if rank == 5 {
        ResourceFamily::CompletenessResult
    } else {
        ResourceFamily::RemediationAttempt
    }
}

/// The records of family `f`.
pub open spec fn family_records(r: FamilyRecords, f: ResourceFamily) -> Seq<ScopeRecord> {
    match f {
        ResourceFamily::EvaluationJob => r.jobs@,
        ResourceFamily::EvaluationInput => r.inputs@,
        ResourceFamily::RuleOutcome => r.outcomes@,
        ResourceFamily::Finding => r.findings@,
        ResourceFamily::FindingObservation => r.observations@,
        ResourceFamily::CompletenessResult => r.completeness_results@,
        ResourceFamily::RemediationAttempt => r.remediation_attempts@,
    }
}

/// The resource a record of family `f` stands for.
pub open spec fn resource_of(f: ResourceFamily, x: ScopeRecord) -> VerifiedResource {
    VerifiedResource { family: f, record_id: x.record_id, resource_version: x.version }
}

/// The resources of family `f` among `recs`, in order, whose Party resolves
/// to the subject by `verdicts`.
pub open spec fn relevant_of(recs: Seq<ScopeRecord>, f: ResourceFamily, verdicts: Map<Seq<char>, bool>)
    -> Seq<VerifiedResource>
    decreases recs.len(),
{
    if recs.len() == 0 {
        Seq::empty()
    } else {
        let previous = relevant_of(recs.drop_last(), f, verdicts);
        if verdicts[recs.last().party_id@] {
            previous.push(resource_of(f, recs.last()))
        } else {
            previous
        }
    }
}

/// The walk over the first `n` families.
pub open spec fn walk_prefix(r: FamilyRecords, verdicts: Map<Seq<char>, bool>, n: nat) -> Seq<VerifiedResource>
    decreases n,
{
    if n == 0 {
        Seq::empty()
    } else {
        walk_prefix(r, verdicts, (n - 1) as nat)
            + relevant_of(family_records(r, family_at(n - 1)), family_at(n - 1), verdicts)
    }
}

/// The whole walk: every family in its frozen order.
pub open spec fn scope_walk(r: FamilyRecords, verdicts: Map<Seq<char>, bool>) -> Seq<VerifiedResource> {
    walk_prefix(r, verdicts, 7)
}

/// The record identities of `recs` strictly ascend.
pub open spec fn ids_ascending(recs: Seq<ScopeRecord>) -> bool {
    forall|i: int, j: int| 0 <= i < j < recs.len() ==> chars_less(#[trigger] recs[i].record_id@, #[trigger] recs[j].record_id@)
}

/// Every family is in strictly ascending identity order.
pub open spec fn records_ordered(r: FamilyRecords) -> bool {
    forall|k: int| 0 <= k < 7 ==> ids_ascending(#[trigger] family_records(r, family_at(k)))
}

/// Every record names a Party whose verdict is known.
pub open spec fn all_resolved(r: FamilyRecords, verdicts: Map<Seq<char>, bool>) -> bool {
    forall|k: int, i: int| 0 <= k < 7 && 0 <= i < family_records(r, family_at(k)).len()
        ==> verdicts.contains_key(#[trigger] family_records(r, family_at(k))[i].party_id@)
}

proof fn rank_of_family_at(k: int)
    requires
        0 <= k < 7,
    ensures
        family_at(k).spec_rank() == k,
{
}

/// The number of record families a walk passes through.
pub const WALK_FAMILY_COUNT: usize = 7;

/// The family at position `rank` of the walk.
pub fn family_at_rank(rank: usize) -> (f: ResourceFamily)
    requires
        rank < 7,
    ensures
        f == family_at(rank as int),
{
    if rank == 0 {
        ResourceFamily::EvaluationJob
    } else if rank == 1 {
        ResourceFamily::EvaluationInput
    } else if rank == 2 {
        ResourceFamily::RuleOutcome
    } else if rank == 3 {
        ResourceFamily::Finding
    } else if rank == 4 {
        ResourceFamily::FindingObservation
    } else if rank == 5 {
        ResourceFamily::CompletenessResult
    } else {
        ResourceFamily::RemediationAttempt
    }
}

impl FamilyRecords {
    /// The records of family `f`.
    pub fn records_of(&self, f: ResourceFamily) -> (r: &Vec<ScopeRecord>)
        ensures
            r@ == family_records(*self, f),
    {
        match f {
            ResourceFamily::EvaluationJob => &self.jobs,
            ResourceFamily::EvaluationInput => &self.inputs,
            ResourceFamily::RuleOutcome => &self.outcomes,
            ResourceFamily::Finding => &self.findings,
            ResourceFamily::FindingObservation => &self.observations,
            ResourceFamily::CompletenessResult => &self.completeness_results,
            ResourceFamily::RemediationAttempt => &self.remediation_attempts,
        }
    }
}

proof fn relevant_of_members(recs: Seq<ScopeRecord>, f: ResourceFamily, verdicts: Map<Seq<char>, bool>)
    ensures
        forall|i: int| 0 <= i < relevant_of(recs, f, verdicts).len() ==> exists|j: int| 0 <= j < recs.len()
            && #[trigger] relevant_of(recs, f, verdicts)[i] == resource_of(f, recs[j]),
    decreases recs.len(),
{
    if recs.len() > 0 {
        let t = recs.drop_last();
        relevant_of_members(t, f, verdicts);
        let m0 = relevant_of(t, f, verdicts);
        let m = relevant_of(recs, f, verdicts);
        assert forall|i: int| 0 <= i < m.len() implies exists|j: int| 0 <= j < recs.len()
            && #[trigger] m[i] == resource_of(f, recs[j]) by {
            if i < m0.len() {
                let j = choose|j: int| 0 <= j < t.len() && m0[i] == resource_of(f, t[j]);
                assert(m[i] == m0[i]);
                assert(recs[j] == t[j]);
            } else {
                assert(m[i] == resource_of(f, recs[recs.len() - 1]));
            }
        }
    }
}

/// Every family of the first `rank` families is in strictly ascending
/// identity order.
pub open spec fn families_ordered_before(r: FamilyRecords, rank: int) -> bool {
    forall|k: int| 0 <= k < rank ==> ids_ascending(#[trigger] family_records(r, family_at(k)))
}

/// Builds the walk: each family in turn, in the order its records were
/// read, keeping the records whose Party's settled verdict says it resolves
/// to the subject. When every family was read in ascending identity order,
/// as the store returns it, the walk is strictly ordered by family and then
/// by identity.
pub fn relevant_walk(records: &FamilyRecords, cache: &CanonicalResolutionCache) -> (w: Vec<VerifiedResource>)
    requires
        all_resolved(*records, cache.verdicts()),
    ensures
        w@ == scope_walk(*records, cache.verdicts()),
        records_ordered(*records) ==> walk_sorted(w@),
{
    let ghost verdicts = cache.verdicts();
    let mut out: Vec<VerifiedResource> = Vec::new();
    let mut rank: usize = 0;
    while rank < 7
        invariant
            rank <= 7,
            verdicts == cache.verdicts(),
            all_resolved(*records, verdicts),
            out@ == walk_prefix(*records, verdicts, rank as nat),
            families_ordered_before(*records, rank as int) ==> walk_sorted(out@),
            forall|i: int| 0 <= i < out@.len() ==> #[trigger] out@[i].family.spec_rank() < rank,
        decreases 7 - rank,
    {
        let family = family_at_rank(rank);
        proof {
            rank_of_family_at(rank as int);
        }
        let recs = records.records_of(family);
        let ghost base = out@;
        let mut i: usize = 0;
        while i < recs.len()
            invariant
                rank < 7,
                family == family_at(rank as int),
                family.spec_rank() == rank,
                recs@ == family_records(*records, family),
                verdicts == cache.verdicts(),
                all_resolved(*records, verdicts),
                i <= recs@.len(),
                base == walk_prefix(*records, verdicts, rank as nat),
                families_ordered_before(*records, rank as int) ==> walk_sorted(base),
                forall|x: int| 0 <= x < base.len() ==> #[trigger] base[x].family.spec_rank() < rank,
                out@ == base + relevant_of(recs@.take(i as int), family, verdicts),
                families_ordered_before(*records, rank as int) && ids_ascending(recs@.take(i as int))
                    ==> walk_sorted(out@),
                forall|x: int| 0 <= x < out@.len() ==> #[trigger] out@[x].family.spec_rank() <= rank,
                forall|x: int| base.len() <= x < out@.len() ==> exists|j: int| 0 <= j < i
                    && #[trigger] out@[x] == resource_of(family, recs@[j]),
            decreases recs@.len() - i,
        {
            let x = &recs[i];
            let ghost taken = recs@.take(i as int);
            let ghost next = recs@.take(i + 1);
            assert(next.drop_last() =~= taken);
            assert(next.last() == recs@[i as int]);
            assert(ids_ascending(next) ==> ids_ascending(taken)) by {
                if ids_ascending(next) {
                    assert forall|a: int, b: int| 0 <= a < b < taken.len() implies
                        chars_less(#[trigger] taken[a].record_id@, #[trigger] taken[b].record_id@) by {
                        assert(taken[a] == next[a] && taken[b] == next[b]);
                    }
                }
            }
            proof {
                assert(family_records(*records, family_at(rank as int))[i as int] == recs@[i as int]);
            }
            let relevant = match cache.cached(&x.party_id) {
                Some(v) => v,
                None => false,
            };
            if relevant {
                let resource = VerifiedResource { family, record_id: x.record_id.clone(), resource_version: x.version };
                let ghost before = out@;
                out.push(resource);
                proof {
                    if families_ordered_before(*records, rank as int) && ids_ascending(next) {
                        assert forall|a: int| 0 <= a < before.len() implies walk_before(#[trigger] before[a], resource)
                            by {
                            if a >= base.len() {
                                let j = choose|j: int| 0 <= j < i && before[a] == resource_of(family, recs@[j]);
                                assert(next[j] == recs@[j]);
                                assert(next[i as int] == recs@[i as int]);
                                assert(chars_less(next[j].record_id@, next[i as int].record_id@));
                            } else {
                                assert(before[a] == base[a]);
                            }
                        }
                        assert forall|a: int, b: int| 0 <= a < b < out@.len() implies walk_before(
                            #[trigger] out@[a],
                            #[trigger] out@[b],
                        ) by {
                            if b == out@.len() - 1 {
                                assert(out@[a] == before[a]);
                            } else {
                                assert(out@[a] == before[a] && out@[b] == before[b]);
                            }
                        }
                    }
                }
                assert forall|z: int| base.len() <= z < out@.len() implies exists|j: int| 0 <= j < i + 1
                    && #[trigger] out@[z] == resource_of(family, recs@[j]) by {
                    if z < out@.len() - 1 {
                        assert(out@[z] == before[z]);
                    } else {
                        assert(out@[z] == resource_of(family, recs@[i as int]));
                    }
                }
                assert(out@ =~= base + relevant_of(next, family, verdicts));
            } else {
                assert(out@ =~= base + relevant_of(next, family, verdicts));
            }
            i = i + 1;
        }
        assert(recs@.take(recs@.len() as int) =~= recs@);
        assert(walk_prefix(*records, verdicts, (rank + 1) as nat)
            =~= base + relevant_of(family_records(*records, family_at(rank as int)), family_at(rank as int), verdicts));
        proof {
            if families_ordered_before(*records, rank + 1) {
                assert(ids_ascending(family_records(*records, family_at(rank as int))));
                assert(families_ordered_before(*records, rank as int));
            }
        }
        rank = rank + 1;
    }
    out
}

/// The page of a contribution that follows `cursor`: the walk of the
/// subject's records, family by family in the order they were read, from
/// the cursor on, at most `page_size` of them, with a cursor at the last one
/// when more follow. Every resource of the page belongs to a record whose
/// Party resolves to the subject, and when every family was read in
/// ascending identity order the page is strictly ordered by the walk.
pub fn data_quality_page(records: &FamilyRecords, cache: &CanonicalResolutionCache, cursor: &CursorState,
    page_size: u32) -> (r: Result<ScopePage, PrivacyScopeError>)
    requires
        all_resolved(*records, cache.verdicts()),
    ensures
        is_page_of(resources_after(scope_walk(*records, cache.verdicts()), *cursor), page_size, r),
        records_ordered(*records) ==> (r matches Ok(page) ==> walk_sorted(page.resources@)),
{
    let walk = relevant_walk(records, cache);
    proof {
        if records_ordered(*records) {
            filtered_is_sorted(walk@, *cursor);
        }
    }
    let page = select_page(&walk, cursor, page_size);
    proof {
        if page is Ok && records_ordered(*records) {
            let p = page->Ok_0;
            let m = resources_after(walk@, *cursor);
            assert forall|a: int, b: int| 0 <= a < b < p.resources@.len() implies
                walk_before(#[trigger] p.resources@[a], #[trigger] p.resources@[b]) by {
                assert(p.resources@[a] == m[a] && p.resources@[b] == m[b]);
            }
        }
    }
    page
}


proof fn lemma_relevant_of_sorted(recs: Seq<ScopeRecord>, f: ResourceFamily, verdicts: Map<Seq<char>, bool>)
    requires
        ids_ascending(recs),
    ensures
        walk_sorted(relevant_of(recs, f, verdicts)),
        forall|i: int| 0 <= i < relevant_of(recs, f, verdicts).len() ==> (#[trigger] relevant_of(recs, f,
            verdicts)[i]).family == f,
    decreases recs.len(),
{
    if recs.len() > 0 {
        let t = recs.drop_last();
        assert(ids_ascending(t)) by {
            assert forall|a: int, b: int| 0 <= a < b < t.len() implies chars_less(
                #[trigger] t[a].record_id@,
                #[trigger] t[b].record_id@,
            ) by {
                assert(t[a] == recs[a] && t[b] == recs[b]);
            }
        }
        lemma_relevant_of_sorted(t, f, verdicts);
        relevant_of_members(t, f, verdicts);
        let m0 = relevant_of(t, f, verdicts);
        if verdicts[recs.last().party_id@] {
            let x = resource_of(f, recs.last());
            let m = m0.push(x);
            assert forall|a: int, b: int| 0 <= a < b < m.len() implies walk_before(#[trigger] m[a], #[trigger] m[b])
                by {
                if b == m.len() - 1 {
                    let j = choose|j: int| 0 <= j < t.len() && m0[a] == resource_of(f, t[j]);
                    assert(t[j] == recs[j]);
                    assert(chars_less(recs[j].record_id@, recs[recs.len() - 1].record_id@));
                    assert(m[a] == m0[a]);
                } else {
                    assert(m[a] == m0[a] && m[b] == m0[b]);
                }
            }
            assert forall|i: int| 0 <= i < m.len() implies (#[trigger] m[i]).family == f by {
                if i < m0.len() {
                    assert(m[i] == m0[i]);
                }
            }
        }
    }
}

proof fn lemma_walk_prefix_sorted(r: FamilyRecords, verdicts: Map<Seq<char>, bool>, n: nat)
    requires
        n <= 7,
        families_ordered_before(r, n as int),
    ensures
        walk_sorted(walk_prefix(r, verdicts, n)),
        forall|i: int| 0 <= i < walk_prefix(r, verdicts, n).len() ==> (#[trigger] walk_prefix(r, verdicts, n)[i])
            .family.spec_rank() < n,
    decreases n,
{
    if n > 0 {
        let k = (n - 1) as int;
        assert(families_ordered_before(r, k));
        lemma_walk_prefix_sorted(r, verdicts, (n - 1) as nat);
        let f = family_at(k);
        rank_of_family_at(k);
        assert(ids_ascending(family_records(r, family_at(k))));
        lemma_relevant_of_sorted(family_records(r, f), f, verdicts);
        let a = walk_prefix(r, verdicts, (n - 1) as nat);
        let b = relevant_of(family_records(r, f), f, verdicts);
        let w = a + b;
        assert(walk_prefix(r, verdicts, n) == w);
        assert forall|i: int, j: int| 0 <= i < j < w.len() implies walk_before(#[trigger] w[i], #[trigger] w[j]) by {
            if j < a.len() {
                assert(w[i] == a[i] && w[j] == a[j]);
            } else if i >= a.len() {
                assert(w[i] == b[i - a.len()] && w[j] == b[j - a.len()]);
            } else {
                assert(w[i] == a[i] && w[j] == b[j - a.len()]);
                assert(b[j - a.len()].family == f);
            }
        }
        assert forall|i: int| 0 <= i < w.len() implies (#[trigger] w[i]).family.spec_rank() < n by {
            if i < a.len() {
                assert(w[i] == a[i]);
            } else {
                assert(w[i] == b[i - a.len()]);
                assert(b[i - a.len()].family == f);
            }
        }
    }
}

/// When every family was read in ascending identity order, the walk of the
/// subject's records is strictly ordered by family and then by identity.
pub proof fn ordered_records_give_a_sorted_walk(r: FamilyRecords, verdicts: Map<Seq<char>, bool>)
    requires
        records_ordered(r),
    ensures
        walk_sorted(scope_walk(r, verdicts)),
{
    assert(families_ordered_before(r, 7));
    lemma_walk_prefix_sorted(r, verdicts, 7);
}

/// Paging a contribution from any cursor, each request from the cursor the
/// page before it handed back, hands back every record of the subject after
/// the first cursor exactly once, family by family in identity order, and
/// nothing else, within as many pages as there are such records.
pub proof fn successive_scope_pages_cover_the_subjects_records(r: FamilyRecords, verdicts: Map<Seq<char>, bool>,
    cursor: CursorState, page_size: nat, pages: nat)
    requires
        records_ordered(r),
        page_size > 0,
        pages >= resources_after(scope_walk(r, verdicts), cursor).len(),
    ensures
        successive_pages(scope_walk(r, verdicts), cursor, page_size, pages) == resources_after(
            scope_walk(r, verdicts),
            cursor,
        ),
{
    ordered_records_give_a_sorted_walk(r, verdicts);
    successive_pages_cover_the_walk(scope_walk(r, verdicts), cursor, page_size, pages);
}

} // verus!
