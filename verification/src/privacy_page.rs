//! The seven resource families a Data Quality privacy-scope contribution
//! emits, their frozen order, and cursor-driven paging over them.
use vstd::prelude::*;
use crate::privacy_contract::PrivacyScopeError;
use crate::dq_model::{
    FINDING_OBSERVATION_RECORD_TYPE, FINDING_RECORD_TYPE, PARTY_COMPLETENESS_RESULT_RECORD_TYPE,
    PARTY_EVALUATION_INPUT_RECORD_TYPE, PARTY_EVALUATION_JOB_RECORD_TYPE, REMEDIATION_ATTEMPT_RECORD_TYPE,
    RULE_OUTCOME_RECORD_TYPE,
};
use crate::text::{chars_less, chars_less_asymmetric, chars_less_irreflexive, chars_less_transitive, str_less};

verus! {

/// A family of Data Quality records that may hold a subject's evidence, in
/// the order in which a contribution walks them.
#[derive(Debug, Clone, Copy, PartialEq, Eq, PartialOrd, Ord, Hash, Structural)]
pub enum ResourceFamily {
    EvaluationJob,
    EvaluationInput,
    RuleOutcome,
    Finding,
    FindingObservation,
    CompletenessResult,
    RemediationAttempt,
}

impl ResourceFamily {
    /// Position of the family in the walk.
    pub open spec fn spec_rank(self) -> int {
        match self {
            ResourceFamily::EvaluationJob => 0,
            ResourceFamily::EvaluationInput => 1,
            ResourceFamily::RuleOutcome => 2,
            ResourceFamily::Finding => 3,
            ResourceFamily::FindingObservation => 4,
            ResourceFamily::CompletenessResult => 5,
            ResourceFamily::RemediationAttempt => 6,
        }
    }

    /// Executable form of [`Self::spec_rank`].
    pub fn rank(self) -> (r: u8)
        ensures
            r as int == self.spec_rank(),
    {
        match self {
            ResourceFamily::EvaluationJob => 0,
            ResourceFamily::EvaluationInput => 1,
            ResourceFamily::RuleOutcome => 2,
            ResourceFamily::Finding => 3,
            ResourceFamily::FindingObservation => 4,
            ResourceFamily::CompletenessResult => 5,
            ResourceFamily::RemediationAttempt => 6,
        }
    }

    /// The short token under which the family appears in a cursor.
    pub open spec fn spec_token(self) -> &'static str {
        match self {
            ResourceFamily::EvaluationJob => "job",
            ResourceFamily::EvaluationInput => "input",
            ResourceFamily::RuleOutcome => "outcome",
            ResourceFamily::Finding => "finding",
            ResourceFamily::FindingObservation => "observation",
            ResourceFamily::CompletenessResult => "completeness",
            ResourceFamily::RemediationAttempt => "remediation",
        }
    }

    /// Executable form of [`Self::spec_token`].
    pub fn token(self) -> (r: &'static str)
        ensures
            r == self.spec_token(),
    {
        match self {
            ResourceFamily::EvaluationJob => "job",
            ResourceFamily::EvaluationInput => "input",
            ResourceFamily::RuleOutcome => "outcome",
            ResourceFamily::Finding => "finding",
            ResourceFamily::FindingObservation => "observation",
            ResourceFamily::CompletenessResult => "completeness",
            ResourceFamily::RemediationAttempt => "remediation",
        }
    }

    /// The record type that the family's records are stored under.
    pub open spec fn spec_resource_type(self) -> &'static str {
        match self {
            ResourceFamily::EvaluationJob => PARTY_EVALUATION_JOB_RECORD_TYPE,
            ResourceFamily::EvaluationInput => PARTY_EVALUATION_INPUT_RECORD_TYPE,
            ResourceFamily::RuleOutcome => RULE_OUTCOME_RECORD_TYPE,
            ResourceFamily::Finding => FINDING_RECORD_TYPE,
            ResourceFamily::FindingObservation => FINDING_OBSERVATION_RECORD_TYPE,
            ResourceFamily::CompletenessResult => PARTY_COMPLETENESS_RESULT_RECORD_TYPE,
            ResourceFamily::RemediationAttempt => REMEDIATION_ATTEMPT_RECORD_TYPE,
        }
    }

    /// Executable form of [`Self::spec_resource_type`].
    pub fn resource_type(self) -> (r: &'static str)
        ensures
            r == self.spec_resource_type(),
    {
        match self {
            ResourceFamily::EvaluationJob => PARTY_EVALUATION_JOB_RECORD_TYPE,
            ResourceFamily::EvaluationInput => PARTY_EVALUATION_INPUT_RECORD_TYPE,
            ResourceFamily::RuleOutcome => RULE_OUTCOME_RECORD_TYPE,
            ResourceFamily::Finding => FINDING_RECORD_TYPE,
            ResourceFamily::FindingObservation => FINDING_OBSERVATION_RECORD_TYPE,
            ResourceFamily::CompletenessResult => PARTY_COMPLETENESS_RESULT_RECORD_TYPE,
            ResourceFamily::RemediationAttempt => REMEDIATION_ATTEMPT_RECORD_TYPE,
        }
    }
}

/// A subject-relevant record that passed lineage validation.
pub struct VerifiedResource {
    pub family: ResourceFamily,
    pub record_id: String,
    pub resource_version: u64,
}

impl Clone for VerifiedResource {
    fn clone(&self) -> (r: Self)
        ensures
            r == *self,
    {
        VerifiedResource { family: self.family, record_id: self.record_id.clone(), resource_version: self.resource_version }
    }
}

/// Where the previous page of a contribution ended.
pub struct CursorState {
    pub family: ResourceFamily,
    pub after_record_id: Option<String>,
}

/// Whether `resource` comes after the position `cursor` marks: a later
/// family, or the same family and, when the cursor names a record, a
/// record id that orders after it.
pub open spec fn after_cursor(resource: VerifiedResource, cursor: CursorState) -> bool {
    if resource.family.spec_rank() < cursor.family.spec_rank() {
        false
    } else if resource.family.spec_rank() > cursor.family.spec_rank() {
        true
    } else {
        match cursor.after_record_id {
            None => true,
            Some(after) => chars_less(after@, resource.record_id@),
        }
    }
}

/// Executable form of [`after_cursor`].
pub fn resource_after_cursor(resource: &VerifiedResource, cursor: &CursorState) -> (r: bool)
    ensures
        r == after_cursor(*resource, *cursor),
{
    let resource_rank = resource.family.rank();
    let cursor_rank = cursor.family.rank();
    if resource_rank < cursor_rank {
        false
    } else if resource_rank > cursor_rank {
        true
    } else {
        match &cursor.after_record_id {
            None => true,
            Some(after) => str_less(after.as_str(), resource.record_id.as_str()),
        }
    }
}

/// The resources of `s`, in order, that come after `cursor`.
pub open spec fn resources_after(s: Seq<VerifiedResource>, cursor: CursorState) -> Seq<VerifiedResource>
    decreases s.len(),
{
    if s.len() == 0 {
        Seq::empty()
    } else {
        let previous = resources_after(s.drop_last(), cursor);
        if after_cursor(s.last(), cursor) {
            previous.push(s.last())
        } else {
            previous
        }
    }
}

/// Whether `a` comes strictly before `b` in the walk: an earlier family, or
/// the same family and a record id that orders first.
pub open spec fn walk_before(a: VerifiedResource, b: VerifiedResource) -> bool {
    a.family.spec_rank() < b.family.spec_rank()
        || (a.family.spec_rank() == b.family.spec_rank() && chars_less(a.record_id@, b.record_id@))
}

/// Whether `s` is strictly ordered by the walk.
pub open spec fn walk_sorted(s: Seq<VerifiedResource>) -> bool {
    forall|i: int, j: int| 0 <= i < j < s.len() ==> walk_before(#[trigger] s[i], #[trigger] s[j])
}

/// The cursor that marks the position just after `r`.
pub open spec fn cursor_at(r: VerifiedResource) -> CursorState {
    CursorState { family: r.family, after_record_id: Some(r.record_id) }
}

proof fn after_cursor_at_is_walk_before(x: VerifiedResource, p: VerifiedResource)
    ensures
        after_cursor(x, cursor_at(p)) == walk_before(p, x),
{
}

proof fn after_cursor_is_inherited(x: VerifiedResource, p: VerifiedResource, c: CursorState)
    requires
        after_cursor(p, c),
        after_cursor(x, cursor_at(p)),
    ensures
        after_cursor(x, c),
{
    if x.family.spec_rank() == c.family.spec_rank() && p.family.spec_rank() == c.family.spec_rank() {
        if let Some(after) = c.after_record_id {
            chars_less_transitive(after@, p.record_id@, x.record_id@);
        }
    }
}

proof fn filter_twice(s: Seq<VerifiedResource>, c: CursorState, p: VerifiedResource)
    requires
        after_cursor(p, c),
    ensures
        resources_after(s, cursor_at(p)) == resources_after(resources_after(s, c), cursor_at(p)),
    decreases s.len(),
{
    if s.len() > 0 {
        filter_twice(s.drop_last(), c, p);
        let x = s.last();
        let m0 = resources_after(s.drop_last(), c);
        if after_cursor(x, c) {
            assert(m0.push(x).drop_last() =~= m0);
        } else if after_cursor(x, cursor_at(p)) {
            after_cursor_is_inherited(x, p, c);
        }
    }
}

pub proof fn filtered_is_sorted(s: Seq<VerifiedResource>, c: CursorState)
    requires
        walk_sorted(s),
    ensures
        walk_sorted(resources_after(s, c)),
        forall|i: int| 0 <= i < resources_after(s, c).len() ==> exists|j: int| 0 <= j < s.len()
            && #[trigger] resources_after(s, c)[i] == s[j],
    decreases s.len(),
{
    if s.len() > 0 {
        let t = s.drop_last();
        assert(walk_sorted(t)) by {
            assert forall|i: int, j: int| 0 <= i < j < t.len() implies walk_before(#[trigger] t[i], #[trigger] t[j]) by {
                assert(t[i] == s[i] && t[j] == s[j]);
            }
        }
        filtered_is_sorted(t, c);
        let m0 = resources_after(t, c);
        let x = s.last();
        assert forall|i: int| 0 <= i < m0.len() implies walk_before(#[trigger] m0[i], x) by {
            let j = choose|j: int| 0 <= j < t.len() && m0[i] == t[j];
            assert(s[j] == t[j]);
            assert(walk_before(s[j], s[s.len() - 1]));
        }
        if after_cursor(x, c) {
            let m = m0.push(x);
            assert forall|i: int, j: int| 0 <= i < j < m.len() implies walk_before(#[trigger] m[i], #[trigger] m[j]) by {
                if j == m.len() - 1 {
                    assert(m[j] == x);
                    assert(m[i] == m0[i]);
                } else {
                    assert(m[i] == m0[i] && m[j] == m0[j]);
                }
            }
            assert forall|i: int| 0 <= i < m.len() implies exists|j: int| 0 <= j < s.len() && #[trigger] m[i] == s[j] by {
                if i == m.len() - 1 {
                    assert(m[i] == s[s.len() - 1]);
                } else {
                    let j = choose|j: int| 0 <= j < t.len() && m0[i] == t[j];
                    assert(m[i] == s[j]);
                }
            }
        } else {
            assert forall|i: int| 0 <= i < m0.len() implies exists|j: int| 0 <= j < s.len() && #[trigger] m0[i] == s[j] by {
                let j = choose|j: int| 0 <= j < t.len() && m0[i] == t[j];
                assert(m0[i] == s[j]);
            }
        }
    }
}

proof fn none_after_is_empty(s: Seq<VerifiedResource>, d: CursorState)
    requires
        forall|i: int| 0 <= i < s.len() ==> !after_cursor(#[trigger] s[i], d),
    ensures
        resources_after(s, d) == Seq::<VerifiedResource>::empty(),
    decreases s.len(),
{
    if s.len() > 0 {
        assert(!after_cursor(s[s.len() - 1], d));
        let t = s.drop_last();
        assert forall|i: int| 0 <= i < t.len() implies !after_cursor(#[trigger] t[i], d) by {
            assert(t[i] == s[i]);
        }
        none_after_is_empty(t, d);
    }
}

proof fn sorted_rest_after(m: Seq<VerifiedResource>, k: int)
    requires
        walk_sorted(m),
        0 < k <= m.len(),
    ensures
        resources_after(m, cursor_at(m[k - 1])) == m.skip(k),
    decreases m.len(),
{
    let p = m[k - 1];
    if m.len() == k {
        assert forall|i: int| 0 <= i < m.len() implies !after_cursor(#[trigger] m[i], cursor_at(p)) by {
            after_cursor_at_is_walk_before(m[i], p);
            if i < k - 1 {
                assert(walk_before(m[i], p));
                chars_less_asymmetric(m[i].record_id@, p.record_id@);
            } else {
                chars_less_irreflexive(p.record_id@);
            }
        }
        none_after_is_empty(m, cursor_at(p));
        assert(m.skip(k) =~= Seq::<VerifiedResource>::empty());
    } else {
        let t = m.drop_last();
        assert(walk_sorted(t)) by {
            assert forall|i: int, j: int| 0 <= i < j < t.len() implies walk_before(#[trigger] t[i], #[trigger] t[j]) by {
                assert(t[i] == m[i] && t[j] == m[j]);
            }
        }
        assert(t[k - 1] == p);
        sorted_rest_after(t, k);
        assert(walk_before(m[k - 1], m[m.len() - 1]));
        after_cursor_at_is_walk_before(m.last(), p);
        assert(t.skip(k).push(m.last()) =~= m.skip(k));
    }
}

/// Pages chain without gap or overlap: on a walk strictly ordered by family
/// and record id, the resources after the cursor that a page of `k`
/// resources hands back (the one at its last resource) are exactly the
/// resources after the original cursor that the page did not take.
pub proof fn next_page_continues(s: Seq<VerifiedResource>, c: CursorState, k: int)
    requires
        walk_sorted(s),
        0 < k < resources_after(s, c).len(),
    ensures
        resources_after(s, cursor_at(resources_after(s, c)[k - 1])) == resources_after(s, c).skip(k),
{
    let m = resources_after(s, c);
    filtered_is_sorted(s, c);
    let p = m[k - 1];
    assert(after_cursor(p, c)) by {
        resources_after_are_after(s, c);
    }
    filter_twice(s, c, p);
    sorted_rest_after(m, k);
}

/// The resources of up to `pages` successive pages of `k` resources each:
/// the first page follows `c`, and every later page follows the cursor at
/// the last resource of the page before it.
pub open spec fn successive_pages(s: Seq<VerifiedResource>, c: CursorState, k: nat, pages: nat) -> Seq<VerifiedResource>
    decreases pages,
{
    let m = resources_after(s, c);
    if pages == 0 || k == 0 {
        Seq::empty()
    } else if m.len() <= k {
        m
    } else {
        m.take(k as int) + successive_pages(s, cursor_at(m[k - 1]), k, (pages - 1) as nat)
    }
}

/// Paging a walk strictly ordered by family and record id from any cursor,
/// each page from the cursor the page before it handed back, hands back
/// every resource after the first cursor exactly once and in walk order,
/// within as many pages as there are such resources.
pub proof fn successive_pages_cover_the_walk(s: Seq<VerifiedResource>, c: CursorState, k: nat, pages: nat)
    requires
        walk_sorted(s),
        k > 0,
        pages >= resources_after(s, c).len(),
    ensures
        successive_pages(s, c, k, pages) == resources_after(s, c),
    decreases pages,
{
    let m = resources_after(s, c);
    if pages == 0 {
        assert(m =~= Seq::<VerifiedResource>::empty());
    } else if m.len() > k {
        next_page_continues(s, c, k as int);
        successive_pages_cover_the_walk(s, cursor_at(m[k - 1]), k, (pages - 1) as nat);
        assert(m.take(k as int) + m.skip(k as int) =~= m);
    }
}

proof fn resources_after_are_after(s: Seq<VerifiedResource>, c: CursorState)
    ensures
        forall|i: int| 0 <= i < resources_after(s, c).len() ==> after_cursor(#[trigger] resources_after(s, c)[i], c),
    decreases s.len(),
{
    if s.len() > 0 {
        resources_after_are_after(s.drop_last(), c);
        let m0 = resources_after(s.drop_last(), c);
        if after_cursor(s.last(), c) {
            assert forall|i: int| 0 <= i < m0.push(s.last()).len() implies after_cursor(#[trigger] m0.push(s.last())[i], c) by {
                if i < m0.len() {
                    assert(m0.push(s.last())[i] == m0[i]);
                }
            }
        }
    }
}

/// One page of a contribution and the cursor of the next, if any.
pub struct ScopePage {
    pub resources: Vec<VerifiedResource>,
    pub next: Option<CursorState>,
}

/// `r` is the page of at most `page_size` of the `matching` resources: all
/// of them and no next cursor when they fit, otherwise the first
/// `page_size` of them and a cursor at the last one taken. A page size of
/// zero with resources left is an invalid association state.
pub open spec fn is_page_of(matching: Seq<VerifiedResource>, page_size: u32, r: Result<ScopePage, PrivacyScopeError>)
    -> bool
{
    match r {
        Ok(page) => if matching.len() <= page_size {
            page.resources@ == matching && page.next is None
        } else {
            let kept = matching.take(page_size as int);
            &&& page_size > 0
            &&& page.resources@ == kept
            &&& page.next == Some(CursorState {
                family: kept.last().family,
                after_record_id: Some(kept.last().record_id),
            })
        },
        Err(e) => matching.len() > page_size && page_size == 0 && e == PrivacyScopeError::AssociationStateInvalid,
    }
}

/// Selects the page that follows `cursor` from the walk-ordered `ordered`
/// resources: at most `page_size` of them, and a cursor at the last one
/// when more remain. A page size of zero leaves no anchor for the next
/// page, which is reported as an invalid association state whenever any
/// resource remains.
pub fn select_page(ordered: &Vec<VerifiedResource>, cursor: &CursorState, page_size: u32)
    -> (r: Result<ScopePage, PrivacyScopeError>)
    ensures
        is_page_of(resources_after(ordered@, *cursor), page_size, r),
{
    let mut matching: Vec<VerifiedResource> = Vec::new();
    let mut i: usize = 0;
    while i < ordered.len()
        invariant
            i <= ordered@.len(),
            matching@ == resources_after(ordered@.take(i as int), *cursor),
        decreases ordered@.len() - i,
    {
        assert(ordered@.take(i + 1).drop_last() =~= ordered@.take(i as int));
        assert(ordered@.take(i + 1).last() == ordered@[i as int]);
        if resource_after_cursor(&ordered[i], cursor) {
            matching.push(ordered[i].clone());
        }
        i = i + 1;
    }
    assert(ordered@.take(ordered@.len() as int) =~= ordered@);
    if matching.len() <= page_size as usize {
        return Ok(ScopePage { resources: matching, next: None });
    }
    if page_size == 0 {
        return Err(PrivacyScopeError::AssociationStateInvalid);
    }
    matching.truncate(page_size as usize);
    let last = matching.len() - 1;
    let next = CursorState { family: matching[last].family, after_record_id: Some(matching[last].record_id.clone()) };
    Ok(ScopePage { resources: matching, next: Some(next) })
}

} // verus!
