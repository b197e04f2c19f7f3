//! Strict acceptance of the persisted Data Quality rows that a privacy-scope
//! contribution reads: metadata against the authoritative persisted
//! contract, decoded identity against the stored record, the frozen scan
//! bounds, and the definition catalog that lineage validation resolves
//! against.
use vstd::prelude::*;
use crate::capability::DataClass;
use crate::lookup::{Keyed, has_key};
use crate::privacy_associations::{DefinitionCatalog, ProfileDefinition, RuleSetDefinition};
use crate::privacy_contract::{
    PrivacyScopeError, MAX_PRIVACY_DEFINITION_RECORDS_REHYDRATED, MAX_PRIVACY_OWNER_RECORDS_SCANNED,
    PRIVACY_OWNER_SCAN_BATCH_SIZE,
};
use crate::text::{bytes_eq, str_eq};

verus! {

/// What a persisted Data Quality payload must carry.
pub struct PersistedPayloadContract {
    pub owner: String,
    pub schema_id: String,
    pub schema_version: String,
    pub descriptor_hash: Vec<u8>,
    pub maximum_size_bytes: u64,
    pub retention_policy_id: String,
}

/// One row of the authoritative record store, as read.
pub struct StoredRecordRow {
    pub record_id: String,
    pub version: i64,
    pub owner_module_id: String,
    pub schema_id: String,
    pub schema_version: String,
    pub descriptor_hash: Vec<u8>,
    pub data_class: String,
    pub payload_encoding: String,
    pub maximum_payload_size: i64,
    pub retention_policy_id: String,
    pub payload_bytes: Vec<u8>,
}

/// How a data class is spelled in the record store, for the two classes
/// that Data Quality persists.
pub open spec fn stored_data_class(class: DataClass) -> Option<Seq<char>> {
    match class {
        DataClass::Confidential => Some("confidential"@),
        DataClass::Personal => Some("personal"@),
        _ => None,
    }
}

/// The row's metadata is exactly the persisted contract's, under `class`.
pub open spec fn row_matches_contract(row: StoredRecordRow, contract: PersistedPayloadContract, class: DataClass) -> bool {
    &&& stored_data_class(class) is Some
    &&& row.version > 0
    &&& row.owner_module_id@ == contract.owner@
    &&& row.schema_id@ == contract.schema_id@
    &&& row.schema_version@ == contract.schema_version@
    &&& row.descriptor_hash@ == contract.descriptor_hash@
    &&& row.data_class@ == stored_data_class(class).unwrap()
    &&& row.payload_encoding@ == "json"@
    &&& row.maximum_payload_size == contract.maximum_size_bytes as i64
    &&& row.retention_policy_id@ == contract.retention_policy_id@
}

/// Accepts a row whose metadata matches the persisted contract under `class`.
pub fn check_row_metadata(row: &StoredRecordRow, contract: &PersistedPayloadContract, class: DataClass)
    -> (r: Result<(), PrivacyScopeError>)
    ensures
        r is Ok <==> row_matches_contract(*row, *contract, class),
        r is Err ==> r == Err::<(), PrivacyScopeError>(PrivacyScopeError::StoredStateInvalid),
{
    let expected = match class {
        DataClass::Confidential => "confidential",
        DataClass::Personal => "personal",
        _ => return Err(PrivacyScopeError::StoredStateInvalid),
    };
    if row.version <= 0
        || row.owner_module_id != contract.owner
        || row.schema_id != contract.schema_id
        || row.schema_version != contract.schema_version
        || !bytes_eq(row.descriptor_hash.as_slice(), contract.descriptor_hash.as_slice())
        || !str_eq(row.data_class.as_str(), expected)
        || !str_eq(row.payload_encoding.as_str(), "json")
        || row.maximum_payload_size != contract.maximum_size_bytes as i64
        || row.retention_policy_id != contract.retention_policy_id
    {
        return Err(PrivacyScopeError::StoredStateInvalid);
    }
    Ok(())
}

/// Accepts an immutable record: its decoded identity is the stored record's
/// and it was never updated.
pub fn check_immutable_identity(decoded_id: &String, row: &StoredRecordRow) -> (r: Result<(), PrivacyScopeError>)
    ensures
        r is Ok <==> decoded_id@ == row.record_id@ && row.version == 1,
        r is Err ==> r == Err::<(), PrivacyScopeError>(PrivacyScopeError::StoredStateInvalid),
{
    if *decoded_id != row.record_id || row.version != 1 {
        return Err(PrivacyScopeError::StoredStateInvalid);
    }
    Ok(())
}

/// Accepts a mutable record whose decoded identity is the stored record's.
pub fn check_identity(decoded_id: &String, row: &StoredRecordRow) -> (r: Result<(), PrivacyScopeError>)
    ensures
        r is Ok <==> decoded_id@ == row.record_id@,
        r is Err ==> r == Err::<(), PrivacyScopeError>(PrivacyScopeError::StoredStateInvalid),
{
    if *decoded_id != row.record_id {
        return Err(PrivacyScopeError::StoredStateInvalid);
    }
    Ok(())
}

/// A stored version as an unsigned resource version; a negative version is
/// invalid stored state.
pub fn positive_version(version: i64) -> (r: Result<u64, PrivacyScopeError>)
    ensures
        match r {
            Ok(v) => version >= 0 && v == version,
            Err(e) => version < 0 && e == PrivacyScopeError::StoredStateInvalid,
        },
{
    if version < 0 {
        return Err(PrivacyScopeError::StoredStateInvalid);
    }
    Ok(version as u64)
}

/// Accepts the two definition families when their joint size stays within
/// the definition rehydration bound.
pub fn check_definition_count(rule_sets: usize, profiles: usize) -> (r: Result<(), PrivacyScopeError>)
    ensures
        r is Ok <==> rule_sets + profiles <= MAX_PRIVACY_DEFINITION_RECORDS_REHYDRATED,
        r is Err ==> r == Err::<(), PrivacyScopeError>(PrivacyScopeError::ScanLimitExceeded),
{
    match rule_sets.checked_add(profiles) {
        None => Err(PrivacyScopeError::ScanLimitExceeded),
        Some(total) => if total > MAX_PRIVACY_DEFINITION_RECORDS_REHYDRATED {
            Err(PrivacyScopeError::ScanLimitExceeded)
        } else {
            Ok(())
        },
    }
}

/// Sum of the per-family owner record counts.
pub open spec fn seq_sum(s: Seq<usize>) -> int
    decreases s.len(),
{
    if s.len() == 0 { 0 } else { seq_sum(s.drop_last()) + s.last() }
}

/// The number of owner records scanned across the seven families, when it
/// stays within the owner scan bound.
pub fn owner_scan_total(counts: &[usize; 7]) -> (r: Result<u64, PrivacyScopeError>)
    ensures
        match r {
            Ok(total) => seq_sum(counts@) <= MAX_PRIVACY_OWNER_RECORDS_SCANNED && total == seq_sum(counts@),
            Err(e) => seq_sum(counts@) > MAX_PRIVACY_OWNER_RECORDS_SCANNED && e == PrivacyScopeError::ScanLimitExceeded,
        },
{
    let mut total: usize = 0;
    let mut i: usize = 0;
    while i < 7
        invariant
            i <= 7,
            counts@.len() == 7,
            total == seq_sum(counts@.take(i as int)),
            total <= MAX_PRIVACY_OWNER_RECORDS_SCANNED,
        decreases 7 - i,
    {
        assert(counts@.take(i + 1).drop_last() =~= counts@.take(i as int));
        let next = counts[i];
        if next > MAX_PRIVACY_OWNER_RECORDS_SCANNED - total {
            proof {
                lemma_sum_prefix_le(counts@, i + 1);
            }
            return Err(PrivacyScopeError::ScanLimitExceeded);
        }
        total = total + next;
        i = i + 1;
    }
    assert(counts@.take(7) =~= counts@);
    Ok(total as u64)
}

proof fn lemma_sum_prefix_le(s: Seq<usize>, i: int)
    requires
        0 <= i <= s.len(),
    ensures
        seq_sum(s.take(i)) <= seq_sum(s),
    decreases s.len(),
{
    if i < s.len() {
        assert(s.drop_last().take(i) =~= s.take(i));
        lemma_sum_prefix_le(s.drop_last(), i);
    } else {
        assert(s.take(i) =~= s);
    }
}

/// No two entries of `s` share a key.
pub open spec fn distinct_keys<T: Keyed>(s: Seq<T>) -> bool {
    forall|i: int, j: int| 0 <= i < j < s.len() ==> #[trigger] s[i].key() != #[trigger] s[j].key()
}

fn key_before<T: Keyed>(items: &Vec<T>, end: usize, key: &String) -> (r: bool)
    requires
        end <= items@.len(),
    ensures
        r == exists|j: int| 0 <= j < end && #[trigger] items@[j].key() == key@,
{
    let mut j: usize = 0;
    while j < end
        invariant
            j <= end,
            end <= items@.len(),
            forall|k: int| 0 <= k < j ==> #[trigger] items@[k].key() != key@,
        decreases end - j,
    {
        if *items[j].key_string() == *key {
            return true;
        }
        j = j + 1;
    }
    false
}

/// The definitions form a strict catalog: rule-set versions and profile
/// versions are each unique, and every profile names a rule set of the
/// catalog.
pub open spec fn strict_catalog(rule_sets: Seq<RuleSetDefinition>, profiles: Seq<ProfileDefinition>) -> bool {
    &&& distinct_keys(rule_sets)
    &&& distinct_keys(profiles)
    &&& forall|i: int| 0 <= i < profiles.len() ==> has_key(rule_sets, #[trigger] profiles[i].rule_set_version_id@)
}

/// Builds the strict definition catalog, refusing duplicate identities and
/// profiles whose rule set is missing.
pub fn build_definition_catalog(rule_sets: Vec<RuleSetDefinition>, profiles: Vec<ProfileDefinition>)
    -> (r: Result<DefinitionCatalog, PrivacyScopeError>)
    ensures
        match r {
            Ok(catalog) => strict_catalog(rule_sets@, profiles@) && catalog.rule_sets@ == rule_sets@
                && catalog.profiles@ == profiles@,
            Err(e) => !strict_catalog(rule_sets@, profiles@) && e == PrivacyScopeError::StoredStateInvalid,
        },
{
    let mut i: usize = 0;
    while i < rule_sets.len()
        invariant
            i <= rule_sets@.len(),
            forall|a: int, b: int| 0 <= a < b < i ==> #[trigger] rule_sets@[a].key() != #[trigger] rule_sets@[b].key(),
        decreases rule_sets@.len() - i,
    {
        if key_before(&rule_sets, i, &rule_sets[i].version_id) {
            proof {
                let j = choose|j: int| 0 <= j < i && #[trigger] rule_sets@[j].key() == rule_sets@[i as int].version_id@;
                assert(rule_sets@[j].key() == rule_sets@[i as int].key());
            }
            return Err(PrivacyScopeError::StoredStateInvalid);
        }
        i = i + 1;
    }
    let mut k: usize = 0;
    while k < profiles.len()
        invariant
            k <= profiles@.len(),
            distinct_keys(rule_sets@),
            forall|a: int, b: int| 0 <= a < b < k ==> #[trigger] profiles@[a].key() != #[trigger] profiles@[b].key(),
            forall|a: int| 0 <= a < k ==> has_key(rule_sets@, #[trigger] profiles@[a].rule_set_version_id@),
        decreases profiles@.len() - k,
    {
        if !key_before(&rule_sets, rule_sets.len(), &profiles[k].rule_set_version_id) {
            proof {
                assert(!has_key(rule_sets@, profiles@[k as int].rule_set_version_id@));
            }
            return Err(PrivacyScopeError::StoredStateInvalid);
        }
        if key_before(&profiles, k, &profiles[k].version_id) {
            proof {
                let j = choose|j: int| 0 <= j < k && #[trigger] profiles@[j].key() == profiles@[k as int].version_id@;
                assert(profiles@[j].key() == profiles@[k as int].key());
            }
            return Err(PrivacyScopeError::StoredStateInvalid);
        }
        k = k + 1;
    }
    Ok(DefinitionCatalog { rule_sets, profiles })
}

} // verus!

verus! {

/// The rows of one record family read so far, in record-id order, batch by
/// batch, and the identity after which the next batch is read.
pub struct RecordScan {
    rows: Vec<StoredRecordRow>,
    after_record_id: String,
    maximum: usize,
}

impl RecordScan {
    /// The rows taken so far, in the order read.
    pub closed spec fn rows_read(self) -> Seq<StoredRecordRow> {
        self.rows@
    }

    /// The identity after which the next batch is read.
    pub closed spec fn after(self) -> Seq<char> {
        self.after_record_id@
    }

    /// The most rows the family may hold.
    pub closed spec fn bound(self) -> nat {
        self.maximum as nat
    }

    /// A scan of a family that may hold at most `maximum` rows, read from
    /// the first identity on.
    pub fn new(maximum: usize) -> (r: Self)
        ensures
            r.rows_read() == Seq::<StoredRecordRow>::empty(),
            r.after() == Seq::<char>::empty(),
            r.bound() == maximum,
    {
        RecordScan { rows: Vec::new(), after_record_id: String::new(), maximum }
    }

    /// The identity after which the next batch is read.
    pub fn after_record_id(&self) -> (r: &String)
        ensures
            r@ == self.after(),
    {
        &self.after_record_id
    }

    /// Takes one batch read after [`Self::after_record_id`]; more rows than
    /// the bound refuse the scan. Returns whether another batch is to be
    /// read: only a full batch leaves more to read, and the next one starts
    /// after the last identity taken.
    pub fn record_batch(&mut self, batch: Vec<StoredRecordRow>) -> (r: Result<bool, PrivacyScopeError>)
        ensures
            old(self).rows_read().len() + batch@.len() > old(self).bound() ==> r == Err::<bool, PrivacyScopeError>(
                PrivacyScopeError::ScanLimitExceeded) && *final(self) == *old(self),
            old(self).rows_read().len() + batch@.len() <= old(self).bound() ==> {
                &&& r == Ok::<bool, PrivacyScopeError>(batch@.len() >= PRIVACY_OWNER_SCAN_BATCH_SIZE)
                &&& final(self).rows_read() == old(self).rows_read() + batch@
                &&& final(self).bound() == old(self).bound()
                &&& final(self).after() == if batch@.len() == 0 {
                    old(self).after()
                } else {
                    batch@.last().record_id@
                }
            },
    {
        let total = match self.rows.len().checked_add(batch.len()) {
            None => return Err(PrivacyScopeError::ScanLimitExceeded),
            Some(t) => t,
        };
        if total > self.maximum {
            return Err(PrivacyScopeError::ScanLimitExceeded);
        }
        let count = batch.len();
        if count == 0 {
            return Ok(false);
        }
        let last = batch[count - 1].record_id.clone();
        let mut batch = batch;
        self.rows.append(&mut batch);
        self.after_record_id = last;
        Ok(count as u64 >= PRIVACY_OWNER_SCAN_BATCH_SIZE as u64)
    }

    /// The rows taken, in the order read.
    pub fn into_rows(self) -> (r: Vec<StoredRecordRow>)
        ensures
            r@ == self.rows_read(),
    {
        self.rows
    }
}


/// A stored row is accepted only with a positive version and exactly the
/// persisted contract's owner, schema, descriptor and retention, as JSON of
/// the stored spelling of a class Data Quality persists.
pub proof fn accepted_rows_carry_the_persisted_contract(row: StoredRecordRow, contract: PersistedPayloadContract,
    class: DataClass)
    ensures
        row_matches_contract(row, contract, class) ==> {
            &&& row.version > 0
            &&& row.owner_module_id@ == contract.owner@
            &&& row.schema_id@ == contract.schema_id@
            &&& row.schema_version@ == contract.schema_version@
            &&& row.descriptor_hash@ == contract.descriptor_hash@
            &&& row.retention_policy_id@ == contract.retention_policy_id@
            &&& row.payload_encoding@ == "json"@
            &&& (class == DataClass::Personal ==> row.data_class@ == "personal"@)
            &&& (class == DataClass::Confidential ==> row.data_class@ == "confidential"@)
            &&& (class == DataClass::Personal || class == DataClass::Confidential)
        },
{
}

} // verus!
