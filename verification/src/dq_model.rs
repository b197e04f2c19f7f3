//! Names of the Data Quality owner module and of the record types it owns.
use vstd::prelude::*;

verus! {

/// The Data Quality owner module.
pub const MODULE_ID: &'static str = "crm.data-quality";

pub const PARTY_RULE_SET_VERSION_RECORD_TYPE: &'static str = "data_quality.party_rule_set_version";
pub const PARTY_COMPLETENESS_PROFILE_VERSION_RECORD_TYPE: &'static str = "data_quality.party_completeness_profile_version";
pub const PARTY_EVALUATION_JOB_RECORD_TYPE: &'static str = "data_quality.party_evaluation_job";
pub const PARTY_EVALUATION_INPUT_RECORD_TYPE: &'static str = "data_quality.party_evaluation_input";
pub const RULE_OUTCOME_RECORD_TYPE: &'static str = "data_quality.rule_outcome";
pub const FINDING_RECORD_TYPE: &'static str = "data_quality.finding";
pub const FINDING_OBSERVATION_RECORD_TYPE: &'static str = "data_quality.finding_observation";
pub const PARTY_COMPLETENESS_RESULT_RECORD_TYPE: &'static str = "data_quality.party_completeness_result";
pub const REMEDIATION_ATTEMPT_RECORD_TYPE: &'static str = "data_quality.remediation_attempt";


/// How severe a failed quality rule is.
#[derive(Debug, Clone, Copy, PartialEq, Eq, Structural)]
pub enum QualitySeverity {
    Info,
    Warning,
    Error,
    Critical,
}

/// The severity a wire number names; the unspecified number `0` and unknown
/// numbers name none.
pub open spec fn severity_from_wire(value: i32) -> Option<QualitySeverity> {
    if value == 1 {
        Some(QualitySeverity::Info)
    } else if value == 2 {
        Some(QualitySeverity::Warning)
    } else if value == 3 {
        Some(QualitySeverity::Error)
    } else if value == 4 {
        Some(QualitySeverity::Critical)
    } else {
        None
    }
}

/// The wire number of a severity.
pub open spec fn severity_to_wire(value: QualitySeverity) -> i32 {
    match value {
        QualitySeverity::Info => 1,
        QualitySeverity::Warning => 2,
        QualitySeverity::Error => 3,
        QualitySeverity::Critical => 4,
    }
}

impl QualitySeverity {
    /// Reads a wire severity.
    pub fn from_wire(value: i32) -> (r: Option<QualitySeverity>)
        ensures
            r == severity_from_wire(value),
    {
        if value == 1 {
            Some(QualitySeverity::Info)
        } else if value == 2 {
            Some(QualitySeverity::Warning)
        } else if value == 3 {
            Some(QualitySeverity::Error)
        } else if value == 4 {
            Some(QualitySeverity::Critical)
        } else {
            None
        }
    }

    /// The wire number of this severity.
    pub fn to_wire(self) -> (r: i32)
        ensures
            r == severity_to_wire(self),
    {
        match self {
            QualitySeverity::Info => 1,
            QualitySeverity::Warning => 2,
            QualitySeverity::Error => 3,
            QualitySeverity::Critical => 4,
        }
    }
}

/// Stewardship status of a finding.
#[derive(Debug, Clone, Copy, PartialEq, Eq, Structural)]
pub enum FindingStatus {
    Open,
    Acknowledged,
    Waived,
    Remediated,
}

/// The status a wire number names; the unspecified number `0` and unknown
/// numbers name none.
pub open spec fn status_from_wire(value: i32) -> Option<FindingStatus> {
    if value == 1 {
        Some(FindingStatus::Open)
    } else if value == 2 {
        Some(FindingStatus::Acknowledged)
    } else if value == 3 {
        Some(FindingStatus::Waived)
    } else if value == 4 {
        Some(FindingStatus::Remediated)
    } else {
        None
    }
}

/// The wire number of a status.
pub open spec fn status_to_wire(value: FindingStatus) -> i32 {
    match value {
        FindingStatus::Open => 1,
        FindingStatus::Acknowledged => 2,
        FindingStatus::Waived => 3,
        FindingStatus::Remediated => 4,
    }
}

impl FindingStatus {
    /// Reads a wire status.
    pub fn from_wire(value: i32) -> (r: Option<FindingStatus>)
        ensures
            r == status_from_wire(value),
    {
        if value == 1 {
            Some(FindingStatus::Open)
        } else if value == 2 {
            Some(FindingStatus::Acknowledged)
        } else if value == 3 {
            Some(FindingStatus::Waived)
        } else if value == 4 {
            Some(FindingStatus::Remediated)
        } else {
            None
        }
    }

    /// The wire number of this status.
    pub fn to_wire(self) -> (r: i32)
        ensures
            r == status_to_wire(self),
    {
        match self {
            FindingStatus::Open => 1,
            FindingStatus::Acknowledged => 2,
            FindingStatus::Waived => 3,
            FindingStatus::Remediated => 4,
        }
    }
}

/// Every severity and status reads back from its own wire number, and no
/// wire number names two of them.
pub proof fn wire_numbers_round_trip(severity: QualitySeverity, status: FindingStatus, value: i32)
    ensures
        severity_from_wire(severity_to_wire(severity)) == Some(severity),
        status_from_wire(status_to_wire(status)) == Some(status),
        severity_from_wire(value) matches Some(s) ==> severity_to_wire(s) == value,
        status_from_wire(value) matches Some(s) ==> status_to_wire(s) == value,
        severity_from_wire(0) is None,
        status_from_wire(0) is None,
{
}

} // verus!
