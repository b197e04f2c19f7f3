use vstd::prelude::*;

pub mod capability;
pub mod cp_case;
pub mod cp_query;
pub mod cp_wire;
pub mod dq_capability;
pub mod dq_finding;
pub mod dq_materialize;
pub mod dq_model;
pub mod dq_publication;
pub mod dq_query;
pub mod dq_requests;
pub mod dq_stage;
pub mod dq_stage_cycle;
pub mod dq_visibility;
pub mod dq_wire;
pub mod errors;
pub mod global_search;
pub mod ir_candidate;
pub mod ir_capability;
pub mod ir_merge;
pub mod lookup;
pub mod page_collect;
pub mod privacy_associations;
pub mod privacy_contract;
pub mod privacy_owner_action;
pub mod privacy_page;
pub mod privacy_records;
pub mod privacy_resolution;
pub mod privacy_scope_read;
pub mod privacy_walk;
pub mod text;

verus! {

} // verus!
