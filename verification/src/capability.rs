//! The shape of a capability definition: the coordinates, payload contracts
//! and governance flags under which a module publishes a query or mutation.
use vstd::prelude::*;

verus! {

/// The version that every capability contract of this release carries.
pub const CONTRACT_VERSION: &'static str = "1.0.0";

/// Classification of the data a payload may carry.
#[derive(Debug, Clone, Copy, PartialEq, Eq, Structural)]
pub enum DataClass {
    Public,
    Internal,
    Confidential,
    Restricted,
    Personal,
    SensitivePersonal,
    Biometric,
    Financial,
    Credential,
}

/// Wire encoding of a payload.
#[derive(Debug, Clone, Copy, PartialEq, Eq, Structural)]
pub enum PayloadEncoding {
    Protobuf,
    Json,
}

/// Governance risk of a capability.
#[derive(Debug, Clone, Copy, PartialEq, Eq, Structural)]
pub enum CapabilityRisk {
    Low,
    Medium,
    High,
}

/// What a payload crossing a capability boundary must be.
#[derive(Debug)]
pub struct PayloadContract {
    pub owner: String,
    pub schema_id: String,
    pub schema_version: String,
    pub allowed_data_classes: Vec<DataClass>,
    pub allowed_encodings: Vec<PayloadEncoding>,
    /// The byte limit; `None` is the shared limit that every Protobuf
    /// contract of the platform carries.
    pub maximum_size_bytes: Option<u64>,
}

/// A published capability.
#[derive(Debug)]
pub struct CapabilityDefinition {
    pub capability_id: String,
    pub capability_version: String,
    pub owner_module_id: String,
    pub input_contract: PayloadContract,
    pub output_contract: Option<PayloadContract>,
    pub risk: CapabilityRisk,
    pub mutation: bool,
    pub requires_idempotency: bool,
    pub requires_approval: bool,
    pub authorization_policy_id: String,
    pub rate_limit_policy_id: Option<String>,
}

/// `c` is the Protobuf contract of `owner` for `schema`, admitting exactly `class`.
pub open spec fn is_protobuf_contract(c: PayloadContract, owner: Seq<char>, schema: Seq<char>, class: DataClass) -> bool {
    &&& c.owner@ == owner
    &&& c.schema_id@ == schema
    &&& c.schema_version@ == CONTRACT_VERSION@
    &&& c.allowed_data_classes@ == seq![class]
    &&& c.allowed_encodings@ == seq![PayloadEncoding::Protobuf]
    &&& c.maximum_size_bytes is None
}

/// The Protobuf contract of `owner` for `schema`, admitting exactly `class`.
pub fn protobuf_contract(owner: &str, schema: &str, class: DataClass) -> (r: PayloadContract)
    ensures
        is_protobuf_contract(r, owner@, schema@, class),
{
    let mut classes = Vec::new();
    classes.push(class);
    let mut encodings = Vec::new();
    encodings.push(PayloadEncoding::Protobuf);
    PayloadContract {
        owner: owner.to_owned(),
        schema_id: schema.to_owned(),
        schema_version: CONTRACT_VERSION.to_owned(),
        allowed_data_classes: classes,
        allowed_encodings: encodings,
        maximum_size_bytes: None,
    }
}

/// `d` publishes `id` of `owner` with Protobuf input `input` and output
/// `output` contracts admitting exactly `class`, at the release contract
/// version, authorized by the policy named after `id` and without a rate
/// limit policy.
pub open spec fn is_protobuf_definition(
    d: CapabilityDefinition,
    id: Seq<char>,
    owner: Seq<char>,
    input: Seq<char>,
    output: Seq<char>,
    class: DataClass,
) -> bool {
    &&& d.capability_id@ == id
    &&& d.capability_version@ == CONTRACT_VERSION@
    &&& d.owner_module_id@ == owner
    &&& is_protobuf_contract(d.input_contract, owner, input, class)
    &&& d.output_contract matches Some(out) && is_protobuf_contract(out, owner, output, class)
    &&& d.authorization_policy_id@ == id
    &&& d.rate_limit_policy_id is None
}

/// A definition of `id` with Protobuf contracts and the given governance.
pub fn protobuf_definition(
    id: &str,
    owner: &str,
    input: &str,
    output: &str,
    class: DataClass,
    risk: CapabilityRisk,
    mutation: bool,
    requires_idempotency: bool,
) -> (r: CapabilityDefinition)
    ensures
        is_protobuf_definition(r, id@, owner@, input@, output@, class),
        r.risk == risk,
        r.mutation == mutation,
        r.requires_idempotency == requires_idempotency,
        !r.requires_approval,
{
    CapabilityDefinition {
        capability_id: id.to_owned(),
        capability_version: CONTRACT_VERSION.to_owned(),
        owner_module_id: owner.to_owned(),
        input_contract: protobuf_contract(owner, input, class),
        output_contract: Some(protobuf_contract(owner, output, class)),
        risk,
        mutation,
        requires_idempotency,
        requires_approval: false,
        authorization_policy_id: id.to_owned(),
        rate_limit_policy_id: None,
    }
}

} // verus!
