//! The domain entities: identifiers, checkpoints, proofs, and the records the
//! preview, queue and policy engine report.
use crate::hash;
use vstd::prelude::*;

verus! {

/// A user identifier; equality is bytewise.
#[derive(Debug, Clone, PartialEq, Eq, Hash)]
pub struct UserId(pub String);

/// A contract identifier; equality is bytewise.
#[derive(Debug, Clone, PartialEq, Eq, Hash)]
pub struct ContractId(pub String);

impl View for UserId {
    type V = Seq<char>;

    open spec fn view(&self) -> Seq<char> {
        self.0@
    }
}

impl View for ContractId {
    type V = Seq<char>;

    open spec fn view(&self) -> Seq<char> {
        self.0@
    }
}

impl UserId {
    /// A copy with the same text.
    pub fn duplicate(&self) -> (r: UserId)
        ensures
            r@ == self@,
    {
        UserId(self.0.clone())
    }
}

impl ContractId {
    /// A copy with the same text.
    pub fn duplicate(&self) -> (r: ContractId)
        ensures
            r@ == self@,
    {
        ContractId(self.0.clone())
    }
}

/// Identifies a callable function: a contract and a function name.
#[derive(Debug, Clone, PartialEq, Eq)]
pub struct CfcId {
    pub contract_id: ContractId,
    pub function_name: String,
}

/// Anchors a session to a finalized global state.
#[derive(Debug, Clone)]
pub struct CheckpointRef {
    pub chkp_root: hash::Hash,
    pub block_number: u64,
}

/// The user's leaf at session open.
#[derive(Debug, Clone, Copy)]
pub struct UserLeafCtx {
    pub uleaf_hash: hash::Hash,
    pub ucon_root: hash::Hash,
    pub balance: u64,
    pub nonce: u64,
}

/// Canonical identity of a whitelisted function.
#[derive(Debug, Clone, PartialEq, Eq, Hash)]
pub struct CfcFingerprint(pub String);

impl View for CfcFingerprint {
    type V = Seq<char>;

    open spec fn view(&self) -> Seq<char> {
        self.0@
    }
}

/// Root of the function-whitelist tree of one contract.
#[derive(Debug, Clone, Copy)]
pub struct CftRoot(pub hash::Hash);

/// Sibling digests bottom-up, and the root they lead to.
#[derive(Debug, Clone)]
pub struct CftInclusionProof {
    pub merkle_path: Vec<hash::Hash>,
    pub cft_root: CftRoot,
}

/// Witnesses a transition of one contract state root.
#[derive(Debug, Clone)]
pub struct CstateDeltaProof {
    pub old_root: hash::Hash,
    pub new_root: hash::Hash,
    pub merkle_path: Vec<hash::Hash>,
    pub modified_leaves: Vec<(u64, hash::Hash)>,
}

/// Lifts a contract state delta into the user's container.
#[derive(Debug, Clone)]
pub struct UconDeltaProof {
    pub old_root: hash::Hash,
    pub new_root: hash::Hash,
    pub contract_id: ContractId,
    pub cstate_delta: CstateDeltaProof,
}

#[derive(Debug, Clone)]
pub struct DebtDeltaProof {
    pub old_debts: Vec<(ContractId, u64)>,
    pub new_debts: Vec<(ContractId, u64)>,
}

#[derive(Debug, Clone)]
pub struct CfcInputs {
    pub function_args: Vec<u8>,
    pub caller: UserId,
    pub contract_state_root: hash::Hash,
}

/// Opaque proof bytes and the result of one call.
#[derive(Debug, Clone)]
pub struct CfcProof {
    pub proof_data: Vec<u8>,
    pub tx_end_ctx: TxEndCtx,
}

/// The result of one contract function call.
#[derive(Debug, Clone)]
pub struct TxEndCtx {
    pub end_contract_state_root: hash::Hash,
    pub gas_used: u64,
    pub success: bool,
    pub return_data: Vec<u8>,
}

#[derive(Debug, Clone)]
pub struct UpsHeader {
    pub user_id: UserId,
    pub checkpoint_ref: CheckpointRef,
    pub user_leaf_ctx: UserLeafCtx,
    pub session_id: String,
}

/// One fold of the session proof; step 0 is the empty fold.
#[derive(Debug, Clone)]
pub struct UpsStepProof {
    pub step_number: u32,
    pub accumulated_proof: Vec<u8>,
    pub current_ucon_root: hash::Hash,
    pub current_debts: Vec<(ContractId, u64)>,
}

#[derive(Debug, Clone)]
pub struct SignatureProof {
    pub proof_data: Vec<u8>,
    pub public_key_hash: hash::Hash,
    pub policy_satisfied: Vec<String>,
}

/// The terminal artifact of a session.
#[derive(Debug, Clone)]
pub struct EndCapProof {
    pub ups_header: UpsHeader,
    pub final_step: UpsStepProof,
    pub signature_proof: SignatureProof,
    pub timestamp: u64,
}

/// The slots of one contract that a session changed.
#[derive(Debug, Clone)]
pub struct CstateDelta {
    pub contract_id: ContractId,
    pub modified_slots: Vec<(u64, Vec<u8>)>,
}

#[derive(Debug, Clone)]
pub struct SubmitReceipt {
    pub receipt_id: String,
    pub timestamp: u64,
    pub guta_path: Option<GutaPath>,
}

/// Where the aggregation layer placed an end cap.
#[derive(Debug, Clone)]
pub struct GutaPath {
    pub realm_segment: String,
    pub coordinator_segment: String,
    pub global_root: hash::Hash,
}

#[derive(Debug, Clone)]
pub struct CftVerificationResult {
    pub fingerprint: CfcFingerprint,
    pub in_cft: bool,
    pub cft_root: CftRoot,
    pub depth: usize,
    pub merkle_path: Option<Vec<hash::Hash>>,
    pub source: String,
}

/// What a contract call would change, predicted without committing it.
#[derive(Debug, Clone)]
pub struct ReadOnlyPreviewResult {
    pub success: bool,
    pub slots_to_modify: Vec<SlotModification>,
    pub balance_changes: Vec<BalanceChange>,
    pub will_trigger_limit: bool,
    pub requires_2fa: bool,
    pub estimated_gas: u64,
    pub error_message: Option<String>,
}

#[derive(Debug, Clone)]
pub struct SlotModification {
    pub slot_index: u64,
    pub old_value: Vec<u8>,
    pub new_value: Vec<u8>,
    pub description: String,
}

#[derive(Debug, Clone)]
pub struct BalanceChange {
    pub account: UserId,
    pub old_balance: u64,
    pub new_balance: u64,
    pub delta: i64,
}

#[derive(Debug, Clone)]
pub struct UpsQueueItem {
    pub index: u32,
    pub cfc_id: CfcId,
    pub args: String,
    pub status: UpsQueueItemStatus,
    pub preview_result: Option<ReadOnlyPreviewResult>,
    pub cft_verification: Option<CftVerificationResult>,
}

#[derive(Debug, Clone, Copy, PartialEq, Eq, Structural)]
pub enum UpsQueueItemStatus {
    Pending,
    PreviewSuccess,
    PreviewFailed,
    Executing,
    Success,
    Failed,
}

#[derive(Debug, Clone, Copy)]
pub struct UpsAccumulatedInfo {
    pub total_items: u32,
    pub total_proving_time_ms: u64,
    pub estimated_endcap_size_kb: u64,
    pub old_ucon_root: hash::Hash,
    pub new_ucon_root: hash::Hash,
}

/// One result per policy rule, and the second-factor record.
#[derive(Debug, Clone)]
pub struct SdkeyConstraintCheck {
    pub limit_check: ConstraintCheckResult,
    pub whitelist_check: ConstraintCheckResult,
    pub timelock_check: ConstraintCheckResult,
    pub twofa_check: TwoFaCheckResult,
}

#[derive(Debug, Clone)]
pub struct ConstraintCheckResult {
    pub passed: bool,
    pub message: String,
}

#[derive(Debug, Clone)]
pub struct TwoFaCheckResult {
    pub required: bool,
    pub verified: bool,
    pub message: String,
}

/// The debts of a step as identifier text and amount.
pub open spec fn debts_view(d: Seq<(ContractId, u64)>) -> Seq<(Seq<char>, u64)> {
    Seq::new(d.len(), |i: int| (d[i].0@, d[i].1))
}

/// The modified slots of a delta as slot and value bytes.
pub open spec fn slots_view(d: Seq<(u64, Vec<u8>)>) -> Seq<(u64, Seq<u8>)> {
    Seq::new(d.len(), |i: int| (d[i].0, d[i].1@))
}

/// A copy of a list of debts.
pub fn copy_debts(d: &Vec<(ContractId, u64)>) -> (r: Vec<(ContractId, u64)>)
    ensures
        debts_view(r@) == debts_view(d@),
{
    let mut r: Vec<(ContractId, u64)> = Vec::new();
    let mut i: usize = 0;
    while i < d.len()
        invariant
            0 <= i <= d@.len(),
            r@.len() == i,
            debts_view(r@) == debts_view(d@).subrange(0, i as int),
        decreases d@.len() - i,
    {
        r.push((d[i].0.duplicate(), d[i].1));
        i = i + 1;
        assert(debts_view(r@) =~= debts_view(d@).subrange(0, i as int));
    }
    assert(debts_view(d@).subrange(0, i as int) =~= debts_view(d@));
    r
}

fn copy_bytes(b: &Vec<u8>) -> (r: Vec<u8>)
    ensures
        r@ == b@,
{
    let mut r: Vec<u8> = Vec::new();
    let mut i: usize = 0;
    while i < b.len()
        invariant
            0 <= i <= b@.len(),
            r@ == b@.subrange(0, i as int),
        decreases b@.len() - i,
    {
        r.push(b[i]);
        i = i + 1;
        assert(r@ =~= b@.subrange(0, i as int));
    }
    assert(b@.subrange(0, i as int) =~= b@);
    r
}

impl CstateDelta {
    /// A copy with the same contract and slots.
    pub fn duplicate(&self) -> (r: CstateDelta)
        ensures
            r.contract_id@ == self.contract_id@,
            slots_view(r.modified_slots@) == slots_view(self.modified_slots@),
    {
        let mut slots: Vec<(u64, Vec<u8>)> = Vec::new();
        let mut i: usize = 0;
        while i < self.modified_slots.len()
            invariant
                0 <= i <= self.modified_slots@.len(),
                slots@.len() == i,
                slots_view(slots@) == slots_view(self.modified_slots@).subrange(0, i as int),
            decreases self.modified_slots@.len() - i,
        {
            slots.push((self.modified_slots[i].0, copy_bytes(&self.modified_slots[i].1)));
            i = i + 1;
            assert(slots_view(slots@) =~= slots_view(self.modified_slots@).subrange(0, i as int));
        }
        assert(slots_view(self.modified_slots@).subrange(0, i as int) =~= slots_view(self.modified_slots@));
        CstateDelta { contract_id: self.contract_id.duplicate(), modified_slots: slots }
    }
}

} // verus!
