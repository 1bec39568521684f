//! The collaborators a session consumes (network, prover, submitter), and the
//! programmable-key policy.
use crate::error::PsyResult;
use crate::hash;
use crate::types::{
    CfcId, CfcInputs, CfcProof, CftInclusionProof, CftRoot, CheckpointRef, ContractId, CstateDelta,
    DebtDeltaProof, EndCapProof, SignatureProof, SubmitReceipt, TxEndCtx, UconDeltaProof, UpsStepProof,
    UserId, UserLeafCtx,
};
use vstd::prelude::*;

verus! {

/// Source of finalized global state.
pub trait NetworkState {
    /// The latest finalized checkpoint.
    fn latest_finalized_chkp(&self) -> PsyResult<CheckpointRef>;

    /// The user's leaf at a checkpoint.
    fn fetch_user_leaf(&self, user_id: &UserId, chkp: &CheckpointRef) -> PsyResult<UserLeafCtx>;

    /// A contract's whitelist root and state height.
    fn fetch_contract_meta(&self, contract_id: &ContractId) -> PsyResult<(CftRoot, u64)>;

    /// A historical slot value of a contract, with its Merkle path.
    fn fetch_cstate_leaf(&self, contract_id: &ContractId, slot: u64, chkp: &CheckpointRef) -> PsyResult<
        (Vec<u8>, Vec<hash::Hash>),
    >;
}

/// Produces the proofs of a session.
pub trait Prover {
    /// Proves one contract function call from a starting state root.
    fn prove_cfc(&self, cfc: &CfcId, inputs: &CfcInputs, start_cstate_root: hash::Hash) -> PsyResult<
        (CfcProof, TxEndCtx),
    >;

    /// Folds one proven call into the session proof.
    fn ups_integrate_step(
        &self,
        prev: &UpsStepProof,
        cfc_proof: &CfcProof,
        cft_proof: &CftInclusionProof,
        ucon_delta: &UconDeltaProof,
        debts_delta: &DebtDeltaProof,
    ) -> PsyResult<UpsStepProof>;

    /// Closes the session proof with a signature.
    fn finalize_endcap(&self, last_step: &UpsStepProof, sdkey_sig: &SignatureProof) -> PsyResult<EndCapProof>;

    /// Signs a session message under a policy.
    fn sign_with_sdkey(&self, message: &[u8], policy: &SdkeyPolicy) -> PsyResult<SignatureProof>;
}

/// Hands end caps to the aggregation layer.
pub trait Submitter {
    fn submit_endcap(&self, endcap: &EndCapProof, state_deltas: Vec<CstateDelta>) -> PsyResult<
        SubmitReceipt,
    >;
}

/// The rules a programmable signing key enforces; every rule but the second
/// factor is optional.
#[derive(Debug, Clone)]
pub struct SdkeyPolicy {
    pub daily_limit: Option<u64>,
    pub trusted_contracts: Option<Vec<ContractId>>,
    pub time_lock_until: Option<u64>,
    pub require_2fa: bool,
}

/// The daily limit a policy has by default.
pub const DEFAULT_DAILY_LIMIT: u64 = 10000;

impl Default for SdkeyPolicy {
    /// A daily limit of 10000 and no other rule.
    fn default() -> (r: SdkeyPolicy)
        ensures
            r.daily_limit == Some(DEFAULT_DAILY_LIMIT),
            r.trusted_contracts is None,
            r.time_lock_until is None,
            !r.require_2fa,
    {
        SdkeyPolicy {
            daily_limit: Some(DEFAULT_DAILY_LIMIT),
            trusted_contracts: None,
            time_lock_until: None,
            require_2fa: false,
        }
    }
}

} // verus!
