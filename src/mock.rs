//! Stand-in collaborators for development and tests: a prover that makes no
//! real proof, and a network that serves users and contracts from memory.
use crate::error::{PsyGuardError, PsyResult};
use crate::hash::{self, append_bytes, sha256, sha256_of, zero_hash};
use crate::text::{join, surround};
use crate::traits::{NetworkState, Prover, SdkeyPolicy};
use crate::types::{
    copy_debts, debts_view,
    CfcId, CfcInputs, CfcProof, CftInclusionProof, CftRoot, CheckpointRef, ContractId,
    DebtDeltaProof, EndCapProof, GutaPath, SignatureProof, SubmitReceipt, TxEndCtx, UconDeltaProof,
    UpsHeader, UpsStepProof, UserId, UserLeafCtx,
};
use vstd::prelude::*;
use vstd::utf8::encode_utf8;

verus! {

/// The gas the mock prover reports for every call.
pub const MOCK_GAS: u64 = 21000;

/// The balance of the user in the end caps the mock prover makes.
pub const MOCK_BALANCE: u64 = 1000;

/// The end root of a mock call: the start root with its first byte
/// incremented, wrapping.
pub open spec fn mock_end_root(start: Seq<u8>) -> Seq<u8> {
    start.update(0, ((start[0] + 1) % 256) as u8)
}

/// The names of the policy rules a mock signature claims, in order.
pub open spec fn mock_policy_claims(policy: SdkeyPolicy) -> Seq<Seq<char>> {
    seq!["mock_signature"@] + (if policy.daily_limit is Some {
        seq!["daily_limit_checked"@]
    } else {
        Seq::empty()
    }) + (if policy.trusted_contracts is Some {
        seq!["contract_whitelist_checked"@]
    } else {
        Seq::empty()
    })
}

/// A prover that makes no real proof. `delay_ms` is the latency a host may
/// simulate around each call; the prover itself does not wait. `timestamp`
/// (seconds since the Unix epoch) is stamped on the end caps it makes.
pub struct MockProver {
    pub delay_ms: u64,
    pub timestamp: u64,
}

impl MockProver {
    pub fn new() -> (r: MockProver)
        ensures
            r.delay_ms == 0,
            r.timestamp == 0,
    {
        MockProver { delay_ms: 0, timestamp: 0 }
    }

    pub fn with_delay(delay_ms: u64) -> (r: MockProver)
        ensures
            r.delay_ms == delay_ms,
            r.timestamp == 0,
    {
        MockProver { delay_ms, timestamp: 0 }
    }

    /// The same prover, stamping `timestamp` on its end caps.
    pub fn at_time(self, timestamp: u64) -> (r: MockProver)
        ensures
            r.delay_ms == self.delay_ms,
            r.timestamp == timestamp,
    {
        MockProver { delay_ms: self.delay_ms, timestamp }
    }

    fn end_ctx(root: hash::Hash) -> (r: TxEndCtx)
        ensures
            r.end_contract_state_root == root,
            r.gas_used == MOCK_GAS,
            r.success,
            r.return_data@.len() == 0,
    {
        TxEndCtx { end_contract_state_root: root, gas_used: MOCK_GAS, success: true, return_data: Vec::new() }
    }

    /// A mock proof of a call: the proof bytes name the contract and the
    /// function, and the end root is the start root with its first byte
    /// incremented.
    pub fn mock_prove(cfc: &CfcId, start_cstate_root: hash::Hash) -> (r: (CfcProof, TxEndCtx))
        ensures
            r.0.proof_data@ == encode_utf8("mock_cfc_proof_"@ + cfc.contract_id@ + "_"@ + cfc.function_name@),
            r.1.end_contract_state_root@ == mock_end_root(start_cstate_root@),
            r.0.tx_end_ctx.end_contract_state_root == r.1.end_contract_state_root,
            r.0.tx_end_ctx.gas_used == r.1.gas_used,
            r.0.tx_end_ctx.success == r.1.success,
            r.0.tx_end_ctx.return_data@ == r.1.return_data@,
            r.1.gas_used == MOCK_GAS,
            r.1.success,
            r.1.return_data@.len() == 0,
    {
        let mut name = surround("mock_cfc_proof_", cfc.contract_id.0.as_str(), "_");
        name.append(cfc.function_name.as_str());
        let mut proof_data: Vec<u8> = Vec::new();
        append_bytes(&mut proof_data, name.as_str().as_bytes());
        let mut new_root = start_cstate_root;
        new_root[0] = start_cstate_root[0].wrapping_add(1);
        assert(new_root@ =~= mock_end_root(start_cstate_root@));
        (CfcProof { proof_data, tx_end_ctx: Self::end_ctx(new_root) }, Self::end_ctx(new_root))
    }

    /// A mock fold: the step number grows by one, the accumulated proof is
    /// extended with the call's proof and the whitelist root, and the
    /// container root becomes the delta's new root. Fails with
    /// `ProofGenerationFailed` at the last step number.
    pub fn mock_fold(
        prev: &UpsStepProof,
        cfc_proof: &CfcProof,
        cft_proof: &CftInclusionProof,
        ucon_delta: &UconDeltaProof,
    ) -> (r: PsyResult<UpsStepProof>)
        ensures
            r is Err <==> prev.step_number == u32::MAX,
            r matches Err(e) ==> e is ProofGenerationFailed,
            r matches Ok(s) ==> {
                &&& s.step_number == prev.step_number + 1
                &&& s.accumulated_proof@ == prev.accumulated_proof@ + cfc_proof.proof_data@
                    + cft_proof.cft_root.0@
                &&& s.current_ucon_root == ucon_delta.new_root
                &&& debts_view(s.current_debts@) == debts_view(prev.current_debts@)
            },
    {
        if prev.step_number == u32::MAX {
            return Err(PsyGuardError::ProofGenerationFailed("no step number left".to_owned()));
        }
        let mut accumulated_proof: Vec<u8> = Vec::new();
        append_bytes(&mut accumulated_proof, prev.accumulated_proof.as_slice());
        append_bytes(&mut accumulated_proof, cfc_proof.proof_data.as_slice());
        append_bytes(&mut accumulated_proof, &cft_proof.cft_root.0);
        Ok(
            UpsStepProof {
                step_number: prev.step_number + 1,
                accumulated_proof,
                current_ucon_root: ucon_delta.new_root,
                current_debts: copy_debts(&prev.current_debts),
            },
        )
    }

    /// A mock signature: the public key hash is the digest of the message,
    /// and the claims name the mock signature and the limit and whitelist
    /// rules the policy sets.
    pub fn mock_sign(message: &[u8], policy: &SdkeyPolicy) -> (r: SignatureProof)
        ensures
            r.proof_data@ == encode_utf8("mock_sdkey_signature"@),
            r.public_key_hash@ == sha256_of(message@),
            crate::text::strings_view(r.policy_satisfied@) == mock_policy_claims(*policy),
    {
        let mut satisfied: Vec<String> = Vec::new();
        satisfied.push("mock_signature".to_owned());
        if policy.daily_limit.is_some() {
            satisfied.push("daily_limit_checked".to_owned());
        }
        if policy.trusted_contracts.is_some() {
            satisfied.push("contract_whitelist_checked".to_owned());
        }
        assert(crate::text::strings_view(satisfied@) =~= mock_policy_claims(*policy));
        let mut proof_data: Vec<u8> = Vec::new();
        append_bytes(&mut proof_data, "mock_sdkey_signature".as_bytes());
        SignatureProof { proof_data, public_key_hash: sha256(message), policy_satisfied: satisfied }
    }

    fn copy_step(s: &UpsStepProof) -> (r: UpsStepProof)
        ensures
            r.step_number == s.step_number,
            r.accumulated_proof@ == s.accumulated_proof@,
            r.current_ucon_root == s.current_ucon_root,
            debts_view(r.current_debts@) == debts_view(s.current_debts@),
    {
        let mut acc: Vec<u8> = Vec::new();
        append_bytes(&mut acc, s.accumulated_proof.as_slice());
        UpsStepProof {
            step_number: s.step_number,
            accumulated_proof: acc,
            current_ucon_root: s.current_ucon_root,
            current_debts: copy_debts(&s.current_debts),
        }
    }

    /// A mock end cap: a fixed header, the given final step and signature,
    /// and the time it was made.
    pub fn mock_endcap(last_step: &UpsStepProof, sdkey_sig: &SignatureProof, timestamp: u64) -> (r: EndCapProof)
        ensures
            r.final_step.step_number == last_step.step_number,
            r.final_step.accumulated_proof@ == last_step.accumulated_proof@,
            r.final_step.current_ucon_root == last_step.current_ucon_root,
            debts_view(r.final_step.current_debts@) == debts_view(last_step.current_debts@),
            r.signature_proof.public_key_hash == sdkey_sig.public_key_hash,
            r.ups_header.user_id@ == "mock_user"@,
            r.ups_header.session_id@ == "mock_session"@,
            r.ups_header.checkpoint_ref.block_number == 1,
            r.ups_header.user_leaf_ctx.balance == MOCK_BALANCE,
            r.timestamp == timestamp,
    {
        let mut proof_data: Vec<u8> = Vec::new();
        append_bytes(&mut proof_data, sdkey_sig.proof_data.as_slice());
        EndCapProof {
            ups_header: UpsHeader {
                user_id: UserId("mock_user".to_owned()),
                checkpoint_ref: CheckpointRef { chkp_root: zero_hash(), block_number: 1 },
                user_leaf_ctx: UserLeafCtx {
                    uleaf_hash: zero_hash(),
                    ucon_root: zero_hash(),
                    balance: MOCK_BALANCE,
                    nonce: 0,
                },
                session_id: "mock_session".to_owned(),
            },
            final_step: Self::copy_step(last_step),
            signature_proof: SignatureProof {
                proof_data,
                public_key_hash: sdkey_sig.public_key_hash,
                policy_satisfied: sdkey_sig.policy_satisfied.clone(),
            },
            timestamp,
        }
    }
}

impl Default for MockProver {
    fn default() -> (r: MockProver)
        ensures
            r.delay_ms == 0,
            r.timestamp == 0,
    {
        MockProver::new()
    }
}

impl Prover for MockProver {
    fn prove_cfc(&self, cfc: &CfcId, inputs: &CfcInputs, start_cstate_root: hash::Hash) -> PsyResult<
        (CfcProof, TxEndCtx),
    > {
        Ok(Self::mock_prove(cfc, start_cstate_root))
    }

    fn ups_integrate_step(
        &self,
        prev: &UpsStepProof,
        cfc_proof: &CfcProof,
        cft_proof: &CftInclusionProof,
        ucon_delta: &UconDeltaProof,
        debts_delta: &DebtDeltaProof,
    ) -> PsyResult<UpsStepProof> {
        Self::mock_fold(prev, cfc_proof, cft_proof, ucon_delta)
    }

    fn finalize_endcap(&self, last_step: &UpsStepProof, sdkey_sig: &SignatureProof) -> PsyResult<EndCapProof> {
        Ok(Self::mock_endcap(last_step, sdkey_sig, self.timestamp))
    }

    fn sign_with_sdkey(&self, message: &[u8], policy: &SdkeyPolicy) -> PsyResult<SignatureProof> {
        Ok(Self::mock_sign(message, policy))
    }
}

/// The user leaf the mock network serves for a user added with `balance`.
pub open spec fn mock_leaf_is(leaf: UserLeafCtx, balance: u64) -> bool {
    &&& leaf.uleaf_hash@ == hash::zero_hash_spec()
    &&& leaf.ucon_root@ == hash::zero_hash_spec()
    &&& leaf.balance == balance
    &&& leaf.nonce == 0
}

/// The entry last added under `k`, if any.
pub open spec fn last_under<V>(s: Seq<(Seq<char>, V)>, k: Seq<char>) -> Option<V>
    decreases s.len(),
{
    if s.len() == 0 {
        None
    } else if s.last().0 == k {
        Some(s.last().1)
    } else {
        last_under(s.drop_last(), k)
    }
}

/// A network served from memory: one finalized checkpoint at block 1, and
/// the users and contracts that were added; a later addition under the same
/// identifier replaces an earlier one.
pub struct MockNetworkState {
    checkpoint: CheckpointRef,
    user_leaves: Vec<(UserId, UserLeafCtx)>,
    contract_metas: Vec<(ContractId, CftRoot)>,
}

impl MockNetworkState {
    pub closed spec fn users_spec(&self) -> Seq<(Seq<char>, UserLeafCtx)> {
        Seq::new(self.user_leaves@.len(), |i: int| (self.user_leaves@[i].0@, self.user_leaves@[i].1))
    }

    pub closed spec fn contracts_spec(&self) -> Seq<(Seq<char>, CftRoot)> {
        Seq::new(self.contract_metas@.len(), |i: int| (self.contract_metas@[i].0@, self.contract_metas@[i].1))
    }

    pub closed spec fn checkpoint_spec(&self) -> CheckpointRef {
        self.checkpoint
    }

    pub fn new() -> (r: MockNetworkState)
        ensures
            r.users_spec().len() == 0,
            r.contracts_spec().len() == 0,
            r.checkpoint_spec().block_number == 1,
            r.checkpoint_spec().chkp_root@ == Seq::new(32, |i: int| 1u8),
    {
        let root: hash::Hash = [1u8; 32];
        assert(root@ =~= Seq::new(32, |i: int| 1u8));
        MockNetworkState {
            checkpoint: CheckpointRef { chkp_root: root, block_number: 1 },
            user_leaves: Vec::new(),
            contract_metas: Vec::new(),
        }
    }

    /// Adds a user with `balance`, replacing one of the same identifier.
    pub fn add_user(&mut self, user_id: UserId, balance: u64)
        ensures
            last_under(final(self).users_spec(), user_id@) matches Some(l) && mock_leaf_is(l, balance),
            forall|k: Seq<char>| k != user_id@ ==> #[trigger] last_under(final(self).users_spec(), k)
                == last_under(old(self).users_spec(), k),
            final(self).contracts_spec() == old(self).contracts_spec(),
            final(self).checkpoint_spec() == old(self).checkpoint_spec(),
    {
        let ctx = UserLeafCtx { uleaf_hash: zero_hash(), ucon_root: zero_hash(), balance, nonce: 0 };
        self.user_leaves.push((user_id, ctx));
        assert(self.users_spec().drop_last() =~= old(self).users_spec());
    }

    /// Adds a contract with its whitelist root and state height 0, replacing
    /// one of the same identifier.
    pub fn add_contract(&mut self, contract_id: ContractId, cft_root: CftRoot)
        ensures
            last_under(final(self).contracts_spec(), contract_id@) == Some(cft_root),
            forall|k: Seq<char>| k != contract_id@ ==> #[trigger] last_under(final(self).contracts_spec(), k)
                == last_under(old(self).contracts_spec(), k),
            final(self).users_spec() == old(self).users_spec(),
            final(self).checkpoint_spec() == old(self).checkpoint_spec(),
    {
        self.contract_metas.push((contract_id, cft_root));
        assert(self.contracts_spec().drop_last() =~= old(self).contracts_spec());
    }

    /// The leaf of the user, if one was added.
    pub fn lookup_user(&self, user_id: &UserId) -> (r: Option<UserLeafCtx>)
        ensures
            r == last_under(self.users_spec(), user_id@),
    {
        let ghost s = self.users_spec();
        let mut i: usize = self.user_leaves.len();
        assert(s.subrange(0, i as int) =~= s);
        while i > 0
            invariant
                s == self.users_spec(),
                0 <= i <= s.len(),
                last_under(s, user_id@) == last_under(s.subrange(0, i as int), user_id@),
            decreases i,
        {
            assert(s.subrange(0, i as int).drop_last() =~= s.subrange(0, i - 1));
            if self.user_leaves[i - 1].0.0 == user_id.0 {
                return Some(self.user_leaves[i - 1].1);
            }
            i = i - 1;
        }
        None
    }

    /// The whitelist root of the contract, if one was added.
    pub fn lookup_contract(&self, contract_id: &ContractId) -> (r: Option<CftRoot>)
        ensures
            r == last_under(self.contracts_spec(), contract_id@),
    {
        let ghost s = self.contracts_spec();
        let mut i: usize = self.contract_metas.len();
        assert(s.subrange(0, i as int) =~= s);
        while i > 0
            invariant
                s == self.contracts_spec(),
                0 <= i <= s.len(),
                last_under(s, contract_id@) == last_under(s.subrange(0, i as int), contract_id@),
            decreases i,
        {
            assert(s.subrange(0, i as int).drop_last() =~= s.subrange(0, i - 1));
            if self.contract_metas[i - 1].0.0 == contract_id.0 {
                return Some(self.contract_metas[i - 1].1);
            }
            i = i - 1;
        }
        None
    }
}

impl Default for MockNetworkState {
    fn default() -> (r: MockNetworkState)
        ensures
            r.users_spec().len() == 0,
            r.contracts_spec().len() == 0,
            r.checkpoint_spec().block_number == 1,
    {
        MockNetworkState::new()
    }
}

impl NetworkState for MockNetworkState {
    fn latest_finalized_chkp(&self) -> PsyResult<CheckpointRef> {
        Ok(CheckpointRef { chkp_root: self.checkpoint.chkp_root, block_number: self.checkpoint.block_number })
    }

    fn fetch_user_leaf(&self, user_id: &UserId, chkp: &CheckpointRef) -> PsyResult<UserLeafCtx> {
        match self.lookup_user(user_id) {
            Some(l) => Ok(l),
            None => Err(PsyGuardError::NotFound(surround("user ", user_id.0.as_str(), " not found"))),
        }
    }

    fn fetch_contract_meta(&self, contract_id: &ContractId) -> PsyResult<(CftRoot, u64)> {
        match self.lookup_contract(contract_id) {
            Some(root) => Ok((root, 0)),
            None => Err(PsyGuardError::NotFound(surround("contract ", contract_id.0.as_str(), " not found"))),
        }
    }

    fn fetch_cstate_leaf(&self, contract_id: &ContractId, slot: u64, chkp: &CheckpointRef) -> PsyResult<
        (Vec<u8>, Vec<hash::Hash>),
    > {
        let mut value: Vec<u8> = Vec::new();
        let mut i: usize = 0;
        while i < 32
            decreases 32 - i,
        {
            value.push(0);
            i = i + 1;
        }
        Ok((value, Vec::new()))
    }
}

/// The receipt the mock submitter gives for an end cap at time `now`.
pub fn mock_receipt(endcap: &EndCapProof, now: u64) -> (r: SubmitReceipt)
    ensures
        r.receipt_id@ == "receipt_"@ + crate::text::decimal_spec(endcap.timestamp as nat),
        r.timestamp == now,
        r.guta_path matches Some(g) && g.realm_segment@ == "realm_mock"@ && g.coordinator_segment@
            == "coordinator_mock"@ && g.global_root@ == hash::zero_hash_spec(),
{
    SubmitReceipt {
        receipt_id: join("receipt_", crate::text::decimal(endcap.timestamp).as_str()),
        timestamp: now,
        guta_path: Some(
            GutaPath {
                realm_segment: "realm_mock".to_owned(),
                coordinator_segment: "coordinator_mock".to_owned(),
                global_root: zero_hash(),
            },
        ),
    }
}

} // verus!
