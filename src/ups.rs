//! The user proving session: opens at a checkpoint, folds one proven contract
//! call per step, and closes with a signed end cap that is handed to the
//! aggregation layer.
use crate::error::{PsyGuardError, PsyResult};
use crate::hash::{self, append_bytes, zero_hash, zero_hash_spec};
use crate::state::{le_bytes, le_bytes_spec, ucon_root_of, Ucon};
use crate::text::{decimal, decimal_spec, join};
use crate::traits::{NetworkState, Prover, SdkeyPolicy, Submitter};
use crate::types::{
    copy_debts, debts_view, slots_view, CfcId, CfcInputs, CftInclusionProof, CheckpointRef, ContractId, CstateDelta, CstateDeltaProof, DebtDeltaProof,
    EndCapProof, SubmitReceipt, TxEndCtx, UconDeltaProof, UpsHeader, UpsStepProof, UserId, UserLeafCtx,
};
use std::sync::Arc;
use vstd::prelude::*;
use vstd::utf8::encode_utf8;

verus! {

/// The message a session signs: the whole header (user identifier,
/// checkpoint root and block number, the user leaf's hash, container root,
/// balance and nonce, session identifier), then the final container root and
/// the step count, as raw bytes in that order (numbers as eight little-endian
/// bytes).
pub open spec fn session_message_spec(header: UpsHeader, step_root: Seq<u8>, step_count: u32) -> Seq<u8> {
    encode_utf8(header.user_id@) + header.checkpoint_ref.chkp_root@ + le_bytes_spec(
        header.checkpoint_ref.block_number as nat,
        8,
    ) + header.user_leaf_ctx.uleaf_hash@ + header.user_leaf_ctx.ucon_root@ + le_bytes_spec(
        header.user_leaf_ctx.balance as nat,
        8,
    ) + le_bytes_spec(header.user_leaf_ctx.nonce as nat, 8) + encode_utf8(header.session_id@) + step_root + le_bytes_spec(step_count as nat, 8)
}

/// A session owns its header, its current step, the container it maintains
/// and the deltas to submit; it shares the network and the prover.
pub struct UpsSession<N: NetworkState, P: Prover> {
    header: UpsHeader,
    current_step: UpsStepProof,
    step_count: u32,
    ucon: Ucon,
    network: Arc<N>,
    prover: Arc<P>,
    state_deltas: Vec<CstateDelta>,
}

impl<N: NetworkState, P: Prover> UpsSession<N, P> {
    pub closed spec fn header_spec(&self) -> UpsHeader {
        self.header
    }

    pub closed spec fn step_spec(&self) -> UpsStepProof {
        self.current_step
    }

    pub closed spec fn step_count_spec(&self) -> u32 {
        self.step_count
    }

    /// The contract-to-root map the session maintains.
    pub closed spec fn ucon_spec(&self) -> Map<Seq<char>, Seq<u8>> {
        self.ucon.view()
    }

    pub closed spec fn deltas_spec(&self) -> Seq<CstateDelta> {
        self.state_deltas@
    }

    /// The step counter matches the step number, and one delta is kept per
    /// step.
    pub closed spec fn wf(&self) -> bool {
        &&& self.ucon.wf()
        &&& self.step_count == self.current_step.step_number
        &&& self.state_deltas@.len() == self.step_count
    }

    /// A freshly opened session of `user_id` at checkpoint `c` with leaf `l`,
    /// opened at time `now`.
    pub open spec fn is_opened(&self, user_id: UserId, c: CheckpointRef, l: UserLeafCtx, now: u64) -> bool {
        &&& self.wf()
        &&& self.header_spec().user_id == user_id
        &&& self.header_spec().checkpoint_ref == c
        &&& self.header_spec().user_leaf_ctx == l
        &&& self.header_spec().session_id@ == "ups_"@ + decimal_spec(now as nat)
        &&& self.step_spec().step_number == 0
        &&& self.step_spec().accumulated_proof@.len() == 0
        &&& self.step_spec().current_ucon_root == l.ucon_root
        &&& self.step_spec().current_debts@.len() == 0
        &&& self.ucon_spec() == Map::<Seq<char>, Seq<u8>>::empty()
        &&& self.deltas_spec().len() == 0
    }

    /// Opens a session for `user_id` at the latest finalized checkpoint of
    /// `network`, at time `now` (seconds since the Unix epoch, which names the
    /// session). Fails with what a network call fails with.
    pub fn new(user_id: UserId, network: Arc<N>, prover: Arc<P>, now: u64) -> (r: PsyResult<UpsSession<N, P>>)
        ensures
            r matches Ok(s) ==> s.is_opened(
                user_id,
                s.header_spec().checkpoint_ref,
                s.header_spec().user_leaf_ctx,
                now,
            ),
    {
        let checkpoint_ref = match network.latest_finalized_chkp() {
            Ok(c) => c,
            Err(e) => {
                return Err(e);
            },
        };
        let user_leaf_ctx = match network.fetch_user_leaf(&user_id, &checkpoint_ref) {
            Ok(l) => l,
            Err(e) => {
                return Err(e);
            },
        };
        Ok(Self::open(user_id, checkpoint_ref, user_leaf_ctx, now, network, prover))
    }

    /// The session of `user_id` at checkpoint `checkpoint_ref` with leaf
    /// `user_leaf_ctx`, named after time `now`: step 0 is an empty proof at the
    /// leaf's container root with no debts.
    pub fn open(
        user_id: UserId,
        checkpoint_ref: CheckpointRef,
        user_leaf_ctx: UserLeafCtx,
        now: u64,
        network: Arc<N>,
        prover: Arc<P>,
    ) -> (r: UpsSession<N, P>)
        ensures
            r.is_opened(user_id, checkpoint_ref, user_leaf_ctx, now),
    {
        let session_id = join("ups_", decimal(now).as_str());
        let ucon = Ucon::new(user_id.duplicate());
        let header = UpsHeader { user_id, checkpoint_ref, user_leaf_ctx, session_id };
        let current_step = UpsStepProof {
            step_number: 0,
            accumulated_proof: Vec::new(),
            current_ucon_root: user_leaf_ctx.ucon_root,
            current_debts: Vec::new(),
        };
        UpsSession { header, current_step, step_count: 0, ucon, network, prover, state_deltas: Vec::new() }
    }

    /// Proves one call and folds it into the session. On success the step
    /// number grows by exactly one, the container records the call's end
    /// root for its contract, and a delta is kept for submission. On any
    /// failure nothing changes: a prover error is passed on, a step that
    /// does not advance by one fails with `ProofGenerationFailed`, and a
    /// session at the last step number fails with `UpsSessionError`.
    pub fn execute_cfc(&mut self, cfc_id: &CfcId, inputs: &CfcInputs, cft_proof: &CftInclusionProof) -> (r:
        PsyResult<TxEndCtx>)
        requires
            old(self).wf(),
        ensures
            final(self).wf(),
            final(self).header_spec() == old(self).header_spec(),
            old(self).step_spec().step_number == u32::MAX ==> (r matches Err(e) && e is UpsSessionError),
            r matches Ok(tx) ==> {
                &&& final(self).step_spec().step_number == old(self).step_spec().step_number + 1
                &&& final(self).step_count_spec() == old(self).step_count_spec() + 1
                &&& final(self).ucon_spec() == old(self).ucon_spec().insert(
                    cfc_id.contract_id@,
                    tx.end_contract_state_root@,
                )
                &&& final(self).deltas_spec().len() == old(self).deltas_spec().len() + 1
                &&& final(self).deltas_spec().drop_last() == old(self).deltas_spec()
                &&& final(self).deltas_spec().last().contract_id@ == cfc_id.contract_id@
                &&& final(self).deltas_spec().last().modified_slots@.len() == 0
            },
            r is Err ==> {
                &&& final(self).step_spec() == old(self).step_spec()
                &&& final(self).step_count_spec() == old(self).step_count_spec()
                &&& final(self).ucon_spec() == old(self).ucon_spec()
                &&& final(self).deltas_spec() == old(self).deltas_spec()
            },
    {
        if self.current_step.step_number == u32::MAX {
            return Err(PsyGuardError::UpsSessionError("the session has no step number left".to_owned()));
        }
        let start_cstate_root = self.get_contract_state_root(&cfc_id.contract_id);
        let (cfc_proof, tx_end_ctx) = match self.prover.prove_cfc(cfc_id, inputs, start_cstate_root) {
            Ok(p) => p,
            Err(e) => {
                return Err(e);
            },
        };
        let end_root = tx_end_ctx.end_contract_state_root;
        let new_ucon_root = self.prospective_ucon_root(&cfc_id.contract_id, end_root);
        let (ucon_delta, debts_delta) = self.build_deltas(
            &cfc_id.contract_id,
            start_cstate_root,
            end_root,
            new_ucon_root,
        );
        let next_step = match self.prover.ups_integrate_step(
            &self.current_step,
            &cfc_proof,
            cft_proof,
            &ucon_delta,
            &debts_delta,
        ) {
            Ok(s) => s,
            Err(e) => {
                return Err(e);
            },
        };
        match self.apply_step(&cfc_id.contract_id, end_root, next_step) {
            Ok(()) => Ok(tx_end_ctx),
            Err(e) => Err(e),
        }
    }

    /// The container root the session would have after recording `end_root`
    /// for `contract_id`.
    pub fn prospective_ucon_root(&self, contract_id: &ContractId, end_root: hash::Hash) -> (r: hash::Hash)
        requires
            self.wf(),
        ensures
            r@ == ucon_root_of(self.ucon_spec().insert(contract_id@, end_root@)),
    {
        let mut next = self.ucon.duplicate();
        next.update_contract_state(contract_id.duplicate(), end_root);
        next.root
    }

    /// The deltas handed to the prover's fold for a call on `contract_id` that
    /// took its state from `start_root` to `end_root`: the container goes from
    /// the current step's root to `new_ucon_root`, the contract state delta has
    /// no path and no leaves, and the debts stay as they are.
    pub fn build_deltas(
        &self,
        contract_id: &ContractId,
        start_root: hash::Hash,
        end_root: hash::Hash,
        new_ucon_root: hash::Hash,
    ) -> (r: (UconDeltaProof, DebtDeltaProof))
        ensures
            r.0.old_root == self.step_spec().current_ucon_root,
            r.0.new_root == new_ucon_root,
            r.0.contract_id@ == contract_id@,
            r.0.cstate_delta.old_root == start_root,
            r.0.cstate_delta.new_root == end_root,
            r.0.cstate_delta.merkle_path@.len() == 0,
            r.0.cstate_delta.modified_leaves@.len() == 0,
            debts_view(r.1.old_debts@) == debts_view(self.step_spec().current_debts@),
            debts_view(r.1.new_debts@) == debts_view(self.step_spec().current_debts@),
    {
        let ucon_delta = UconDeltaProof {
            old_root: self.current_step.current_ucon_root,
            new_root: new_ucon_root,
            contract_id: contract_id.duplicate(),
            cstate_delta: CstateDeltaProof {
                old_root: start_root,
                new_root: end_root,
                merkle_path: Vec::new(),
                modified_leaves: Vec::new(),
            },
        };
        let debts_delta = DebtDeltaProof {
            old_debts: copy_debts(&self.current_step.current_debts),
            new_debts: copy_debts(&self.current_step.current_debts),
        };
        (ucon_delta, debts_delta)
    }

    /// Takes the step the prover folded for a call on `contract_id` that ended
    /// at `end_root`. A step whose number does not follow the current one
    /// fails with `ProofGenerationFailed` and changes nothing; otherwise it
    /// becomes the current step, the container records `end_root`, and a
    /// delta for the contract is kept.
    pub fn apply_step(&mut self, contract_id: &ContractId, end_root: hash::Hash, next_step: UpsStepProof) -> (r:
        PsyResult<()>)
        requires
            old(self).wf(),
        ensures
            final(self).wf(),
            final(self).header_spec() == old(self).header_spec(),
            r is Err <==> next_step.step_number != old(self).step_spec().step_number + 1,
            r matches Err(e) ==> {
                &&& e is ProofGenerationFailed
                &&& final(self).step_spec() == old(self).step_spec()
                &&& final(self).step_count_spec() == old(self).step_count_spec()
                &&& final(self).ucon_spec() == old(self).ucon_spec()
                &&& final(self).deltas_spec() == old(self).deltas_spec()
            },
            r is Ok ==> {
                &&& final(self).step_spec() == next_step
                &&& final(self).step_count_spec() == old(self).step_count_spec() + 1
                &&& final(self).ucon_spec() == old(self).ucon_spec().insert(contract_id@, end_root@)
                &&& final(self).deltas_spec().len() == old(self).deltas_spec().len() + 1
                &&& final(self).deltas_spec().drop_last() == old(self).deltas_spec()
                &&& final(self).deltas_spec().last().contract_id@ == contract_id@
                &&& final(self).deltas_spec().last().modified_slots@.len() == 0
            },
    {
        if next_step.step_number as u64 != self.current_step.step_number as u64 + 1 {
            return Err(
                PsyGuardError::ProofGenerationFailed("the folded step does not follow the current one".to_owned()),
            );
        }
        self.step_count = self.step_count + 1;
        self.current_step = next_step;
        self.ucon.update_contract_state(contract_id.duplicate(), end_root);
        self.state_deltas.push(CstateDelta { contract_id: contract_id.duplicate(), modified_slots: Vec::new() });
        Ok(())
    }

    /// Signs the session message under `sdkey_policy` and closes the session
    /// proof with that signature. Fails with what the prover fails with.
    pub fn finalize(&self, sdkey_policy: &SdkeyPolicy) -> (r: PsyResult<EndCapProof>)
        requires
            self.wf(),
    {
        let message = self.compute_session_message();
        let signature_proof = match self.prover.sign_with_sdkey(message.as_slice(), sdkey_policy) {
            Ok(s) => s,
            Err(e) => {
                return Err(e);
            },
        };
        self.prover.finalize_endcap(&self.current_step, &signature_proof)
    }

    /// Finalizes the session and hands the end cap and the kept deltas to
    /// `submitter`. Fails with what the prover or the submitter fails with.
    pub fn submit<S: Submitter>(&self, submitter: &S, sdkey_policy: &SdkeyPolicy) -> (r: PsyResult<SubmitReceipt>)
        requires
            self.wf(),
    {
        let endcap = match self.finalize(sdkey_policy) {
            Ok(e) => e,
            Err(e) => {
                return Err(e);
            },
        };
        submitter.submit_endcap(&endcap, self.copy_state_deltas())
    }

    /// A copy of the kept deltas, equal to them entry by entry.
    pub fn copy_state_deltas(&self) -> (r: Vec<CstateDelta>)
        ensures
            r@.len() == self.deltas_spec().len(),
            forall|i: int|
                0 <= i < r@.len() ==> (#[trigger] r@[i]).contract_id@ == self.deltas_spec()[i].contract_id@
                    && slots_view(r@[i].modified_slots@) == slots_view(self.deltas_spec()[i].modified_slots@),
    {
        let mut r: Vec<CstateDelta> = Vec::new();
        let mut i: usize = 0;
        while i < self.state_deltas.len()
            invariant
                0 <= i <= self.state_deltas@.len(),
                r@.len() == i,
                forall|k: int|
                    0 <= k < i ==> (#[trigger] r@[k]).contract_id@ == self.state_deltas@[k].contract_id@
                        && slots_view(r@[k].modified_slots@) == slots_view(self.state_deltas@[k].modified_slots@),
            decreases self.state_deltas@.len() - i,
        {
            r.push(self.state_deltas[i].duplicate());
            i = i + 1;
        }
        r
    }

    pub fn header(&self) -> (r: &UpsHeader)
        ensures
            *r == self.header_spec(),
    {
        &self.header
    }

    pub fn current_step(&self) -> (r: &UpsStepProof)
        ensures
            *r == self.step_spec(),
    {
        &self.current_step
    }

    pub fn state_deltas(&self) -> (r: &[CstateDelta])
        ensures
            r@ == self.deltas_spec(),
    {
        self.state_deltas.as_slice()
    }

    /// The state root the session holds for a contract; the zero root for a
    /// contract it has not touched.
    pub fn get_contract_state_root(&self, contract_id: &ContractId) -> (r: hash::Hash)
        requires
            self.wf(),
        ensures
            self.ucon_spec().contains_key(contract_id@) ==> r@ == self.ucon_spec()[contract_id@],
            !self.ucon_spec().contains_key(contract_id@) ==> r@ == zero_hash_spec(),
    {
        match self.ucon.get_contract_state(contract_id) {
            Some(h) => *h,
            None => zero_hash(),
        }
    }

    /// The message the session signs when it is finalized.
    pub fn compute_session_message(&self) -> (r: Vec<u8>)
        ensures
            r@ == session_message_spec(self.header_spec(), self.step_spec().current_ucon_root@, self.step_count_spec()),
    {
        let mut m: Vec<u8> = Vec::new();
        append_bytes(&mut m, self.header.user_id.0.as_str().as_bytes());
        append_bytes(&mut m, &self.header.checkpoint_ref.chkp_root);
        append_bytes(&mut m, le_bytes(self.header.checkpoint_ref.block_number).as_slice());
        append_bytes(&mut m, &self.header.user_leaf_ctx.uleaf_hash);
        append_bytes(&mut m, &self.header.user_leaf_ctx.ucon_root);
        append_bytes(&mut m, le_bytes(self.header.user_leaf_ctx.balance).as_slice());
        append_bytes(&mut m, le_bytes(self.header.user_leaf_ctx.nonce).as_slice());
        append_bytes(&mut m, self.header.session_id.as_str().as_bytes());
        append_bytes(&mut m, &self.current_step.current_ucon_root);
        append_bytes(&mut m, le_bytes(self.step_count as u64).as_slice());
        m
    }
}

} // verus!
