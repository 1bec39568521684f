//! The read-only preview: predicts what a contract call would change before
//! the call is committed to the session.
use crate::error::{PsyGuardError, PsyResult};
use crate::json::{json_parses, json_str_member, json_u64_member, opt_view, parse_json, str_member, u64_member};
use crate::sdkey::limit_ok;
use crate::state::{le_bytes, le_bytes_spec};
use crate::text::decimal_spec;
use crate::text::{text_is, with_numbers};
use crate::traits::{NetworkState, SdkeyPolicy};
use crate::types::{BalanceChange, CfcId, ReadOnlyPreviewResult, SlotModification, UserId, UserLeafCtx};
use vstd::prelude::*;

verus! {

/// The gas a preview estimates for any call.
pub const ESTIMATED_GAS: u64 = 21000;

/// The amount `claim` takes when its arguments name none.
pub const DEFAULT_CLAIM_AMOUNT: u64 = 100;

pub open spec fn balance_msg(old: u64, new: u64) -> Seq<char> {
    "balance slot: "@ + decimal_spec(old as nat) + " -> "@ + decimal_spec(new as nat)
}

pub open spec fn allowance_msg(amount: u64) -> Seq<char> {
    "allowance slot: "@ + decimal_spec(0) + " -> "@ + decimal_spec(amount as nat)
}

pub open spec fn slot_mod_is(m: SlotModification, slot: u64, old: Seq<u8>, new: Seq<u8>, desc: Seq<char>) -> bool {
    &&& m.slot_index == slot
    &&& m.old_value@ == old
    &&& m.new_value@ == new
    &&& m.description@ == desc
}

pub open spec fn balance_change_is(b: BalanceChange, account: Seq<char>, old: u64, new: u64, delta: int) -> bool {
    &&& b.account@ == account
    &&& b.old_balance == old
    &&& b.new_balance == new
    &&& b.delta == delta
}

/// A transfer of `amount` out of `balance` can be predicted: the balance
/// covers it and the signed delta can hold it.
pub open spec fn transfer_fits(balance: u64, amount: u64) -> bool {
    amount <= balance && amount <= i64::MAX
}

/// A claim of `amount` into `balance` can be predicted: the new balance and
/// the signed delta can hold it.
pub open spec fn claim_fits(balance: u64, amount: u64) -> bool {
    balance + amount <= u64::MAX && amount <= i64::MAX
}

/// A preview that predicts the call would fail: nothing modified.
pub open spec fn predicts_failure(res: ReadOnlyPreviewResult) -> bool {
    &&& !res.success
    &&& res.error_message is Some
    &&& res.slots_to_modify@.len() == 0
    &&& res.balance_changes@.len() == 0
}

/// The preview of a transfer of `a` to `to`.
pub open spec fn transfer_outcome(a: u64, to: Seq<char>, leaf: UserLeafCtx, policy: SdkeyPolicy, res: ReadOnlyPreviewResult) -> bool {
    let limit = !limit_ok(policy, a);
    &&& res.will_trigger_limit == limit
    &&& res.requires_2fa == (policy.require_2fa || limit)
    &&& res.estimated_gas == ESTIMATED_GAS
    &&& if transfer_fits(leaf.balance, a) {
        let nb = (leaf.balance - a) as u64;
        &&& res.success
        &&& res.error_message is None
        &&& res.slots_to_modify@.len() == 1
        &&& slot_mod_is(
            res.slots_to_modify@[0],
            0,
            le_bytes_spec(leaf.balance as nat, 8),
            le_bytes_spec(nb as nat, 8),
            balance_msg(leaf.balance, nb),
        )
        &&& res.balance_changes@.len() == 2
        &&& balance_change_is(res.balance_changes@[0], "sender"@, leaf.balance, nb, -a)
        &&& balance_change_is(res.balance_changes@[1], to, 0, a, a as int)
    } else {
        predicts_failure(res)
    }
}

/// The preview of an approval of `a`.
pub open spec fn approve_outcome(a: u64, policy: SdkeyPolicy, res: ReadOnlyPreviewResult) -> bool {
    &&& res.success
    &&& res.error_message is None
    &&& !res.will_trigger_limit
    &&& res.requires_2fa == policy.require_2fa
    &&& res.estimated_gas == ESTIMATED_GAS
    &&& res.slots_to_modify@.len() == 1
    &&& slot_mod_is(
        res.slots_to_modify@[0],
        1,
        le_bytes_spec(0, 8),
        le_bytes_spec(a as nat, 8),
        allowance_msg(a),
    )
    &&& res.balance_changes@.len() == 0
}

/// The preview of a claim of `a`.
pub open spec fn claim_outcome(a: u64, leaf: UserLeafCtx, res: ReadOnlyPreviewResult) -> bool {
    &&& !res.will_trigger_limit
    &&& !res.requires_2fa
    &&& res.estimated_gas == ESTIMATED_GAS
    &&& if claim_fits(leaf.balance, a) {
        let nb = (leaf.balance + a) as u64;
        &&& res.success
        &&& res.error_message is None
        &&& res.slots_to_modify@.len() == 1
        &&& slot_mod_is(
            res.slots_to_modify@[0],
            0,
            le_bytes_spec(leaf.balance as nat, 8),
            le_bytes_spec(nb as nat, 8),
            balance_msg(leaf.balance, nb),
        )
        &&& res.balance_changes@.len() == 1
        &&& balance_change_is(res.balance_changes@[0], "recipient"@, leaf.balance, nb, a as int)
    } else {
        predicts_failure(res)
    }
}

/// The preview of a function the simulator does not know: nothing changes.
pub open spec fn unknown_outcome(res: ReadOnlyPreviewResult) -> bool {
    &&& res.success
    &&& res.error_message is None
    &&& !res.will_trigger_limit
    &&& !res.requires_2fa
    &&& res.estimated_gas == ESTIMATED_GAS
    &&& res.slots_to_modify@.len() == 0
    &&& res.balance_changes@.len() == 0
}

/// What the preview of `function` with the given arguments is, on a user
/// leaf and a policy.
pub open spec fn preview_outcome(
    function: Seq<char>,
    amount: Option<u64>,
    to: Option<Seq<char>>,
    leaf: UserLeafCtx,
    policy: SdkeyPolicy,
    r: PsyResult<ReadOnlyPreviewResult>,
) -> bool {
    if function == "transfer"@ {
        if amount is None || to is None {
            r matches Err(e) && e is InvalidInput
        } else {
            r matches Ok(res) && transfer_outcome(amount->Some_0, to->Some_0, leaf, policy, res)
        }
    } else if function == "approve"@ {
        r matches Ok(res) && approve_outcome(
            match amount {
                Some(x) => x,
                None => 0,
            },
            policy,
            res,
        )
    } else if function == "claim"@ {
        r matches Ok(res) && claim_outcome(
            match amount {
                Some(x) => x,
                None => DEFAULT_CLAIM_AMOUNT,
            },
            leaf,
            res,
        )
    } else {
        r matches Ok(res) && unknown_outcome(res)
    }
}

/// Predicts the effects of contract calls.
pub struct ReadOnlyPreview;

impl ReadOnlyPreview {
    /// Fetches the user's leaf at the latest checkpoint and the contract's
    /// metadata, then previews the call with the arguments read from `args`.
    /// Fails with `InvalidInput` when `args` is not JSON, and with what a
    /// network call fails with.
    pub fn preview_execution<N: NetworkState>(
        network_state: &N,
        user_id: &UserId,
        cfc_id: &CfcId,
        args: &str,
        sdkey_policy: &SdkeyPolicy,
    ) -> (r: PsyResult<ReadOnlyPreviewResult>)
        ensures
            !json_parses(args@) ==> r is Err,
            r is Ok ==> json_parses(args@) && exists|leaf: UserLeafCtx|
                preview_outcome(
                    cfc_id.function_name@,
                    json_u64_member(args@, "amount"@),
                    json_str_member(args@, "to"@),
                    leaf,
                    *sdkey_policy,
                    r,
                ),
    {
        let checkpoint = match network_state.latest_finalized_chkp() {
            Ok(c) => c,
            Err(e) => {
                return Err(e);
            },
        };
        let user_leaf = match network_state.fetch_user_leaf(user_id, &checkpoint) {
            Ok(l) => l,
            Err(e) => {
                return Err(e);
            },
        };
        match network_state.fetch_contract_meta(&cfc_id.contract_id) {
            Ok(_) => {},
            Err(e) => {
                return Err(e);
            },
        }
        Self::simulate_json(cfc_id, args, &user_leaf, sdkey_policy)
    }

    /// Previews the call with the arguments read from `args`. Fails with
    /// `InvalidInput` when `args` is not JSON.
    pub fn simulate_json(cfc_id: &CfcId, args: &str, user_leaf: &UserLeafCtx, sdkey_policy: &SdkeyPolicy) -> (r:
        PsyResult<ReadOnlyPreviewResult>)
        ensures
            !json_parses(args@) ==> (r matches Err(e) && e is InvalidInput),
            json_parses(args@) ==> preview_outcome(
                cfc_id.function_name@,
                json_u64_member(args@, "amount"@),
                json_str_member(args@, "to"@),
                *user_leaf,
                *sdkey_policy,
                r,
            ),
    {
        if parse_json(args).is_err() {
            return Err(PsyGuardError::InvalidInput("arguments are not JSON".to_owned()));
        }
        let amount = u64_member(args, "amount");
        let to = str_member(args, "to");
        let r = Self::simulate_execution(&cfc_id.function_name, amount, to, user_leaf, sdkey_policy);
        r
    }

    /// Previews a call from its parsed arguments: `transfer` needs an amount
    /// and a recipient, `approve` takes an amount (0 when absent), `claim`
    /// takes an amount (100 when absent); any other function changes
    /// nothing. A transfer the balance does not cover, or an amount whose
    /// signed delta does not fit, is predicted to fail.
    pub fn simulate_execution(
        function_name: &String,
        amount: Option<u64>,
        to: Option<String>,
        user_leaf: &UserLeafCtx,
        sdkey_policy: &SdkeyPolicy,
    ) -> (r: PsyResult<ReadOnlyPreviewResult>)
        ensures
            preview_outcome(function_name@, amount, opt_view(to), *user_leaf, *sdkey_policy, r),
    {
        if text_is(function_name, "transfer") {
            let a = match amount {
                Some(a) => a,
                None => {
                    return Err(PsyGuardError::InvalidInput("missing amount".to_owned()));
                },
            };
            let recipient = match to {
                Some(t) => t,
                None => {
                    return Err(PsyGuardError::InvalidInput("missing recipient".to_owned()));
                },
            };
            Ok(Self::preview_transfer(a, recipient, user_leaf, sdkey_policy))
        } else if text_is(function_name, "approve") {
            let a = match amount {
                Some(a) => a,
                None => 0,
            };
            Ok(Self::preview_approve(a, sdkey_policy))
        } else if text_is(function_name, "claim") {
            let a = match amount {
                Some(a) => a,
                None => DEFAULT_CLAIM_AMOUNT,
            };
            Ok(Self::preview_claim(a, user_leaf))
        } else {
            Ok(
                ReadOnlyPreviewResult {
                    success: true,
                    slots_to_modify: Vec::new(),
                    balance_changes: Vec::new(),
                    will_trigger_limit: false,
                    requires_2fa: false,
                    estimated_gas: ESTIMATED_GAS,
                    error_message: None,
                },
            )
        }
    }

    fn failed(message: &str, will_trigger_limit: bool, requires_2fa: bool) -> (r: ReadOnlyPreviewResult)
        ensures
            predicts_failure(r),
            r.will_trigger_limit == will_trigger_limit,
            r.requires_2fa == requires_2fa,
            r.estimated_gas == ESTIMATED_GAS,
    {
        ReadOnlyPreviewResult {
            success: false,
            slots_to_modify: Vec::new(),
            balance_changes: Vec::new(),
            will_trigger_limit,
            requires_2fa,
            estimated_gas: ESTIMATED_GAS,
            error_message: Some(message.to_owned()),
        }
    }

    fn preview_transfer(amount: u64, to: String, user_leaf: &UserLeafCtx, sdkey_policy: &SdkeyPolicy) -> (r:
        ReadOnlyPreviewResult)
        ensures
            transfer_outcome(amount, to@, *user_leaf, *sdkey_policy, r),
    {
        let will_trigger_limit = match sdkey_policy.daily_limit {
            Some(limit) => amount > limit,
            None => false,
        };
        let requires_2fa = sdkey_policy.require_2fa || will_trigger_limit;
        let balance = user_leaf.balance;
        if amount > balance || amount > i64::MAX as u64 {
            return Self::failed("balance does not cover the amount", will_trigger_limit, requires_2fa);
        }
        let new_balance = balance - amount;
        let mut slots: Vec<SlotModification> = Vec::new();
        slots.push(
            SlotModification {
                slot_index: 0,
                old_value: le_bytes(balance),
                new_value: le_bytes(new_balance),
                description: with_numbers("balance slot: ", balance, " -> ", new_balance),
            },
        );
        let mut changes: Vec<BalanceChange> = Vec::new();
        changes.push(
            BalanceChange {
                account: UserId("sender".to_owned()),
                old_balance: balance,
                new_balance,
                delta: -(amount as i64),
            },
        );
        changes.push(
            BalanceChange { account: UserId(to), old_balance: 0, new_balance: amount, delta: amount as i64 },
        );
        ReadOnlyPreviewResult {
            success: true,
            slots_to_modify: slots,
            balance_changes: changes,
            will_trigger_limit,
            requires_2fa,
            estimated_gas: ESTIMATED_GAS,
            error_message: None,
        }
    }

    fn preview_approve(amount: u64, sdkey_policy: &SdkeyPolicy) -> (r: ReadOnlyPreviewResult)
        ensures
            approve_outcome(amount, *sdkey_policy, r),
    {
        let mut slots: Vec<SlotModification> = Vec::new();
        slots.push(
            SlotModification {
                slot_index: 1,
                old_value: le_bytes(0),
                new_value: le_bytes(amount),
                description: with_numbers("allowance slot: ", 0, " -> ", amount),
            },
        );
        ReadOnlyPreviewResult {
            success: true,
            slots_to_modify: slots,
            balance_changes: Vec::new(),
            will_trigger_limit: false,
            requires_2fa: sdkey_policy.require_2fa,
            estimated_gas: ESTIMATED_GAS,
            error_message: None,
        }
    }

    fn preview_claim(amount: u64, user_leaf: &UserLeafCtx) -> (r: ReadOnlyPreviewResult)
        ensures
            claim_outcome(amount, *user_leaf, r),
    {
        let balance = user_leaf.balance;
        if amount > u64::MAX - balance || amount > i64::MAX as u64 {
            return Self::failed("new balance out of range", false, false);
        }
        let new_balance = balance + amount;
        let mut slots: Vec<SlotModification> = Vec::new();
        slots.push(
            SlotModification {
                slot_index: 0,
                old_value: le_bytes(balance),
                new_value: le_bytes(new_balance),
                description: with_numbers("balance slot: ", balance, " -> ", new_balance),
            },
        );
        let mut changes: Vec<BalanceChange> = Vec::new();
        changes.push(
            BalanceChange {
                account: UserId("recipient".to_owned()),
                old_balance: balance,
                new_balance,
                delta: amount as i64,
            },
        );
        ReadOnlyPreviewResult {
            success: true,
            slots_to_modify: slots,
            balance_changes: changes,
            will_trigger_limit: false,
            requires_2fa: false,
            estimated_gas: ESTIMATED_GAS,
            error_message: None,
        }
    }
}

} // verus!
