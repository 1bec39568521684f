//! The programmable-key policy engine: a fixed sequence of rule checks over a
//! candidate transaction, in a failing mode and in a reporting mode.
use crate::error::{PsyGuardError, PsyResult};
use crate::hash::{self, append_bytes, sha256, sha256_of};
use crate::state::{le_bytes, le_bytes_spec};
use crate::text::{decimal_spec, strings_view, surround, with_numbers};
use crate::traits::SdkeyPolicy;
use crate::types::{ConstraintCheckResult, ContractId, SdkeyConstraintCheck, TwoFaCheckResult};
use vstd::prelude::*;

verus! {

/// The daily-limit rule: the amount does not exceed the limit, if one is set.
pub open spec fn limit_ok(p: SdkeyPolicy, amount: u64) -> bool {
    match p.daily_limit {
        Some(l) => amount <= l,
        None => true,
    }
}

/// The whitelist rule: the contract is listed, if a list is set.
pub open spec fn whitelisted(p: SdkeyPolicy, contract: Seq<char>) -> bool {
    match p.trusted_contracts {
        Some(v) => exists|i: int| 0 <= i < v@.len() && (#[trigger] v@[i])@ == contract,
        None => true,
    }
}

/// The time-lock rule: the lock has expired, if one is set.
pub open spec fn unlocked(p: SdkeyPolicy, now: u64) -> bool {
    match p.time_lock_until {
        Some(t) => now >= t,
        None => true,
    }
}

pub open spec fn dec(n: u64) -> Seq<char> {
    decimal_spec(n as nat)
}

pub open spec fn limit_pass_msg(amount: u64, limit: u64) -> Seq<char> {
    "within daily limit: "@ + dec(amount) + " <= "@ + dec(limit)
}

pub open spec fn limit_fail_msg(amount: u64, limit: u64) -> Seq<char> {
    "amount "@ + dec(amount) + " exceeds daily limit "@ + dec(limit)
}

pub open spec fn trusted_msg(contract: Seq<char>) -> Seq<char> {
    "contract "@ + contract + " is whitelisted"@
}

pub open spec fn untrusted_msg(contract: Seq<char>) -> Seq<char> {
    "contract "@ + contract + " is not whitelisted"@
}

pub open spec fn unlocked_msg(now: u64, until: u64) -> Seq<char> {
    "unlocked: "@ + dec(now) + " >= "@ + dec(until)
}

/// Names the time that remains and the end of the lock.
pub open spec fn locked_msg(now: u64, until: u64) -> Seq<char> {
    "locked: "@ + dec((until - now) as u64) + " remaining until "@ + dec(until)
}

/// The messages of the rules a transaction satisfied, in rule order.
pub open spec fn satisfied_spec(p: SdkeyPolicy, amount: u64, contract: Seq<char>, now: u64) -> Seq<
    Seq<char>,
> {
    (match p.daily_limit {
        Some(l) => seq![limit_pass_msg(amount, l)],
        None => Seq::empty(),
    }) + (match p.trusted_contracts {
        Some(v) => seq![trusted_msg(contract)],
        None => Seq::empty(),
    }) + (match p.time_lock_until {
        Some(t) => seq![unlocked_msg(now, t)],
        None => Seq::empty(),
    }) + (if p.require_2fa {
        seq!["second factor required"@]
    } else {
        Seq::empty()
    })
}

/// The message of the first rule a transaction violates.
pub open spec fn first_violation(p: SdkeyPolicy, amount: u64, contract: Seq<char>, now: u64) -> Seq<
    char,
> {
    if !limit_ok(p, amount) {
        limit_fail_msg(amount, p.daily_limit->Some_0)
    } else if !whitelisted(p, contract) {
        untrusted_msg(contract)
    } else {
        locked_msg(now, p.time_lock_until->Some_0)
    }
}

pub open spec fn limit_check_spec(p: SdkeyPolicy, amount: u64) -> (bool, Seq<char>) {
    match p.daily_limit {
        Some(l) => if amount > l {
            (false, limit_fail_msg(amount, l))
        } else {
            (true, limit_pass_msg(amount, l))
        },
        None => (true, "no daily limit"@),
    }
}

pub open spec fn whitelist_check_spec(p: SdkeyPolicy, contract: Seq<char>) -> (bool, Seq<char>) {
    match p.trusted_contracts {
        Some(v) => if whitelisted(p, contract) {
            (true, trusted_msg(contract))
        } else {
            (false, untrusted_msg(contract))
        },
        None => (true, "no contract whitelist"@),
    }
}

pub open spec fn timelock_check_spec(p: SdkeyPolicy, now: u64) -> (bool, Seq<char>) {
    match p.time_lock_until {
        Some(t) => if now >= t {
            (true, unlocked_msg(now, t))
        } else {
            (false, locked_msg(now, t))
        },
        None => (true, "no time lock"@),
    }
}

pub open spec fn twofa_check_spec(p: SdkeyPolicy, verified: bool) -> (bool, bool, Seq<char>) {
    if p.require_2fa {
        (true, verified, if verified {
            "second factor verified"@
        } else {
            "second factor required"@
        })
    } else {
        (false, true, "second factor not required"@)
    }
}

/// The bytes hashed into a key's public identifier: the verifier data, then
/// the daily limit and the time lock as eight little-endian bytes each, when
/// set.
pub open spec fn public_key_preimage(verifier_data: Seq<u8>, p: SdkeyPolicy) -> Seq<u8> {
    verifier_data + (match p.daily_limit {
        Some(l) => le_bytes_spec(l as nat, 8),
        None => Seq::empty(),
    }) + (match p.time_lock_until {
        Some(t) => le_bytes_spec(t as nat, 8),
        None => Seq::empty(),
    })
}

/// The two modes agree: `validate_transaction` fails exactly when one of the
/// three rule results of `check_constraints` did not pass, and the message it
/// fails with is that of the first such rule.
pub proof fn lemma_validate_agrees_with_check(p: SdkeyPolicy, amount: u64, contract: Seq<char>, now: u64)
    ensures
        (!limit_ok(p, amount) || !whitelisted(p, contract) || !unlocked(p, now)) <==> !(limit_check_spec(
            p,
            amount,
        ).0 && whitelist_check_spec(p, contract).0 && timelock_check_spec(p, now).0),
        !limit_check_spec(p, amount).0 ==> first_violation(p, amount, contract, now) == limit_check_spec(
            p,
            amount,
        ).1,
        limit_check_spec(p, amount).0 && !whitelist_check_spec(p, contract).0 ==> first_violation(
            p,
            amount,
            contract,
            now,
        ) == whitelist_check_spec(p, contract).1,
        limit_check_spec(p, amount).0 && whitelist_check_spec(p, contract).0 && !timelock_check_spec(
            p,
            now,
        ).0 ==> first_violation(p, amount, contract, now) == timelock_check_spec(p, now).1,
{
}

/// Evaluates policies over candidate transactions.
pub struct SdkeyPolicyValidator;

impl SdkeyPolicyValidator {
    fn is_trusted(trusted: &Vec<ContractId>, contract_id: &ContractId) -> (r: bool)
        ensures
            r == exists|i: int| 0 <= i < trusted@.len() && (#[trigger] trusted@[i])@ == contract_id@,
    {
        let mut i: usize = 0;
        while i < trusted.len()
            invariant
                0 <= i <= trusted@.len(),
                forall|k: int| 0 <= k < i ==> (#[trigger] trusted@[k])@ != contract_id@,
            decreases trusted@.len() - i,
        {
            if trusted[i].0 == contract_id.0 {
                return true;
            }
            i = i + 1;
        }
        false
    }

    /// Checks the rules in order (daily limit, whitelist, time lock) and
    /// fails with `SdkeyPolicyViolation` at the first one violated. On
    /// success, returns a message per rule that is set, the second factor
    /// included.
    pub fn validate_transaction(
        policy: &SdkeyPolicy,
        tx_amount: u64,
        contract_id: &ContractId,
        timestamp: u64,
    ) -> (r: PsyResult<Vec<String>>)
        ensures
            r is Err <==> !limit_ok(*policy, tx_amount) || !whitelisted(*policy, contract_id@)
                || !unlocked(*policy, timestamp),
            r matches Ok(v) ==> strings_view(v@) == satisfied_spec(*policy, tx_amount, contract_id@, timestamp),
            r matches Err(e) ==> e is SdkeyPolicyViolation && e.detail_spec() == first_violation(
                *policy,
                tx_amount,
                contract_id@,
                timestamp,
            ),
    {
        let mut satisfied: Vec<String> = Vec::new();
        let ghost mut expected: Seq<Seq<char>> = Seq::empty();
        if let Some(limit) = policy.daily_limit {
            if tx_amount > limit {
                return Err(
                    PsyGuardError::SdkeyPolicyViolation(
                        with_numbers("amount ", tx_amount, " exceeds daily limit ", limit),
                    ),
                );
            }
            satisfied.push(with_numbers("within daily limit: ", tx_amount, " <= ", limit));
            proof {
                expected = seq![limit_pass_msg(tx_amount, limit)];
            }
        }
        assert(strings_view(satisfied@) =~= expected);
        if let Some(trusted) = &policy.trusted_contracts {
            if !Self::is_trusted(trusted, contract_id) {
                return Err(
                    PsyGuardError::SdkeyPolicyViolation(
                        surround("contract ", contract_id.0.as_str(), " is not whitelisted"),
                    ),
                );
            }
            satisfied.push(surround("contract ", contract_id.0.as_str(), " is whitelisted"));
            proof {
                expected = expected + seq![trusted_msg(contract_id@)];
            }
        }
        assert(strings_view(satisfied@) =~= expected);
        if let Some(until) = policy.time_lock_until {
            if timestamp < until {
                return Err(
                    PsyGuardError::SdkeyPolicyViolation(
                        with_numbers("locked: ", until - timestamp, " remaining until ", until),
                    ),
                );
            }
            satisfied.push(with_numbers("unlocked: ", timestamp, " >= ", until));
            proof {
                expected = expected + seq![unlocked_msg(timestamp, until)];
            }
        }
        assert(strings_view(satisfied@) =~= expected);
        if policy.require_2fa {
            satisfied.push("second factor required".to_owned());
            proof {
                expected = expected + seq!["second factor required"@];
            }
        }
        assert(strings_view(satisfied@) =~= expected);
        assert(expected =~= satisfied_spec(*policy, tx_amount, contract_id@, timestamp));
        Ok(satisfied)
    }

    /// Reports every rule without stopping at a violation: one result per
    /// rule, and whether a second factor is required and was verified.
    pub fn check_constraints(
        policy: &SdkeyPolicy,
        tx_amount: u64,
        contract_id: &ContractId,
        timestamp: u64,
        twofa_verified: bool,
    ) -> (r: SdkeyConstraintCheck)
        ensures
            (r.limit_check.passed, r.limit_check.message@) == limit_check_spec(*policy, tx_amount),
            (r.whitelist_check.passed, r.whitelist_check.message@) == whitelist_check_spec(
                *policy,
                contract_id@,
            ),
            (r.timelock_check.passed, r.timelock_check.message@) == timelock_check_spec(
                *policy,
                timestamp,
            ),
            (r.twofa_check.required, r.twofa_check.verified, r.twofa_check.message@)
                == twofa_check_spec(*policy, twofa_verified),
    {
        let limit_check = match policy.daily_limit {
            Some(limit) => if tx_amount > limit {
                ConstraintCheckResult {
                    passed: false,
                    message: with_numbers("amount ", tx_amount, " exceeds daily limit ", limit),
                }
            } else {
                ConstraintCheckResult {
                    passed: true,
                    message: with_numbers("within daily limit: ", tx_amount, " <= ", limit),
                }
            },
            None => ConstraintCheckResult { passed: true, message: "no daily limit".to_owned() },
        };
        let whitelist_check = match &policy.trusted_contracts {
            Some(trusted) => if Self::is_trusted(trusted, contract_id) {
                ConstraintCheckResult {
                    passed: true,
                    message: surround("contract ", contract_id.0.as_str(), " is whitelisted"),
                }
            } else {
                ConstraintCheckResult {
                    passed: false,
                    message: surround("contract ", contract_id.0.as_str(), " is not whitelisted"),
                }
            },
            None => ConstraintCheckResult {
                passed: true,
                message: "no contract whitelist".to_owned(),
            },
        };
        let timelock_check = match policy.time_lock_until {
            Some(until) => if timestamp >= until {
                ConstraintCheckResult {
                    passed: true,
                    message: with_numbers("unlocked: ", timestamp, " >= ", until),
                }
            } else {
                ConstraintCheckResult {
                    passed: false,
                    message: with_numbers("locked: ", until - timestamp, " remaining until ", until),
                }
            },
            None => ConstraintCheckResult { passed: true, message: "no time lock".to_owned() },
        };
        let twofa_check = if policy.require_2fa {
            TwoFaCheckResult {
                required: true,
                verified: twofa_verified,
                message: if twofa_verified {
                    "second factor verified".to_owned()
                } else {
                    "second factor required".to_owned()
                },
            }
        } else {
            TwoFaCheckResult {
                required: false,
                verified: true,
                message: "second factor not required".to_owned(),
            }
        };
        SdkeyConstraintCheck { limit_check, whitelist_check, timelock_check, twofa_check }
    }

    /// The key's public identifier: the digest of the verifier data followed
    /// by the daily limit and the time lock, each when set.
    pub fn compute_public_key_hash(verifier_data: &[u8], policy_params: &SdkeyPolicy) -> (r: hash::Hash)
        ensures
            r@ == sha256_of(public_key_preimage(verifier_data@, *policy_params)),
    {
        let mut buf: Vec<u8> = Vec::new();
        append_bytes(&mut buf, verifier_data);
        if let Some(limit) = policy_params.daily_limit {
            append_bytes(&mut buf, le_bytes(limit).as_slice());
        }
        if let Some(lock) = policy_params.time_lock_until {
            append_bytes(&mut buf, le_bytes(lock).as_slice());
        }
        assert(buf@ =~= public_key_preimage(verifier_data@, *policy_params));
        sha256(buf.as_slice())
    }
}

/// Builds a policy rule by rule, starting from no rule at all.
pub struct SdkeyPolicyBuilder {
    policy: SdkeyPolicy,
}

impl SdkeyPolicyBuilder {
    pub closed spec fn spec_policy(&self) -> SdkeyPolicy {
        self.policy
    }

    pub fn new() -> (r: SdkeyPolicyBuilder)
        ensures
            r.spec_policy().daily_limit is None,
            r.spec_policy().trusted_contracts is None,
            r.spec_policy().time_lock_until is None,
            !r.spec_policy().require_2fa,
    {
        SdkeyPolicyBuilder {
            policy: SdkeyPolicy {
                daily_limit: None,
                trusted_contracts: None,
                time_lock_until: None,
                require_2fa: false,
            },
        }
    }

    pub fn with_daily_limit(self, limit: u64) -> (r: SdkeyPolicyBuilder)
        ensures
            r.spec_policy() == (SdkeyPolicy { daily_limit: Some(limit), ..self.spec_policy() }),
    {
        let mut s = self;
        s.policy.daily_limit = Some(limit);
        s
    }

    pub fn with_trusted_contracts(self, contracts: Vec<ContractId>) -> (r: SdkeyPolicyBuilder)
        ensures
            r.spec_policy() == (SdkeyPolicy { trusted_contracts: Some(contracts), ..self.spec_policy() }),
    {
        let mut s = self;
        s.policy.trusted_contracts = Some(contracts);
        s
    }

    pub fn with_time_lock(self, until: u64) -> (r: SdkeyPolicyBuilder)
        ensures
            r.spec_policy() == (SdkeyPolicy { time_lock_until: Some(until), ..self.spec_policy() }),
    {
        let mut s = self;
        s.policy.time_lock_until = Some(until);
        s
    }

    pub fn with_2fa(self) -> (r: SdkeyPolicyBuilder)
        ensures
            r.spec_policy() == (SdkeyPolicy { require_2fa: true, ..self.spec_policy() }),
    {
        let mut s = self;
        s.policy.require_2fa = true;
        s
    }

    pub fn build(self) -> (r: SdkeyPolicy)
        ensures
            r == self.spec_policy(),
    {
        self.policy
    }
}

impl Default for SdkeyPolicyBuilder {
    fn default() -> (r: SdkeyPolicyBuilder)
        ensures
            r.spec_policy().daily_limit is None,
            r.spec_policy().trusted_contracts is None,
            r.spec_policy().time_lock_until is None,
            !r.spec_policy().require_2fa,
    {
        Self::new()
    }
}

} // verus!
