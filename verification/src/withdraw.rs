//! The withdrawal gate: a three-party sign-off ledger in front of a
//! proportional fund split. Every withdrawal is a single-use unanimous
//! action: all three flags must be set, and a successful withdrawal
//! resets them, so a repeat needs fresh sign-off.
use vstd::prelude::*;

use crate::errors::ContractError;
use crate::keyorder::{compare_keys, KeyCmp};

verus! {

/// Share of the balance each party receives, in whole percent.
pub const TEAM_PERCENT: u64 = 30;

/// Share of the balance the project party receives, in whole percent.
pub const PRO_PERCENT: u64 = 14;

/// Share of the balance the treasury receives, in whole percent.
pub const TREAS_PERCENT: u64 = 56;

/// The three designated parties and their sign-off flags. The flags are
/// consent markers, not cryptographic signatures.
pub struct WithdrawalGate {
    pub team_addr: String,
    pub pro_addr: String,
    pub treas_addr: String,
    pub team_signed: bool,
    pub pro_signed: bool,
    pub treas_signed: bool,
}

/// The amounts a withdrawal hands to the three parties. Integer division
/// rounds each share down; the remainder stays in the contract balance.
#[derive(Clone, Copy, Debug, PartialEq, Eq, Structural)]
pub struct WithdrawSplit {
    pub team: u128,
    pub pro: u128,
    pub treas: u128,
}

/// A successful sign-off, attributed for external logging.
#[derive(Clone, Debug)]
pub struct SignReceipt {
    pub signer: String,
    pub time_nanos: u64,
}

impl WithdrawalGate {
    /// Three distinct parties: each address answers to exactly one flag.
    pub open spec fn wf(&self) -> bool {
        &&& self.team_addr@ != self.pro_addr@
        &&& self.team_addr@ != self.treas_addr@
        &&& self.pro_addr@ != self.treas_addr@
    }

    /// Whether the caller is one of the three designated parties.
    pub open spec fn spec_is_signer(&self, addr: Seq<char>) -> bool {
        addr == self.team_addr@ || addr == self.pro_addr@ || addr == self.treas_addr@
    }

    /// All three parties have signed off.
    pub open spec fn spec_all_signed(&self) -> bool {
        self.team_signed && self.pro_signed && self.treas_signed
    }

    /// A fresh gate: nobody has signed.
    pub fn new(team_addr: String, pro_addr: String, treas_addr: String) -> (r: WithdrawalGate)
        ensures
            r.team_addr == team_addr,
            r.pro_addr == pro_addr,
            r.treas_addr == treas_addr,
            !r.team_signed && !r.pro_signed && !r.treas_signed,
    {
        WithdrawalGate {
            team_addr,
            pro_addr,
            treas_addr,
            team_signed: false,
            pro_signed: false,
            treas_signed: false,
        }
    }

    /// Record one party's consent to a pending withdrawal, timestamped
    /// for observability. Anyone else is turned away as `NotSigner`.
    pub fn sign(&mut self, caller: &str, time_nanos: u64) -> (r: Result<
        SignReceipt,
        ContractError,
    >)
        requires
            old(self).wf(),
        ensures
            final(self).wf(),
            final(self).team_addr == old(self).team_addr,
            final(self).pro_addr == old(self).pro_addr,
            final(self).treas_addr == old(self).treas_addr,
            match r {
                Ok(receipt) => {
                    &&& old(self).spec_is_signer(caller@)
                    &&& receipt.signer@ == caller@
                    &&& receipt.time_nanos == time_nanos
                    &&& final(self).team_signed == (old(self).team_signed || caller@ == old(
                        self,
                    ).team_addr@)
                    &&& final(self).pro_signed == (old(self).pro_signed || caller@ == old(
                        self,
                    ).pro_addr@)
                    &&& final(self).treas_signed == (old(self).treas_signed || caller@ == old(
                        self,
                    ).treas_addr@)
                },
                Err(e) => {
                    &&& e == ContractError::NotSigner
                    &&& !old(self).spec_is_signer(caller@)
                    &&& *final(self) == *old(self)
                },
            },
    {
        if matches!(compare_keys(caller, self.team_addr.as_str()), KeyCmp::Same) {
            self.team_signed = true;
            return Ok(SignReceipt { signer: caller.to_owned(), time_nanos });
        }
        if matches!(compare_keys(caller, self.pro_addr.as_str()), KeyCmp::Same) {
            self.pro_signed = true;
            return Ok(SignReceipt { signer: caller.to_owned(), time_nanos });
        }
        if matches!(compare_keys(caller, self.treas_addr.as_str()), KeyCmp::Same) {
            self.treas_signed = true;
            return Ok(SignReceipt { signer: caller.to_owned(), time_nanos });
        }
        Err(ContractError::NotSigner)
    }
}

/// What a withdrawal does to a gate: with unanimous sign-off it splits
/// the balance 30/14/56 (rounded down) and resets every flag; otherwise
/// it fails `NotAllSigned` and changes nothing.
pub open spec fn spec_withdraw(g: WithdrawalGate, balance: u128) -> (WithdrawalGate, Result<
    WithdrawSplit,
    ContractError,
>) {
    if g.spec_all_signed() {
        (
            WithdrawalGate { team_signed: false, pro_signed: false, treas_signed: false, ..g },
            Ok(
                WithdrawSplit {
                    team: (balance * TEAM_PERCENT / 100) as u128,
                    pro: (balance * PRO_PERCENT / 100) as u128,
                    treas: (balance * TREAS_PERCENT / 100) as u128,
                },
            ),
        )
    } else {
        (g, Err(ContractError::NotAllSigned))
    }
}

impl WithdrawalGate {
    /// Split the current balance among the three parties, provided all of
    /// them have signed off, and spend the sign-offs.
    pub fn withdraw(&mut self, balance: u128) -> (r: Result<WithdrawSplit, ContractError>)
        requires
            balance * TREAS_PERCENT <= u128::MAX,
        ensures
            (*final(self), r) == spec_withdraw(*old(self), balance),
    {
        if !(self.team_signed && self.pro_signed && self.treas_signed) {
            return Err(ContractError::NotAllSigned);
        }
        proof {
            vstd::arithmetic::mul::lemma_mul_inequality(
                TEAM_PERCENT as int,
                TREAS_PERCENT as int,
                balance as int,
            );
            vstd::arithmetic::mul::lemma_mul_inequality(
                PRO_PERCENT as int,
                TREAS_PERCENT as int,
                balance as int,
            );
            vstd::arithmetic::mul::lemma_mul_is_commutative(balance as int, TEAM_PERCENT as int);
            vstd::arithmetic::mul::lemma_mul_is_commutative(balance as int, PRO_PERCENT as int);
        }
        let split = WithdrawSplit {
            team: balance * (TEAM_PERCENT as u128) / 100,
            pro: balance * (PRO_PERCENT as u128) / 100,
            treas: balance * (TREAS_PERCENT as u128) / 100,
        };
        self.team_signed = false;
        self.pro_signed = false;
        self.treas_signed = false;
        Ok(split)
    }
}

/// A withdrawal is single-use: after a successful one, an immediate
/// second attempt fails `NotAllSigned`, because success spent the
/// sign-offs.
pub proof fn lemma_withdraw_single_use(g: WithdrawalGate, balance1: u128, balance2: u128)
    requires
        g.spec_all_signed(),
    ensures
        spec_withdraw(g, balance1).1 is Ok,
        spec_withdraw(spec_withdraw(g, balance1).0, balance2).1 == Result::<
            WithdrawSplit,
            ContractError,
        >::Err(ContractError::NotAllSigned),
{
}

/// Before anyone signs — and right after any successful withdrawal — a
/// withdrawal is refused.
pub proof fn lemma_withdraw_needs_all(g: WithdrawalGate, balance: u128)
    requires
        !g.spec_all_signed(),
    ensures
        spec_withdraw(g, balance).1 == Result::<WithdrawSplit, ContractError>::Err(
            ContractError::NotAllSigned,
        ),
        spec_withdraw(g, balance).0 == g,
{
}

} // verus!
