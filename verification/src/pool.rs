//! Pool state and the settlement orchestrator.
//!
//! A deposit runs as a chain: quote a plan, let the host debit the depositor
//! on one external ledger, on confirmation let the host credit the payout on
//! the other ledger, and only on confirmation of that commit the proposed
//! reserves. The quoting step and every continuation decision live here; the
//! host only performs the transfers the returned plans describe and reports
//! each outcome back. Reserves therefore never reflect an unconfirmed
//! transfer: the only function that writes them is [`Contract::callback_update_tickers`],
//! and it refuses to commit unless the preceding transfer succeeded.

use vstd::prelude::*;

use crate::error::AmmError;
use crate::math::{
    MAX_DECIMALS, normalized, pow10, pow10_exec, quoted, ratio_of, lemma_pow10_pos,
};

verus! {

/// Seed reserve of asset A at initialization, in smallest units.
pub const A_TICKER: u128 = 40000000000000000000000;

/// Seed reserve of asset B at initialization, in smallest units.
pub const B_TICKER: u128 = 300000000000000000000;

/// The pool's whole state: owner, reserves, asset identities, display
/// metadata and the cached invariant. Only `a_ticker` and `b_ticker` are
/// ground truth; `ratio` is always recomputed from them.
#[derive(Clone, Debug, PartialEq, Eq)]
pub struct Contract {
    pub owner_id: String,
    pub ratio: u128,
    pub a_ticker: u128,
    pub a_contract_id: String,
    pub a_contract_name: String,
    pub a_contract_decimals: u8,
    pub b_ticker: u128,
    pub b_contract_id: String,
    pub b_contract_name: String,
    pub b_contract_decimals: u8,
}

/// The plan a caller-funded deposit quotes before any funds move: the scaled
/// debit the depositing ledger must perform, the reserves to commit once the
/// whole chain confirms, and the counter-asset payout owed to the depositor.
#[derive(Clone, Debug, PartialEq, Eq)]
pub struct DepositPlan {
    /// Ledger that moves the depositor's funds to the pool.
    pub debit_token_id: String,
    /// Amount of the debit, in the deposited asset's smallest unit.
    pub debit_amount: u128,
    /// Reserve of A to commit after the chain confirms.
    pub a_ticker_after: u128,
    /// Reserve of B to commit after the chain confirms.
    pub b_ticker_after: u128,
    /// Ledger that pays the counter-asset out of the pool.
    pub payout_token_id: String,
    /// The depositor, who receives the payout.
    pub payout_receiver_id: String,
    /// Counter-asset amount owed, in its smallest unit.
    pub payout_amount: u128,
}

/// The plan of an owner-only reserve injection: one debit from the owner to
/// the pool, no counter-payment, and the reserves to commit on confirmation.
#[derive(Clone, Debug, PartialEq, Eq)]
pub struct OwnerDepositPlan {
    /// Ledger that moves the owner's funds to the pool.
    pub debit_token_id: String,
    /// Amount of the debit, in the deposited asset's smallest unit.
    pub debit_amount: u128,
    /// Reserve of A to commit after the debit confirms.
    pub a_ticker_after: u128,
    /// Reserve of B to commit after the debit confirms.
    pub b_ticker_after: u128,
}

/// The credit step a confirmed debit releases: pay the counter-asset out of
/// the pool, carrying the proposed reserves forward to the final commit.
#[derive(Clone, Debug, PartialEq, Eq)]
pub struct CreditStep {
    /// Ledger that pays the counter-asset.
    pub token_id: String,
    /// Recipient of the payout.
    pub receiver_id: String,
    /// Payout amount, in the counter-asset's smallest unit.
    pub amount: u128,
    /// Reserve of A to commit after this credit confirms.
    pub a_ticker_after: u128,
    /// Reserve of B to commit after this credit confirms.
    pub b_ticker_after: u128,
}

impl Contract {
    /// Decimal precision of asset A, as an exponent.
    pub open spec fn a_dec(self) -> nat {
        self.a_contract_decimals as nat
    }

    /// Decimal precision of asset B, as an exponent.
    pub open spec fn b_dec(self) -> nat {
        self.b_contract_decimals as nat
    }

    /// Both precisions small enough that their scale factors fit in a `u128`.
    pub open spec fn wf(self) -> bool {
        self.a_contract_decimals <= MAX_DECIMALS && self.b_contract_decimals <= MAX_DECIMALS
    }

    /// The invariant recomputed from the current reserves and precisions.
    pub open spec fn spec_ratio(self) -> int {
        ratio_of(self.a_ticker as int, self.a_dec(), self.b_ticker as int, self.b_dec())
    }

    /// The cached invariant agrees with the reserves it was derived from.
    pub open spec fn ratio_consistent(self) -> bool {
        self.ratio == self.spec_ratio()
    }

    /// Owner and both asset identities agree with `other`'s.
    pub open spec fn same_identities(self, other: Contract) -> bool {
        &&& self.owner_id == other.owner_id
        &&& self.a_contract_id == other.a_contract_id
        &&& self.b_contract_id == other.b_contract_id
    }

    /// Display metadata of both assets agrees with `other`'s.
    pub open spec fn same_metadata(self, other: Contract) -> bool {
        &&& self.a_contract_name == other.a_contract_name
        &&& self.a_contract_decimals == other.a_contract_decimals
        &&& self.b_contract_name == other.b_contract_name
        &&& self.b_contract_decimals == other.b_contract_decimals
    }

    /// Both reserves agree with `other`'s.
    pub open spec fn same_tickers(self, other: Contract) -> bool {
        self.a_ticker == other.a_ticker && self.b_ticker == other.b_ticker
    }

    /// A deposit of `amount` whole units of A, scaled to A's smallest unit.
    pub open spec fn scaled_a(self, amount: u128) -> int {
        amount * pow10(self.a_dec())
    }

    /// A deposit of `amount` whole units of B, scaled to B's smallest unit.
    pub open spec fn scaled_b(self, amount: u128) -> int {
        amount * pow10(self.b_dec())
    }

    /// Reserve of A proposed by a deposit of `amount` units of A.
    pub open spec fn a_after_deposit_a(self, amount: u128) -> int {
        self.scaled_a(amount) + self.a_ticker
    }

    /// Reserve of B proposed by a deposit of `amount` units of B.
    pub open spec fn b_after_deposit_b(self, amount: u128) -> int {
        self.scaled_b(amount) + self.b_ticker
    }

    /// Counter-reserve of B quoted for a deposit of `amount` units of A.
    pub open spec fn b_quoted_for_a(self, amount: u128) -> int {
        quoted(self.ratio as int, self.a_after_deposit_a(amount), self.a_dec(), self.b_dec())
    }

    /// Counter-reserve of A quoted for a deposit of `amount` units of B.
    pub open spec fn a_quoted_for_b(self, amount: u128) -> int {
        quoted(self.ratio as int, self.b_after_deposit_b(amount), self.b_dec(), self.a_dec())
    }

    /// A deposit of A is accepted exactly when the proposed reserve
    /// normalizes to a nonzero divisor and the payout of B is positive.
    pub open spec fn deposit_a_accepted(self, amount: u128) -> bool {
        &&& normalized(self.a_after_deposit_a(amount), self.a_dec()) != 0
        &&& self.b_quoted_for_a(amount) < self.b_ticker
    }

    /// A deposit of B is accepted exactly when the proposed reserve
    /// normalizes to a nonzero divisor and the payout of A is positive.
    pub open spec fn deposit_b_accepted(self, amount: u128) -> bool {
        &&& normalized(self.b_after_deposit_b(amount), self.b_dec()) != 0
        &&& self.a_quoted_for_b(amount) < self.a_ticker
    }

    /// One-time bootstrap: store the owner and both asset identities, seed
    /// the reserves, and leave the metadata at its defaults until each
    /// ledger's metadata callback fills it in. The host registers the pool
    /// with both ledgers (passing the seed reserves) and issues the two
    /// metadata fetches; `state_exists` reports whether an instance was
    /// already created, in which case nothing is built.
    pub fn new(
        owner_id: String,
        a_contract_id: String,
        b_contract_id: String,
        state_exists: bool,
    ) -> (r: Result<Contract, AmmError>)
        ensures
            match r {
                Ok(c) => {
                    &&& !state_exists
                    &&& c.owner_id == owner_id
                    &&& c.ratio == 0
                    &&& c.a_ticker == A_TICKER
                    &&& c.a_contract_id == a_contract_id
                    &&& c.a_contract_name@ == Seq::<char>::empty()
                    &&& c.a_contract_decimals == 1
                    &&& c.b_ticker == B_TICKER
                    &&& c.b_contract_id == b_contract_id
                    &&& c.b_contract_name@ == Seq::<char>::empty()
                    &&& c.b_contract_decimals == 1
                    &&& c.wf()
                },
                Err(e) => state_exists && e == AmmError::AlreadyInitialized,
            },
    {
        if state_exists {
            return Err(AmmError::AlreadyInitialized);
        }
        Ok(Contract {
            owner_id,
            ratio: 0,
            a_ticker: A_TICKER,
            a_contract_id,
            a_contract_name: String::new(),
            a_contract_decimals: 1,
            b_ticker: B_TICKER,
            b_contract_id,
            b_contract_name: String::new(),
            b_contract_decimals: 1,
        })
    }

    /// Recompute the cached invariant from the current reserves.
    fn calc_ratio(&mut self)
        requires
            old(self).wf(),
            old(self).spec_ratio() <= u128::MAX,
        ensures
            final(self).ratio == old(self).spec_ratio(),
            final(self).ratio_consistent(),
            final(self).same_identities(*old(self)),
            final(self).same_metadata(*old(self)),
            final(self).same_tickers(*old(self)),
    {
        proof {
            lemma_pow10_pos(old(self).a_dec());
            lemma_pow10_pos(old(self).b_dec());
        }
        let a_num = self.a_ticker / pow10_exec(self.a_contract_decimals);
        let b_num = self.b_ticker / pow10_exec(self.b_contract_decimals);
        self.ratio = a_num * b_num;
    }

    /// Read access to both assets: identity, display name, reserve and
    /// decimal precision, A first.
    pub fn get_info(&self) -> (r: ((String, String, u128, u8), (String, String, u128, u8)))
        ensures
            r.0.0 == self.a_contract_id,
            r.0.1 == self.a_contract_name,
            r.0.2 == self.a_ticker,
            r.0.3 == self.a_contract_decimals,
            r.1.0 == self.b_contract_id,
            r.1.1 == self.b_contract_name,
            r.1.2 == self.b_ticker,
            r.1.3 == self.b_contract_decimals,
    {
        (
            (
                self.a_contract_id.clone(),
                self.a_contract_name.clone(),
                self.a_ticker,
                self.a_contract_decimals,
            ),
            (
                self.b_contract_id.clone(),
                self.b_contract_name.clone(),
                self.b_ticker,
                self.b_contract_decimals,
            ),
        )
    }

    /// The cached invariant.
    pub fn get_ratio(&self) -> (r: u128)
        ensures
            r == self.ratio,
    {
        self.ratio
    }

    /// Quote a caller-funded deposit of `amount` whole units of A. On
    /// success the returned plan instructs the host to debit the scaled
    /// amount from `sender_id` on ledger A, then pay the B payout back to
    /// `sender_id`, then commit the proposed reserves. Nothing is mutated
    /// here: reserves change only at the final commit. Refused with
    /// `InvalidQuote` when the proposed reserve normalizes to zero or the
    /// payout would not be positive, before any funds move.
    pub fn deposit_a(&self, sender_id: &String, amount: u128) -> (r: Result<
        DepositPlan,
        AmmError,
    >)
        requires
            self.wf(),
            self.a_after_deposit_a(amount) <= u128::MAX,
            normalized(self.a_after_deposit_a(amount), self.a_dec()) != 0
                ==> self.b_quoted_for_a(amount) <= u128::MAX,
        ensures
            match r {
                Ok(plan) => {
                    &&& self.deposit_a_accepted(amount)
                    &&& plan.debit_token_id@ == self.a_contract_id@
                    &&& plan.debit_amount == self.scaled_a(amount)
                    &&& plan.a_ticker_after == self.a_after_deposit_a(amount)
                    &&& plan.b_ticker_after == self.b_quoted_for_a(amount)
                    &&& plan.payout_token_id@ == self.b_contract_id@
                    &&& plan.payout_receiver_id@ == sender_id@
                    &&& plan.payout_amount == self.b_ticker - self.b_quoted_for_a(amount)
                },
                Err(e) => !self.deposit_a_accepted(amount) && e == AmmError::InvalidQuote,
            },
    {
        proof {
            lemma_pow10_pos(self.a_dec());
        }
        let a_scale = pow10_exec(self.a_contract_decimals);
        let a_amount = amount * a_scale;
        let a_ticker_after = a_amount + self.a_ticker;
        let divisor = a_ticker_after / a_scale;
        if divisor == 0 {
            return Err(AmmError::InvalidQuote);
        }
        let b_ticker_after = (self.ratio / divisor) * pow10_exec(self.b_contract_decimals);
        if b_ticker_after >= self.b_ticker {
            return Err(AmmError::InvalidQuote);
        }
        Ok(DepositPlan {
            debit_token_id: self.a_contract_id.clone(),
            debit_amount: a_amount,
            a_ticker_after,
            b_ticker_after,
            payout_token_id: self.b_contract_id.clone(),
            payout_receiver_id: sender_id.clone(),
            payout_amount: self.b_ticker - b_ticker_after,
        })
    }

    /// Quote a caller-funded deposit of `amount` whole units of B; the
    /// mirror image of [`Contract::deposit_a`].
    pub fn deposit_b(&self, sender_id: &String, amount: u128) -> (r: Result<
        DepositPlan,
        AmmError,
    >)
        requires
            self.wf(),
            self.b_after_deposit_b(amount) <= u128::MAX,
            normalized(self.b_after_deposit_b(amount), self.b_dec()) != 0
                ==> self.a_quoted_for_b(amount) <= u128::MAX,
        ensures
            match r {
                Ok(plan) => {
                    &&& self.deposit_b_accepted(amount)
                    &&& plan.debit_token_id@ == self.b_contract_id@
                    &&& plan.debit_amount == self.scaled_b(amount)
                    &&& plan.a_ticker_after == self.a_quoted_for_b(amount)
                    &&& plan.b_ticker_after == self.b_after_deposit_b(amount)
                    &&& plan.payout_token_id@ == self.a_contract_id@
                    &&& plan.payout_receiver_id@ == sender_id@
                    &&& plan.payout_amount == self.a_ticker - self.a_quoted_for_b(amount)
                },
                Err(e) => !self.deposit_b_accepted(amount) && e == AmmError::InvalidQuote,
            },
    {
        proof {
            lemma_pow10_pos(self.b_dec());
        }
        let b_scale = pow10_exec(self.b_contract_decimals);
        let b_amount = amount * b_scale;
        let b_ticker_after = b_amount + self.b_ticker;
        let divisor = b_ticker_after / b_scale;
        if divisor == 0 {
            return Err(AmmError::InvalidQuote);
        }
        let a_ticker_after = (self.ratio / divisor) * pow10_exec(self.a_contract_decimals);
        if a_ticker_after >= self.a_ticker {
            return Err(AmmError::InvalidQuote);
        }
        Ok(DepositPlan {
            debit_token_id: self.b_contract_id.clone(),
            debit_amount: b_amount,
            a_ticker_after,
            b_ticker_after,
            payout_token_id: self.a_contract_id.clone(),
            payout_receiver_id: sender_id.clone(),
            payout_amount: self.a_ticker - a_ticker_after,
        })
    }

    /// Plan an owner-only injection of `amount` whole units of A: the owner
    /// funds the pool to shift the invariant, so no counter-payment is owed
    /// and the reserve of B is carried through unchanged. Refused with
    /// `Unauthorized` unless `predecessor_id` is the stored owner.
    pub fn deposit_a_by_owner(&self, predecessor_id: &String, amount: u128) -> (r: Result<
        OwnerDepositPlan,
        AmmError,
    >)
        requires
            self.wf(),
            predecessor_id@ == self.owner_id@ ==> self.a_after_deposit_a(amount) <= u128::MAX,
        ensures
            match r {
                Ok(plan) => {
                    &&& predecessor_id@ == self.owner_id@
                    &&& plan.debit_token_id@ == self.a_contract_id@
                    &&& plan.debit_amount == self.scaled_a(amount)
                    &&& plan.a_ticker_after == self.a_ticker + self.scaled_a(amount)
                    &&& plan.b_ticker_after == self.b_ticker
                },
                Err(e) => predecessor_id@ != self.owner_id@ && e == AmmError::Unauthorized,
            },
    {
        if !(*predecessor_id == self.owner_id) {
            return Err(AmmError::Unauthorized);
        }
        let a_amount = amount * pow10_exec(self.a_contract_decimals);
        Ok(OwnerDepositPlan {
            debit_token_id: self.a_contract_id.clone(),
            debit_amount: a_amount,
            a_ticker_after: self.a_ticker + a_amount,
            b_ticker_after: self.b_ticker,
        })
    }

    /// Plan an owner-only injection of `amount` whole units of B; the
    /// mirror image of [`Contract::deposit_a_by_owner`].
    pub fn deposit_b_by_owner(&self, predecessor_id: &String, amount: u128) -> (r: Result<
        OwnerDepositPlan,
        AmmError,
    >)
        requires
            self.wf(),
            predecessor_id@ == self.owner_id@ ==> self.b_after_deposit_b(amount) <= u128::MAX,
        ensures
            match r {
                Ok(plan) => {
                    &&& predecessor_id@ == self.owner_id@
                    &&& plan.debit_token_id@ == self.b_contract_id@
                    &&& plan.debit_amount == self.scaled_b(amount)
                    &&& plan.a_ticker_after == self.a_ticker
                    &&& plan.b_ticker_after == self.b_ticker + self.scaled_b(amount)
                },
                Err(e) => predecessor_id@ != self.owner_id@ && e == AmmError::Unauthorized,
            },
    {
        if !(*predecessor_id == self.owner_id) {
            return Err(AmmError::Unauthorized);
        }
        let b_amount = amount * pow10_exec(self.b_contract_decimals);
        Ok(OwnerDepositPlan {
            debit_token_id: self.b_contract_id.clone(),
            debit_amount: b_amount,
            a_ticker_after: self.a_ticker,
            b_ticker_after: self.b_ticker + b_amount,
        })
    }

    /// Continuation after the debit of a caller-funded deposit. Only the
    /// contract's own execution identity may drive it, and only a confirmed
    /// debit releases the credit step; a failed debit ends the chain with no
    /// second transfer and no state change (this method mutates nothing).
    /// The pending reserves and the payout are carried through unchanged.
    pub fn callback_ft_deposit(
        &self,
        predecessor_id: &String,
        current_id: &String,
        a_ticker_after: u128,
        b_ticker_after: u128,
        contract_id: String,
        receiver_id: String,
        amount: u128,
        debit_ok: bool,
    ) -> (r: Result<CreditStep, AmmError>)
        ensures
            match r {
                Ok(step) => {
                    &&& predecessor_id@ == current_id@
                    &&& debit_ok
                    &&& step.token_id == contract_id
                    &&& step.receiver_id == receiver_id
                    &&& step.amount == amount
                    &&& step.a_ticker_after == a_ticker_after
                    &&& step.b_ticker_after == b_ticker_after
                },
                Err(e) => {
                    if predecessor_id@ != current_id@ {
                        e == AmmError::Unauthorized
                    } else {
                        !debit_ok && e == AmmError::ExternalTransferFailed
                    }
                },
            },
    {
        if !(*predecessor_id == *current_id) {
            return Err(AmmError::Unauthorized);
        }
        if !debit_ok {
            return Err(AmmError::ExternalTransferFailed);
        }
        Ok(CreditStep {
            token_id: contract_id,
            receiver_id,
            amount,
            a_ticker_after,
            b_ticker_after,
        })
    }

    /// Final commit of a settlement chain: overwrite both reserves together
    /// and recompute the invariant. Only the contract's own execution
    /// identity may drive it, and only when the preceding transfer was
    /// confirmed; any refusal leaves the state exactly as it was.
    pub fn callback_update_tickers(
        &mut self,
        predecessor_id: &String,
        current_id: &String,
        a_ticker_after: u128,
        b_ticker_after: u128,
        transfer_ok: bool,
    ) -> (r: Result<(), AmmError>)
        requires
            predecessor_id@ == current_id@ && transfer_ok ==> old(self).wf() && ratio_of(
                a_ticker_after as int,
                old(self).a_dec(),
                b_ticker_after as int,
                old(self).b_dec(),
            ) <= u128::MAX,
        ensures
            match r {
                Ok(_) => {
                    &&& predecessor_id@ == current_id@
                    &&& transfer_ok
                    &&& final(self).a_ticker == a_ticker_after
                    &&& final(self).b_ticker == b_ticker_after
                    &&& final(self).same_identities(*old(self))
                    &&& final(self).same_metadata(*old(self))
                    &&& final(self).ratio_consistent()
                },
                Err(e) => {
                    &&& *final(self) == *old(self)
                    &&& if predecessor_id@ != current_id@ {
                        e == AmmError::Unauthorized
                    } else {
                        !transfer_ok && e == AmmError::ExternalTransferFailed
                    }
                },
            },
    {
        if !(*predecessor_id == *current_id) {
            return Err(AmmError::Unauthorized);
        }
        if !transfer_ok {
            return Err(AmmError::ExternalTransferFailed);
        }
        self.a_ticker = a_ticker_after;
        self.b_ticker = b_ticker_after;
        self.calc_ratio();
        Ok(())
    }

    /// Metadata continuation of initialization: write a ledger's display
    /// name and decimal precision into the asset it identifies (write-once
    /// in the intended choreography; an unknown identity changes no
    /// metadata) and recompute the invariant for the new precision. Only the
    /// contract's own execution identity may drive it.
    pub fn callback_get_info(
        &mut self,
        predecessor_id: &String,
        current_id: &String,
        contract_id: &String,
        name: String,
        decimals: u8,
    ) -> (r: Result<(), AmmError>)
        requires
            predecessor_id@ == current_id@ ==> {
                &&& old(self).applied_a_decimals(contract_id@, decimals) <= MAX_DECIMALS
                &&& old(self).applied_b_decimals(contract_id@, decimals) <= MAX_DECIMALS
                &&& ratio_of(
                    old(self).a_ticker as int,
                    old(self).applied_a_decimals(contract_id@, decimals) as nat,
                    old(self).b_ticker as int,
                    old(self).applied_b_decimals(contract_id@, decimals) as nat,
                ) <= u128::MAX
            },
        ensures
            match r {
                Ok(_) => {
                    &&& predecessor_id@ == current_id@
                    &&& final(self).same_identities(*old(self))
                    &&& final(self).same_tickers(*old(self))
                    &&& final(self).a_contract_decimals == old(self).applied_a_decimals(
                        contract_id@,
                        decimals,
                    )
                    &&& final(self).b_contract_decimals == old(self).applied_b_decimals(
                        contract_id@,
                        decimals,
                    )
                    &&& (if contract_id@ == old(self).a_contract_id@ {
                        final(self).a_contract_name == name && final(self).b_contract_name == old(
                            self,
                        ).b_contract_name
                    } else if contract_id@ == old(self).b_contract_id@ {
                        final(self).b_contract_name == name && final(self).a_contract_name == old(
                            self,
                        ).a_contract_name
                    } else {
                        final(self).same_metadata(*old(self))
                    })
                    &&& final(self).ratio_consistent()
                    &&& final(self).wf()
                },
                Err(e) => {
                    &&& *final(self) == *old(self)
                    &&& predecessor_id@ != current_id@
                    &&& e == AmmError::Unauthorized
                },
            },
    {
        if !(*predecessor_id == *current_id) {
            return Err(AmmError::Unauthorized);
        }
        if *contract_id == self.a_contract_id {
            self.a_contract_name = name;
            self.a_contract_decimals = decimals;
        } else if *contract_id == self.b_contract_id {
            self.b_contract_name = name;
            self.b_contract_decimals = decimals;
        }
        self.calc_ratio();
        Ok(())
    }

    /// Decimal precision of A after a metadata callback for `contract_id`.
    pub open spec fn applied_a_decimals(self, contract_id: Seq<char>, decimals: u8) -> u8 {
        if contract_id == self.a_contract_id@ {
            decimals
        } else {
            self.a_contract_decimals
        }
    }

    /// Decimal precision of B after a metadata callback for `contract_id`.
    pub open spec fn applied_b_decimals(self, contract_id: Seq<char>, decimals: u8) -> u8 {
        if contract_id != self.a_contract_id@ && contract_id == self.b_contract_id@ {
            decimals
        } else {
            self.b_contract_decimals
        }
    }
}

} // verus!
