//! The contract facade: one state object that owns the ledger, the
//! contribution log, the redemption catalog and the reward policy, and
//! orchestrates the contribution and redemption flows over them.
//!
//! The hosting environment authenticates callers and passes the caller
//! identity into every gated operation; it also dispatches the
//! [`BenefitRequest`] a successful redemption returns. The library itself
//! never performs either.

use crate::catalog::RedemptionCatalog;
use crate::catalog::RedemptionOption;
use crate::contributions::metrics_valid;
use crate::contributions::ContributionLog;
use crate::contributions::ContributionMetrics;
use crate::errors::TokenError;
use crate::guard;
use crate::ledger::Ledger;
use crate::reward;
use vstd::prelude::*;

verus! {

/// A request to deliver a redemption benefit: the account that redeemed,
/// the benefit's catalog name, and the remote routine that delivers it.
/// The debit is already committed when a request is handed out; delivery
/// is fire-and-forget and its outcome is never observed here.
#[derive(Debug, PartialEq, Eq)]
pub struct BenefitRequest {
    pub account: String,
    pub option_name: String,
    pub method_name: String,
}

/// The remote routine that delivers the benefit named `name`, for the
/// known benefit names; `None` for a name outside the known set.
pub open spec fn spec_benefit_method(name: Seq<char>) -> Option<Seq<char>> {
    if name == "supplier_discount"@ {
        Some("apply_supplier_discount"@)
    } else if name == "analytics_access"@ {
        Some("grant_analytics_access"@)
    } else if name == "grant_opportunity"@ {
        Some("process_grant_application"@)
    } else {
        None
    }
}

/// Resolves a benefit name to the routine that delivers it.
fn benefit_method(name: &String) -> (r: Option<String>)
    ensures
        match r {
            Some(m) => spec_benefit_method(name@) == Some(m@),
            None => spec_benefit_method(name@) is None,
        },
{
    if *name == "supplier_discount".to_owned() {
        Some("apply_supplier_discount".to_owned())
    } else if *name == "analytics_access".to_owned() {
        Some("grant_analytics_access".to_owned())
    } else if *name == "grant_opportunity".to_owned() {
        Some("process_grant_application".to_owned())
    } else {
        None
    }
}

/// The reward ledger: balances, contribution histories, the redemption
/// catalog and the reward policy, behind one owner-administered facade.
pub struct FoodBankToken {
    owner: String,
    ledger: Ledger,
    log: ContributionLog,
    catalog: RedemptionCatalog,
    min_contribution_threshold: u128,
    reward_rate: u8,
}

impl FoodBankToken {
    /// The identity set at construction; the only one allowed to record
    /// contributions and administer the catalog and the policy.
    pub closed spec fn spec_owner(self) -> Seq<char> {
        self.owner@
    }

    /// The total issued supply.
    pub closed spec fn spec_supply(self) -> u128 {
        self.ledger.spec_supply()
    }

    /// The sum of all account balances.
    pub closed spec fn spec_sum(self) -> int {
        self.ledger.spec_sum()
    }

    /// The balance held by `account`, zero for an unknown account.
    pub closed spec fn spec_balance(self, account: Seq<char>) -> u128 {
        self.ledger.spec_balance(account)
    }

    /// The ordered contribution history of `account`.
    pub closed spec fn spec_history(self, account: Seq<char>) -> Seq<ContributionMetrics> {
        self.log.spec_history(account)
    }

    /// The redemption option stored under `id`, if any.
    pub closed spec fn spec_option(self, id: Seq<char>) -> Option<RedemptionOption> {
        self.catalog.spec_option(id)
    }

    /// The minimum average score a contribution must reach to earn points.
    pub closed spec fn spec_threshold(self) -> u128 {
        self.min_contribution_threshold
    }

    /// The reward rate, a percentage between 0 and 100.
    pub closed spec fn spec_rate(self) -> u8 {
        self.reward_rate
    }

    pub closed spec fn wf(self) -> bool {
        &&& self.ledger.wf()
        &&& self.log.wf()
        &&& self.catalog.wf()
        &&& self.reward_rate <= 100
    }

    /// Supply conservation: the total issued supply equals the sum of all
    /// account balances. A construction with no initial supply establishes
    /// it, and every operation preserves it.
    pub open spec fn conserves(self) -> bool {
        self.spec_supply() == self.spec_sum()
    }

    /// Safety law: a balance is never negative — it is a non-negative
    /// count by construction, and a redemption that would overdraw it is
    /// rejected whole with `InsufficientBalance` (see `redeem_tokens`) —
    /// and no single balance ever exceeds the issued supply.
    pub proof fn lemma_balance_within_supply(self, account: Seq<char>)
        requires
            self.wf(),
        ensures
            self.spec_balance(account) >= 0,
            self.spec_balance(account) <= self.spec_supply(),
    {
        self.ledger.lemma_balance_le_supply(account);
    }

    /// A fresh system: the given owner and initial supply, no balances, no
    /// histories, the default policy (threshold 10, rate 5%), and exactly
    /// the three default redemption options, each available.
    pub fn new(owner: String, total_supply: u128) -> (r: FoodBankToken)
        ensures
            r.wf(),
            r.spec_owner() == owner@,
            r.spec_supply() == total_supply,
            r.spec_sum() == 0,
            forall|k: Seq<char>| r.spec_balance(k) == 0,
            forall|k: Seq<char>| r.spec_history(k) == Seq::<ContributionMetrics>::empty(),
            r.spec_threshold() == 10,
            r.spec_rate() == 5,
            (r.spec_option("supplier_discount"@) matches Some(o) && o.name@
                == "supplier_discount"@ && o.cost == 100 && o.available && o.description@
                == "10% discount on supplier purchases"@),
            (r.spec_option("analytics_access"@) matches Some(o) && o.name@ == "analytics_access"@
                && o.cost == 200 && o.available && o.description@
                == "Access to advanced analytics dashboard"@),
            (r.spec_option("grant_opportunity"@) matches Some(o) && o.name@
                == "grant_opportunity"@ && o.cost == 500 && o.available && o.description@
                == "Priority consideration for grant programs"@),
            forall|k: Seq<char>| k != "supplier_discount"@ && k != "analytics_access"@ && k
                != "grant_opportunity"@ ==> r.spec_option(k) is None,
            total_supply == 0 ==> r.conserves(),
    {
        proof {
            reveal_strlit("supplier_discount");
            reveal_strlit("analytics_access");
            reveal_strlit("grant_opportunity");
            assert("supplier_discount"@.len() == 17);
            assert("analytics_access"@.len() == 16);
            assert("grant_opportunity"@.len() == 17);
            assert("supplier_discount"@[0] == 's');
            assert("grant_opportunity"@[0] == 'g');
            assert("supplier_discount"@ != "analytics_access"@);
            assert("supplier_discount"@ != "grant_opportunity"@);
            assert("analytics_access"@ != "grant_opportunity"@);
        }
        let mut catalog = RedemptionCatalog::new();
        let added_discount = catalog.add_option(
            &"supplier_discount".to_owned(),
            100,
            "10% discount on supplier purchases".to_owned(),
        );
        let added_analytics = catalog.add_option(
            &"analytics_access".to_owned(),
            200,
            "Access to advanced analytics dashboard".to_owned(),
        );
        let added_grant = catalog.add_option(
            &"grant_opportunity".to_owned(),
            500,
            "Priority consideration for grant programs".to_owned(),
        );
        proof {
            assert(added_discount == Ok::<(), TokenError>(()));
            assert(added_analytics == Ok::<(), TokenError>(()));
            assert(added_grant == Ok::<(), TokenError>(()));
        }
        FoodBankToken {
            owner,
            ledger: Ledger::new(total_supply),
            log: ContributionLog::new(),
            catalog,
            min_contribution_threshold: 10,
            reward_rate: 5,
        }
    }

    /// Records a contribution on behalf of `food_bank` and mints its
    /// reward: owner-gated, the metrics are validated, the history is
    /// appended, and any positive reward is credited, raising balance and
    /// supply together. A rejection leaves the state untouched.
    pub fn record_contribution(
        &mut self,
        caller: &String,
        food_bank: &String,
        metrics: ContributionMetrics,
    ) -> (r: Result<(), TokenError>)
        requires
            old(self).wf(),
            caller@ == old(self).spec_owner() && metrics_valid(metrics) ==> ({
                let minted = reward::spec_reward(
                    metrics,
                    old(self).spec_threshold(),
                    old(self).spec_rate(),
                );
                &&& old(self).spec_balance(food_bank@) + minted <= u128::MAX
                &&& old(self).spec_supply() + minted <= u128::MAX
            }),
        ensures
            final(self).wf(),
            caller@ != old(self).spec_owner() ==> r == Err::<(), TokenError>(
                TokenError::Unauthorized) && *final(self) == *old(self),
            caller@ == old(self).spec_owner() && !metrics_valid(metrics) ==> r == Err::<
                (),
                TokenError,
            >(TokenError::InvalidMetric) && *final(self) == *old(self),
            caller@ == old(self).spec_owner() && metrics_valid(metrics) ==> ({
                let minted = reward::spec_reward(
                    metrics,
                    old(self).spec_threshold(),
                    old(self).spec_rate(),
                );
                &&& r == Ok::<(), TokenError>(())
                &&& final(self).spec_history(food_bank@) == old(self).spec_history(
                    food_bank@).push(metrics)
                &&& forall|k: Seq<char>| k != food_bank@
                    ==> final(self).spec_history(k) == old(self).spec_history(k)
                &&& final(self).spec_balance(food_bank@) == old(self).spec_balance(food_bank@)
                    + minted
                &&& forall|k: Seq<char>| k != food_bank@
                    ==> final(self).spec_balance(k) == old(self).spec_balance(k)
                &&& final(self).spec_supply() == old(self).spec_supply() + minted
                &&& final(self).spec_sum() == old(self).spec_sum() + minted
                &&& forall|k: Seq<char>|
                    final(self).spec_option(k) == old(self).spec_option(k)
                &&& final(self).spec_owner() == old(self).spec_owner()
                &&& final(self).spec_threshold() == old(self).spec_threshold()
                &&& final(self).spec_rate() == old(self).spec_rate()
            }),
            old(self).conserves() ==> final(self).conserves(),
    {
        match guard::require_owner(caller, &self.owner) {
            Err(e) => {
                return Err(e);
            },
            Ok(()) => {},
        }
        let points = reward::compute(&metrics, self.min_contribution_threshold, self.reward_rate);
        match self.log.record(food_bank, metrics) {
            Err(e) => {
                return Err(e);
            },
            Ok(()) => {},
        }
        if points > 0 {
            self.ledger.credit(food_bank, points);
        }
        Ok(())
    }

    /// The rejection the redemption flow owes in the given state, if any:
    /// the checks run in this order, and the first that fails decides.
    pub open spec fn spec_redeem_error(self, caller: Seq<char>, id: Seq<char>, amount: u128) -> Option<TokenError> {
        match self.spec_option(id) {
            None => Some(TokenError::OptionNotFound),
            Some(o) => if !o.available {
                Some(TokenError::OptionUnavailable)
            } else if amount < o.cost {
                Some(TokenError::InsufficientRedemptionAmount)
            } else if self.spec_balance(caller) < amount {
                Some(TokenError::InsufficientBalance)
            } else if spec_benefit_method(o.name@) is None {
                Some(TokenError::InvalidRedemptionOption)
            } else {
                None
            },
        }
    }

    /// Redeems `amount` of the caller's own points against the option
    /// stored under `option_id`. The full amount, which must cover at
    /// least the option's cost, is burned: balance and supply drop by
    /// `amount` together, and the returned request asks the host to
    /// deliver the benefit. A rejection leaves the state untouched.
    pub fn redeem_tokens(&mut self, caller: &String, option_id: &String, amount: u128) -> (r:
        Result<BenefitRequest, TokenError>)
        requires
            old(self).wf(),
        ensures
            final(self).wf(),
            old(self).spec_redeem_error(caller@, option_id@, amount) is Some ==> r == Err::<
                BenefitRequest,
                TokenError,
            >(old(self).spec_redeem_error(caller@, option_id@, amount)->0) && *final(self) == *old(
                self),
            old(self).spec_redeem_error(caller@, option_id@, amount) is None ==> ({
                let opt = old(self).spec_option(option_id@)->0;
                &&& r is Ok
                &&& r->Ok_0.account@ == caller@
                &&& r->Ok_0.option_name@ == opt.name@
                &&& Some(r->Ok_0.method_name@) == spec_benefit_method(opt.name@)
                &&& final(self).spec_balance(caller@) == old(self).spec_balance(caller@) - amount
                &&& forall|k: Seq<char>| k != caller@
                    ==> final(self).spec_balance(k) == old(self).spec_balance(k)
                &&& final(self).spec_supply() == old(self).spec_supply() - amount
                &&& final(self).spec_sum() == old(self).spec_sum() - amount
                &&& forall|k: Seq<char>|
                    final(self).spec_history(k) == old(self).spec_history(k)
                &&& forall|k: Seq<char>|
                    final(self).spec_option(k) == old(self).spec_option(k)
                &&& final(self).spec_owner() == old(self).spec_owner()
                &&& final(self).spec_threshold() == old(self).spec_threshold()
                &&& final(self).spec_rate() == old(self).spec_rate()
            }),
            old(self).conserves() ==> final(self).conserves(),
    {
        let option = match self.catalog.get(option_id) {
            Ok(o) => o,
            Err(e) => {
                return Err(e);
            },
        };
        if !option.available {
            return Err(TokenError::OptionUnavailable);
        }
        if amount < option.cost {
            return Err(TokenError::InsufficientRedemptionAmount);
        }
        let balance = self.ledger.balance_of(caller);
        if balance < amount {
            return Err(TokenError::InsufficientBalance);
        }
        let method_name = match benefit_method(&option.name) {
            Some(m) => m,
            None => {
                return Err(TokenError::InvalidRedemptionOption);
            },
        };
        let request = BenefitRequest {
            account: caller.clone(),
            option_name: option.name.clone(),
            method_name,
        };
        match self.ledger.debit(caller, amount) {
            Ok(()) => Ok(request),
            Err(_) => {
                // The balance check above covers the debit, so this arm is
                // provably unreachable.
                proof {
                    assert(false);
                }
                Err(TokenError::InsufficientBalance)
            },
        }
    }

    /// Stores a redemption option, overwriting any option with the same
    /// name: owner-gated, the cost must be positive, and the stored option
    /// is available. A rejection leaves the state untouched.
    pub fn add_redemption_option(
        &mut self,
        caller: &String,
        name: &String,
        cost: u128,
        description: String,
    ) -> (r: Result<(), TokenError>)
        requires
            old(self).wf(),
        ensures
            final(self).wf(),
            caller@ != old(self).spec_owner() ==> r == Err::<(), TokenError>(
                TokenError::Unauthorized) && *final(self) == *old(self),
            caller@ == old(self).spec_owner() && cost == 0 ==> r == Err::<(), TokenError>(
                TokenError::InvalidCost) && *final(self) == *old(self),
            caller@ == old(self).spec_owner() && cost >= 1 ==> ({
                &&& r == Ok::<(), TokenError>(())
                &&& (final(self).spec_option(name@) matches Some(o) && o.name@ == name@
                    && o.cost == cost && o.available && o.description == description)
                &&& forall|k: Seq<char>| k != name@
                    ==> final(self).spec_option(k) == old(self).spec_option(k)
                &&& forall|k: Seq<char>|
                    final(self).spec_balance(k) == old(self).spec_balance(k)
                &&& forall|k: Seq<char>|
                    final(self).spec_history(k) == old(self).spec_history(k)
                &&& final(self).spec_supply() == old(self).spec_supply()
                &&& final(self).spec_sum() == old(self).spec_sum()
                &&& final(self).spec_owner() == old(self).spec_owner()
                &&& final(self).spec_threshold() == old(self).spec_threshold()
                &&& final(self).spec_rate() == old(self).spec_rate()
            }),
            old(self).conserves() ==> final(self).conserves(),
    {
        match guard::require_owner(caller, &self.owner) {
            Err(e) => {
                return Err(e);
            },
            Ok(()) => {},
        }
        self.catalog.add_option(name, cost, description)
    }

    /// Flips the availability of the option stored under `option_id`:
    /// owner-gated; the option must exist. A rejection leaves the state
    /// untouched.
    pub fn set_option_availability(
        &mut self,
        caller: &String,
        option_id: &String,
        available: bool,
    ) -> (r: Result<(), TokenError>)
        requires
            old(self).wf(),
        ensures
            final(self).wf(),
            caller@ != old(self).spec_owner() ==> r == Err::<(), TokenError>(
                TokenError::Unauthorized) && *final(self) == *old(self),
            caller@ == old(self).spec_owner() && old(self).spec_option(option_id@) is None ==> r
                == Err::<(), TokenError>(TokenError::OptionNotFound) && *final(self) == *old(self),
            caller@ == old(self).spec_owner() && old(self).spec_option(option_id@) is Some ==> ({
                let o = old(self).spec_option(option_id@)->0;
                &&& r == Ok::<(), TokenError>(())
                &&& final(self).spec_option(option_id@) == Some(
                    RedemptionOption {
                        name: o.name,
                        cost: o.cost,
                        available: available,
                        description: o.description,
                    },
                )
                &&& forall|k: Seq<char>| k != option_id@
                    ==> final(self).spec_option(k) == old(self).spec_option(k)
                &&& forall|k: Seq<char>|
                    final(self).spec_balance(k) == old(self).spec_balance(k)
                &&& forall|k: Seq<char>|
                    final(self).spec_history(k) == old(self).spec_history(k)
                &&& final(self).spec_supply() == old(self).spec_supply()
                &&& final(self).spec_sum() == old(self).spec_sum()
                &&& final(self).spec_owner() == old(self).spec_owner()
                &&& final(self).spec_threshold() == old(self).spec_threshold()
                &&& final(self).spec_rate() == old(self).spec_rate()
            }),
            old(self).conserves() ==> final(self).conserves(),
    {
        match guard::require_owner(caller, &self.owner) {
            Err(e) => {
                return Err(e);
            },
            Ok(()) => {},
        }
        self.catalog.set_availability(option_id, available)
    }

    /// Sets the reward rate: owner-gated; the rate is a percentage.
    pub fn update_reward_rate(&mut self, caller: &String, new_rate: u8) -> (r: Result<
        (),
        TokenError,
    >)
        requires
            old(self).wf(),
            new_rate <= 100,
        ensures
            final(self).wf(),
            caller@ != old(self).spec_owner() ==> r == Err::<(), TokenError>(
                TokenError::Unauthorized) && *final(self) == *old(self),
            caller@ == old(self).spec_owner() ==> ({
                &&& r == Ok::<(), TokenError>(())
                &&& final(self).spec_rate() == new_rate
                &&& final(self).spec_owner() == old(self).spec_owner()
                &&& final(self).spec_threshold() == old(self).spec_threshold()
                &&& final(self).spec_supply() == old(self).spec_supply()
                &&& final(self).spec_sum() == old(self).spec_sum()
                &&& forall|k: Seq<char>|
                    final(self).spec_balance(k) == old(self).spec_balance(k)
                &&& forall|k: Seq<char>|
                    final(self).spec_history(k) == old(self).spec_history(k)
                &&& forall|k: Seq<char>|
                    final(self).spec_option(k) == old(self).spec_option(k)
            }),
            old(self).conserves() ==> final(self).conserves(),
    {
        match guard::require_owner(caller, &self.owner) {
            Err(e) => {
                return Err(e);
            },
            Ok(()) => {},
        }
        self.reward_rate = new_rate;
        Ok(())
    }

    /// The balance held by `account`; zero for an unknown account.
    pub fn get_balance(&self, account: &String) -> (r: u128)
        ensures
            r == self.spec_balance(account@),
    {
        self.ledger.balance_of(account)
    }

    /// The total issued supply.
    pub fn total_supply(&self) -> (r: u128)
        ensures
            r == self.spec_supply(),
    {
        self.ledger.supply()
    }

    /// A copy of `account`'s ordered contribution history.
    pub fn get_contributions(&self, account: &String) -> (r: Vec<ContributionMetrics>)
        ensures
            r@ == self.spec_history(account@),
    {
        self.log.history_of(account)
    }

    /// A snapshot of the redemption catalog: every stored option exactly
    /// once, in no guaranteed order.
    pub fn get_redemption_options(&self) -> (r: Vec<(String, RedemptionOption)>)
        requires
            self.wf(),
        ensures
            forall|i: int| 0 <= i < r@.len()
                ==> self.spec_option((#[trigger] r@[i]).0@) == Some(r@[i].1),
            forall|i: int, j: int| 0 <= i < j < r@.len() ==> r@[i].0@ != r@[j].0@,
            forall|k: Seq<char>| self.spec_option(k) is Some
                ==> exists|i: int| 0 <= i < r@.len() && (#[trigger] r@[i]).0@ == k
                    && Some(r@[i].1) == self.spec_option(k),
    {
        self.catalog.list()
    }
}

} // verus!
