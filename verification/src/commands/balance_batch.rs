//! A batch of balance queries, one query at a time: the batch says which
//! query to make next, the caller makes it and records how it ended.

use crate::blockchain::types::config_views;
use crate::blockchain::types::default_chain_config_views;
use crate::blockchain::types::default_chain_configs;
use crate::blockchain::types::AccountBalance;
use crate::blockchain::types::AccountBalanceView;
use crate::blockchain::types::BalanceReport;
use crate::blockchain::types::BalanceReportView;
use crate::blockchain::types::ChainConfig;
use crate::blockchain::types::ChainConfigView;
use crate::blockchain::types::QueryError;
use crate::commands::blockchain::plan_query;
use crate::commands::blockchain::planned_query;
use crate::commands::blockchain::query_balances;
use crate::commands::blockchain::query_kept;
use crate::commands::blockchain::query_views;
use crate::commands::blockchain::report_accounts;
use crate::commands::blockchain::AddressQuery;
use crate::commands::blockchain::AddressQueryView;
use crate::commands::blockchain::ChainFamily;
use vstd::prelude::*;

verus! {

/// How the queries made so far ended, one place for each query from the
/// first on: `None` for a query for which nothing was to be done.
#[derive(Debug)]
pub struct BalanceBatch {
    pub outcomes: Vec<Option<Result<AccountBalance, QueryError>>>,
}

/// What to do next.
#[derive(Debug)]
pub enum BatchAction {
    /// Make the query at place `index`, on `family`, with `config`.
    Query { index: usize, family: ChainFamily, config: ChainConfig },
    /// Every query has been made: read the clock and ask for the report.
    Assemble,
}

/// What a `BatchAction` holds, as mathematical values.
pub enum BatchActionView {
    Query { index: usize, family: ChainFamily, config: ChainConfigView },
    Assemble,
}

impl View for BatchAction {
    type V = BatchActionView;

    open spec fn view(&self) -> BatchActionView {
        match self {
            BatchAction::Query { index, family, config } => BatchActionView::Query {
                index: *index,
                family: *family,
                config: config@,
            },
            BatchAction::Assemble => BatchActionView::Assemble,
        }
    }
}

/// The outcomes with `None` recorded for each query, from the next one on,
/// for which nothing is to be done.
pub open spec fn without_unplanned(
    addresses: Seq<AddressQueryView>,
    supplied: Seq<ChainConfigView>,
    outcomes: Seq<Option<Result<AccountBalance, QueryError>>>,
) -> Seq<Option<Result<AccountBalance, QueryError>>>
    decreases addresses.len() - outcomes.len(),
{
    if outcomes.len() < addresses.len() && planned_query(addresses[outcomes.len() as int], supplied)
        is None {
        without_unplanned(addresses, supplied, outcomes.push(None))
    } else {
        outcomes
    }
}

/// What a batch does next: the queries are made in their order, one at a
/// time, whatever the earlier ones brought; after the last one the report
/// is due.
pub open spec fn next_batch_action(
    addresses: Seq<AddressQueryView>,
    supplied: Seq<ChainConfigView>,
    outcomes: Seq<Option<Result<AccountBalance, QueryError>>>,
) -> BatchActionView {
    let known = without_unplanned(addresses, supplied, outcomes);
    if known.len() < addresses.len() {
        match planned_query(addresses[known.len() as int], supplied) {
            Some((family, config)) => BatchActionView::Query {
                index: known.len() as usize,
                family,
                config,
            },
            None => BatchActionView::Assemble,
        }
    } else {
        BatchActionView::Assemble
    }
}

/// The account that the outcome at place `i` brought, if it brought one.
pub open spec fn account_at(outcomes: Seq<Option<Result<AccountBalance, QueryError>>>, i: int)
    -> Option<AccountBalanceView> {
    if 0 <= i < outcomes.len() {
        match outcomes[i] {
            Some(Ok(account)) => Some(account@),
            _ => None,
        }
    } else {
        None
    }
}

/// Whether two records hold the same accounts for the first `n` queries,
/// as far as those were to be made.
pub open spec fn outcomes_agree(
    addresses: Seq<AddressQueryView>,
    supplied: Seq<ChainConfigView>,
    a: Seq<Option<Result<AccountBalance, QueryError>>>,
    b: Seq<Option<Result<AccountBalance, QueryError>>>,
    n: nat,
) -> bool {
    forall|i: int|
        0 <= i < n && planned_query(addresses[i], supplied) is Some ==> #[trigger] account_at(a, i)
            == account_at(b, i)
}

/// Records that agree give the same report.
pub proof fn lemma_agreeing_outcomes(
    addresses: Seq<AddressQueryView>,
    supplied: Seq<ChainConfigView>,
    a: Seq<Option<Result<AccountBalance, QueryError>>>,
    b: Seq<Option<Result<AccountBalance, QueryError>>>,
    n: nat,
)
    requires
        n <= addresses.len(),
        outcomes_agree(addresses, supplied, a, b, n),
    ensures
        report_accounts(addresses, supplied, a, n) == report_accounts(addresses, supplied, b, n),
    decreases n,
{
    if n > 0 {
        lemma_agreeing_outcomes(addresses, supplied, a, b, (n - 1) as nat);
        if planned_query(addresses[n - 1], supplied) is Some {
            assert(account_at(a, n - 1) == account_at(b, n - 1));
        }
    }
}

/// Passing over queries for which nothing is to be done adds `None` only,
/// and stops at the first query that is to be made.
pub proof fn lemma_without_unplanned(
    addresses: Seq<AddressQueryView>,
    supplied: Seq<ChainConfigView>,
    outcomes: Seq<Option<Result<AccountBalance, QueryError>>>,
)
    ensures
        without_unplanned(addresses, supplied, outcomes).len() >= outcomes.len(),
        outcomes.len() <= addresses.len() ==> without_unplanned(
            addresses,
            supplied,
            outcomes,
        ).len() <= addresses.len(),
        without_unplanned(addresses, supplied, outcomes).subrange(0, outcomes.len() as int)
            == outcomes,
        forall|i: int|
            outcomes.len() <= i < without_unplanned(addresses, supplied, outcomes).len()
                ==> planned_query(addresses[i], supplied) is None && (#[trigger] without_unplanned(
                addresses,
                supplied,
                outcomes,
            )[i]) is None,
        without_unplanned(addresses, supplied, outcomes).len() < addresses.len() ==> planned_query(
            addresses[without_unplanned(addresses, supplied, outcomes).len() as int],
            supplied,
        ) is Some,
    decreases addresses.len() - outcomes.len(),
{
    if outcomes.len() < addresses.len() && planned_query(addresses[outcomes.len() as int], supplied)
        is None {
        let next = outcomes.push(None);
        lemma_without_unplanned(addresses, supplied, next);
        let all = without_unplanned(addresses, supplied, outcomes);
        assert(all == without_unplanned(addresses, supplied, next));
        assert(all.subrange(0, outcomes.len() as int) =~= next.subrange(0, outcomes.len() as int));
        assert(next.subrange(0, outcomes.len() as int) =~= outcomes);
        assert(all.subrange(0, next.len() as int)[outcomes.len() as int] == next[outcomes.len() as int]);
    } else {
        assert(outcomes.subrange(0, outcomes.len() as int) =~= outcomes);
    }
}

impl BalanceBatch {
    /// A batch of which no query has been made yet.
    pub fn new() -> (r: BalanceBatch)
        ensures
            r.outcomes@.len() == 0,
    {
        BalanceBatch { outcomes: Vec::new() }
    }

    /// Records how the query that was asked for ended.
    pub fn record_outcome(&mut self, outcome: Result<AccountBalance, QueryError>)
        ensures
            final(self).outcomes@ == old(self).outcomes@.push(Some(outcome)),
    {
        self.outcomes.push(Some(outcome));
    }

    /// What to do next for the batch of `addresses`.
    pub fn step(&mut self, addresses: &Vec<AddressQuery>, chains_config: &Vec<ChainConfig>) -> (action:
        BatchAction)
        ensures
            final(self).outcomes@ == without_unplanned(
                query_views(addresses@),
                config_views(chains_config@),
                old(self).outcomes@,
            ),
            action@ == next_batch_action(
                query_views(addresses@),
                config_views(chains_config@),
                old(self).outcomes@,
            ),
    {
        let defaults = default_chain_configs();
        let ghost views = query_views(addresses@);
        let ghost supplied = config_views(chains_config@);
        while self.outcomes.len() < addresses.len()
            invariant
                views == query_views(addresses@),
                supplied == config_views(chains_config@),
                config_views(defaults@) == default_chain_config_views(),
                without_unplanned(views, supplied, self.outcomes@) == without_unplanned(
                    views,
                    supplied,
                    old(self).outcomes@,
                ),
            decreases addresses@.len() - self.outcomes@.len(),
        {
            let index = self.outcomes.len();
            assert(views[index as int] == addresses@[index as int]@);
            match plan_query(&addresses[index], chains_config, &defaults) {
                Some(planned) => {
                    return BatchAction::Query {
                        index,
                        family: planned.family,
                        config: planned.config,
                    };
                },
                None => {
                    self.outcomes.push(None);
                },
            }
        }
        BatchAction::Assemble
    }

    /// The report on the batch, put together at the time `timestamp`.
    pub fn report(
        &self,
        addresses: &Vec<AddressQuery>,
        chains_config: &Vec<ChainConfig>,
        timestamp: u64,
    ) -> (r: BalanceReport)
        ensures
            r@ == (BalanceReportView {
                accounts: report_accounts(
                    query_views(addresses@),
                    config_views(chains_config@),
                    self.outcomes@,
                    addresses@.len(),
                ),
                total_usd_value: None,
                timestamp,
            }),
    {
        query_balances(addresses, chains_config, &self.outcomes, timestamp)
    }
}

/// A copy of how a query ended.
fn copy_outcome(outcome: &Result<AccountBalance, QueryError>) -> (r: Result<
    AccountBalance,
    QueryError,
>)
    ensures
        match *outcome {
            Ok(account) => r is Ok && r->Ok_0@ == account@,
            Err(e) => r == Err::<AccountBalance, QueryError>(e),
        },
{
    match outcome {
        Ok(account) => Ok(account.clone()),
        Err(e) => Err(*e),
    }
}

/// Runs a batch to its end on outcomes that are known beforehand, by the
/// place of the query; a query without a known outcome counts as failed.
/// Whatever the outcomes, every query that is to be made is asked for once,
/// in order, and the report is that of `query_balances` on the same
/// outcomes.
pub fn run_balance_batch(
    addresses: &Vec<AddressQuery>,
    chains_config: &Vec<ChainConfig>,
    outcomes: &Vec<Option<Result<AccountBalance, QueryError>>>,
    timestamp: u64,
) -> (r: BalanceReport)
    ensures
        r@ == (BalanceReportView {
            accounts: report_accounts(
                query_views(addresses@),
                config_views(chains_config@),
                outcomes@,
                addresses@.len(),
            ),
            total_usd_value: None,
            timestamp,
        }),
{
    let ghost views = query_views(addresses@);
    let ghost supplied = config_views(chains_config@);
    let mut batch = BalanceBatch::new();
    loop
        invariant
            views == query_views(addresses@),
            supplied == config_views(chains_config@),
            batch.outcomes@.len() <= addresses@.len(),
            outcomes_agree(views, supplied, batch.outcomes@, outcomes@, batch.outcomes@.len()),
        decreases addresses@.len() - batch.outcomes@.len(),
    {
        let ghost before = batch.outcomes@;
        proof {
            lemma_without_unplanned(views, supplied, before);
        }
        let action = batch.step(addresses, chains_config);
        let ghost known = batch.outcomes@;
        assert(known.subrange(0, before.len() as int) == before);
        match action {
            BatchAction::Query { index, family, config } => {
                let count = addresses.len();
                assert(known.len() <= count);
                assert(index == known.len());
                let outcome = if index < outcomes.len() {
                    match &outcomes[index] {
                        Some(known_outcome) => copy_outcome(known_outcome),
                        None => Err(QueryError::EndpointError),
                    }
                } else {
                    Err(QueryError::EndpointError)
                };
                batch.record_outcome(outcome);
                assert forall|i: int|
                    0 <= i < batch.outcomes@.len() && planned_query(views[i], supplied)
                        is Some implies #[trigger] account_at(batch.outcomes@, i) == account_at(
                    outcomes@,
                    i,
                ) by {
                    if i < before.len() {
                        assert(known.subrange(0, before.len() as int)[i] == known[i]);
                        assert(account_at(before, i) == account_at(outcomes@, i));
                    } else if i < known.len() {
                        assert(known[i] is None);
                    } else {
                        assert(batch.outcomes@[i] == Some(outcome));
                    }
                }
            },
            BatchAction::Assemble => {
                proof {
                    assert(known.len() == addresses@.len());
                    assert forall|i: int|
                        0 <= i < views.len() && planned_query(views[i], supplied)
                            is Some implies #[trigger] account_at(known, i) == account_at(
                        outcomes@,
                        i,
                    ) by {
                        if i < before.len() {
                            assert(known.subrange(0, before.len() as int)[i] == known[i]);
                            assert(account_at(before, i) == account_at(outcomes@, i));
                        } else {
                            assert(known[i] is None);
                        }
                    }
                    lemma_agreeing_outcomes(views, supplied, known, outcomes@, views.len());
                }
                return batch.report(addresses, chains_config, timestamp);
            },
        }
    }
}

} // verus!
