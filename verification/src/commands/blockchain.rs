//! Deriving the accounts of several chain families from one mnemonic, and
//! collecting the balances of a batch of addresses into a report.

use crate::blockchain::types::AccountBalance;
use crate::blockchain::types::AccountBalanceView;
use crate::blockchain::types::BalanceReport;
use crate::blockchain::types::BalanceReportView;
use crate::blockchain::types::ChainConfig;
use crate::blockchain::types::ChainConfigView;
use crate::blockchain::types::QueryError;
use crate::blockchain::types::account_views;
use crate::blockchain::types::config_views;
use crate::blockchain::types::default_chain_config_views;
use crate::blockchain::types::default_chain_configs;
use crate::crypto::bitcoin::bitcoin_account;
use crate::crypto::bitcoin::derive_bitcoin_accounts;
use crate::crypto::evm::derive_evm_accounts;
use crate::crypto::evm::evm_account;
use crate::crypto::solana::derive_solana_accounts;
use crate::crypto::solana::solana_account;
use crate::crypto::types::DeriveError;
use crate::crypto::types::DerivedAccount;
use crate::crypto::types::DerivedAccountView;
use crate::crypto::types::MultiChainAccounts;
use crate::crypto::types::MultiChainAccountsView;
use crate::crypto::types::SecureSeed;
use crate::crypto::types::bip39_seed;
use crate::crypto::types::derived_accounts;
use crate::crypto::types::derived_result_view;
use crate::crypto::types::derived_views;
use crate::crypto::types::mnemonic_to_seed;
use crate::text::str_eq;
use crate::text::texts;
use vstd::prelude::*;

verus! {

/// The chain families that the library knows.
#[derive(Clone, Copy, Debug, PartialEq, Eq, Structural)]
pub enum ChainFamily {
    Evm,
    Solana,
    Bitcoin,
}

/// The family that a tag names.
pub open spec fn family_of(tag: Seq<char>) -> Option<ChainFamily> {
    if tag == "evm"@ {
        Some(ChainFamily::Evm)
    } else if tag == "solana"@ {
        Some(ChainFamily::Solana)
    } else if tag == "bitcoin"@ {
        Some(ChainFamily::Bitcoin)
    } else {
        None
    }
}

/// The family that `tag` names: `"evm"`, `"solana"` or `"bitcoin"`.
pub fn chain_family(tag: &str) -> (r: Option<ChainFamily>)
    ensures
        r == family_of(tag@),
{
    if str_eq(tag, "evm") {
        Some(ChainFamily::Evm)
    } else if str_eq(tag, "solana") {
        Some(ChainFamily::Solana)
    } else if str_eq(tag, "bitcoin") {
        Some(ChainFamily::Bitcoin)
    } else {
        None
    }
}

/// An address and the chain family on which to look it up.
#[derive(Debug)]
pub struct AddressQuery {
    pub address: String,
    pub chain_type: String,
}

/// What an `AddressQuery` holds, as mathematical values.
pub struct AddressQueryView {
    pub address: Seq<char>,
    pub chain_type: Seq<char>,
}

impl View for AddressQuery {
    type V = AddressQueryView;

    open spec fn view(&self) -> AddressQueryView {
        AddressQueryView { address: self.address@, chain_type: self.chain_type@ }
    }
}

/// The views of a list of queries.
pub open spec fn query_views(queries: Seq<AddressQuery>) -> Seq<AddressQueryView> {
    queries.map_values(|q: AddressQuery| q@)
}

/// The first configuration of `configs` whose chain family tag is `chain_type`.
pub open spec fn first_of_type(configs: Seq<ChainConfigView>, chain_type: Seq<char>) -> Option<
    ChainConfigView,
>
    decreases configs.len(),
{
    if configs.len() == 0 {
        None
    } else if configs[0].chain_type == chain_type {
        Some(configs[0])
    } else {
        first_of_type(configs.drop_first(), chain_type)
    }
}

/// The configuration that serves a chain family tag: the caller's first one
/// for it, else the built-in one.
pub open spec fn resolved_config(
    chain_type: Seq<char>,
    supplied: Seq<ChainConfigView>,
    defaults: Seq<ChainConfigView>,
) -> Option<ChainConfigView> {
    match first_of_type(supplied, chain_type) {
        Some(c) => Some(c),
        None => first_of_type(defaults, chain_type),
    }
}

/// The first configuration of `configs` for `chain_type`.
pub fn find_config<'a>(configs: &'a Vec<ChainConfig>, chain_type: &str) -> (r: Option<
    &'a ChainConfig,
>)
    ensures
        r is Some <==> first_of_type(config_views(configs@), chain_type@) is Some,
        r matches Some(c) ==> first_of_type(config_views(configs@), chain_type@) == Some(c@),
{
    let ghost views = config_views(configs@);
    let mut i: usize = 0;
    assert(views.skip(0) == views);
    while i < configs.len()
        invariant
            i <= configs@.len(),
            views == config_views(configs@),
            first_of_type(views, chain_type@) == first_of_type(views.skip(i as int), chain_type@),
        decreases configs@.len() - i,
    {
        let config = &configs[i];
        assert(views.skip(i as int)[0] == config@);
        if str_eq(config.chain_type.as_str(), chain_type) {
            return Some(config);
        }
        assert(views.skip(i as int).drop_first() == views.skip(i + 1));
        i += 1;
    }
    None
}

/// The configuration that serves `chain_type`.
pub fn resolve_config<'a>(
    chain_type: &str,
    supplied: &'a Vec<ChainConfig>,
    defaults: &'a Vec<ChainConfig>,
) -> (r: Option<&'a ChainConfig>)
    ensures
        r is Some <==> resolved_config(
            chain_type@,
            config_views(supplied@),
            config_views(defaults@),
        ) is Some,
        r matches Some(c) ==> resolved_config(
            chain_type@,
            config_views(supplied@),
            config_views(defaults@),
        ) == Some(c@),
{
    match find_config(supplied, chain_type) {
        Some(c) => Some(c),
        None => find_config(defaults, chain_type),
    }
}

/// A query that is to be made: on which family, with which configuration.
#[derive(Debug)]
pub struct PlannedQuery {
    pub family: ChainFamily,
    pub config: ChainConfig,
}

/// Family and configuration of a planned query.
pub open spec fn plan_view(p: Option<PlannedQuery>) -> Option<(ChainFamily, ChainConfigView)> {
    match p {
        Some(q) => Some((q.family, q.config@)),
        None => None,
    }
}

/// What is to be done for one query: nothing where no configuration serves
/// its tag or the tag names no family.
pub open spec fn planned_query(query: AddressQueryView, supplied: Seq<ChainConfigView>) -> Option<
    (ChainFamily, ChainConfigView),
> {
    match resolved_config(query.chain_type, supplied, default_chain_config_views()) {
        None => None,
        Some(config) => match family_of(query.chain_type) {
            Some(family) => Some((family, config)),
            None => None,
        },
    }
}

/// What is to be done for `query`; `defaults` are the built-in configurations.
pub(crate) fn plan_query(query: &AddressQuery, chains_config: &Vec<ChainConfig>, defaults: &Vec<
    ChainConfig,
>) -> (r: Option<PlannedQuery>)
    requires
        config_views(defaults@) == default_chain_config_views(),
    ensures
        plan_view(r) == planned_query(query@, config_views(chains_config@)),
{
    match resolve_config(query.chain_type.as_str(), chains_config, defaults) {
        None => None,
        Some(config) => match chain_family(query.chain_type.as_str()) {
            Some(family) => Some(PlannedQuery { family, config: config.clone() }),
            None => None,
        },
    }
}

/// The queries to make for `addresses`, one place for each, in their order.
pub fn plan_balance_queries(addresses: &Vec<AddressQuery>, chains_config: &Vec<ChainConfig>) -> (plan:
    Vec<Option<PlannedQuery>>)
    ensures
        plan@.len() == addresses@.len(),
        forall|i: int|
            0 <= i < addresses@.len() ==> plan_view(#[trigger] plan@[i]) == planned_query(
                addresses@[i]@,
                config_views(chains_config@),
            ),
{
    let defaults = default_chain_configs();
    let mut plan: Vec<Option<PlannedQuery>> = Vec::new();
    let mut i: usize = 0;
    while i < addresses.len()
        invariant
            i <= addresses@.len(),
            plan@.len() == i,
            config_views(defaults@) == default_chain_config_views(),
            forall|j: int|
                0 <= j < i ==> plan_view(#[trigger] plan@[j]) == planned_query(
                    addresses@[j]@,
                    config_views(chains_config@),
                ),
        decreases addresses@.len() - i,
    {
        let entry = plan_query(&addresses[i], chains_config, &defaults);
        plan.push(entry);
        i += 1;
    }
    plan
}

/// Whether query number `i` contributes an account: it was to be made and
/// its outcome is a balance.
pub open spec fn query_kept(
    addresses: Seq<AddressQueryView>,
    supplied: Seq<ChainConfigView>,
    outcomes: Seq<Option<Result<AccountBalance, QueryError>>>,
    i: int,
) -> bool {
    &&& 0 <= i < addresses.len()
    &&& i < outcomes.len()
    &&& planned_query(addresses[i], supplied) is Some
    &&& outcomes[i] matches Some(Ok(_))
}

/// The accounts that the first `n` queries contribute, in their order.
pub open spec fn report_accounts(
    addresses: Seq<AddressQueryView>,
    supplied: Seq<ChainConfigView>,
    outcomes: Seq<Option<Result<AccountBalance, QueryError>>>,
    n: nat,
) -> Seq<AccountBalanceView>
    decreases n,
{
    if n == 0 {
        Seq::empty()
    } else {
        let before = report_accounts(addresses, supplied, outcomes, (n - 1) as nat);
        if query_kept(addresses, supplied, outcomes, n - 1) {
            before.push(outcomes[n - 1]->0->Ok_0@)
        } else {
            before
        }
    }
}

/// A report holds no more accounts than there were queries.
pub proof fn lemma_report_accounts_len(
    addresses: Seq<AddressQueryView>,
    supplied: Seq<ChainConfigView>,
    outcomes: Seq<Option<Result<AccountBalance, QueryError>>>,
    n: nat,
)
    ensures
        report_accounts(addresses, supplied, outcomes, n).len() <= n,
    decreases n,
{
    if n > 0 {
        lemma_report_accounts_len(addresses, supplied, outcomes, (n - 1) as nat);
    }
}

/// A query that no configuration serves, or that failed, adds nothing to
/// the report and takes nothing from it.
pub proof fn lemma_skipped_query_adds_nothing(
    addresses: Seq<AddressQueryView>,
    supplied: Seq<ChainConfigView>,
    outcomes: Seq<Option<Result<AccountBalance, QueryError>>>,
    i: int,
)
    requires
        0 <= i < addresses.len(),
        planned_query(addresses[i], supplied) is None || i >= outcomes.len() || !(
        outcomes[i] matches Some(Ok(_))),
    ensures
        report_accounts(addresses, supplied, outcomes, (i + 1) as nat) == report_accounts(
            addresses,
            supplied,
            outcomes,
            i as nat,
        ),
{
}

/// A query that was to be made and brought a balance adds exactly that
/// account at the end of what came before it.
pub proof fn lemma_answered_query_adds_its_account(
    addresses: Seq<AddressQueryView>,
    supplied: Seq<ChainConfigView>,
    outcomes: Seq<Option<Result<AccountBalance, QueryError>>>,
    i: int,
)
    requires
        query_kept(addresses, supplied, outcomes, i),
    ensures
        report_accounts(addresses, supplied, outcomes, (i + 1) as nat) == report_accounts(
            addresses,
            supplied,
            outcomes,
            i as nat,
        ).push(outcomes[i]->0->Ok_0@),
{
}

/// The report on a batch of queries.
///
/// `outcomes` holds, at the place of each query, how it ended: `None` where
/// it was not made. A query that failed, or for which nothing was to be
/// done, is left out; none of them fails the batch. `timestamp` is the time
/// of assembly in seconds since the epoch.
pub fn query_balances(
    addresses: &Vec<AddressQuery>,
    chains_config: &Vec<ChainConfig>,
    outcomes: &Vec<Option<Result<AccountBalance, QueryError>>>,
    timestamp: u64,
) -> (r: BalanceReport)
    ensures
        r@ == (BalanceReportView {
            accounts: report_accounts(
                query_views(addresses@),
                config_views(chains_config@),
                outcomes@,
                addresses@.len(),
            ),
            total_usd_value: None,
            timestamp,
        }),
{
    let plan = plan_balance_queries(addresses, chains_config);
    let mut accounts: Vec<AccountBalance> = Vec::new();
    let mut i: usize = 0;
    while i < addresses.len()
        invariant
            i <= addresses@.len(),
            plan@.len() == addresses@.len(),
            forall|j: int|
                0 <= j < addresses@.len() ==> plan_view(#[trigger] plan@[j]) == planned_query(
                    addresses@[j]@,
                    config_views(chains_config@),
                ),
            account_views(accounts@) == report_accounts(
                query_views(addresses@),
                config_views(chains_config@),
                outcomes@,
                i as nat,
            ),
        decreases addresses@.len() - i,
    {
        let ghost before = accounts@;
        assert(query_views(addresses@)[i as int] == addresses@[i as int]@);
        assert(plan_view(plan@[i as int]) is Some <==> plan@[i as int] is Some);
        if plan[i].is_some() && i < outcomes.len() {
            match &outcomes[i] {
                Some(Ok(account)) => {
                    let kept = account.clone();
                    accounts.push(kept);
                    assert(account_views(accounts@) =~= account_views(before).push(kept@));
                },
                _ => {},
            }
        }
        i += 1;
    }
    BalanceReport { accounts, total_usd_value: None, timestamp }
}

/// The built-in chain configurations.
pub fn get_default_chain_configs() -> (r: Vec<ChainConfig>)
    ensures
        config_views(r@) == default_chain_config_views(),
{
    default_chain_configs()
}

/// The accounts `0..count` of one family below `seed`.
pub open spec fn family_accounts(family: ChainFamily, seed: Seq<u8>, count: nat) -> Result<
    Seq<DerivedAccountView>,
    DeriveError,
> {
    match family {
        ChainFamily::Evm => derived_accounts(evm_account(seed), count),
        ChainFamily::Solana => derived_accounts(solana_account(seed), count),
        ChainFamily::Bitcoin => derived_accounts(bitcoin_account(seed), count),
    }
}

/// The accounts of each family, as far as they have been derived.
pub struct FamilyAccounts {
    pub evm: Seq<DerivedAccountView>,
    pub solana: Seq<DerivedAccountView>,
    pub bitcoin: Seq<DerivedAccountView>,
}

/// `so_far` with the accounts of `family` set to `accounts`.
pub open spec fn with_family(
    so_far: FamilyAccounts,
    family: ChainFamily,
    accounts: Seq<DerivedAccountView>,
) -> FamilyAccounts {
    match family {
        ChainFamily::Evm => FamilyAccounts { evm: accounts, ..so_far },
        ChainFamily::Solana => FamilyAccounts { solana: accounts, ..so_far },
        ChainFamily::Bitcoin => FamilyAccounts { bitcoin: accounts, ..so_far },
    }
}

/// The accounts after the first `n` requested families, taken in order: the
/// first tag that names no family, or the first family that fails, fails it
/// all.
pub open spec fn accounts_after(seed: Seq<u8>, chains: Seq<Seq<char>>, count: nat, n: nat)
    -> Result<FamilyAccounts, DeriveError>
    decreases n,
{
    if n == 0 {
        Ok(FamilyAccounts { evm: Seq::empty(), solana: Seq::empty(), bitcoin: Seq::empty() })
    } else {
        match accounts_after(seed, chains, count, (n - 1) as nat) {
            Err(e) => Err(e),
            Ok(so_far) => match family_of(chains[n - 1]) {
                None => Err(DeriveError::UnsupportedChain),
                Some(family) => match family_accounts(family, seed, count) {
                    Err(e) => Err(e),
                    Ok(accounts) => Ok(with_family(so_far, family, accounts)),
                },
            },
        }
    }
}

/// What deriving from a seed returns: everything that was asked for, or an
/// error and nothing.
pub open spec fn seed_accounts_result(
    seed: Seq<u8>,
    vault: Seq<char>,
    item: Seq<char>,
    chains: Seq<Seq<char>>,
    count: nat,
) -> Result<MultiChainAccountsView, DeriveError> {
    match accounts_after(seed, chains, count, chains.len()) {
        Err(e) => Err(e),
        Ok(all) => Ok(
            MultiChainAccountsView {
                evm: all.evm,
                solana: all.solana,
                bitcoin: all.bitcoin,
                source_vault: vault,
                source_item: item,
            },
        ),
    }
}

/// What deriving from a mnemonic returns.
pub open spec fn derive_accounts_result(
    mnemonic: Seq<char>,
    vault: Seq<char>,
    item: Seq<char>,
    chains: Seq<Seq<char>>,
    count: nat,
) -> Result<MultiChainAccountsView, DeriveError> {
    match bip39_seed(mnemonic) {
        None => Err(DeriveError::InvalidMnemonic),
        Some(seed) => seed_accounts_result(seed, vault, item, chains, count),
    }
}

/// The view of a derivation's result.
pub open spec fn accounts_result_view(r: Result<MultiChainAccounts, DeriveError>) -> Result<
    MultiChainAccountsView,
    DeriveError,
> {
    match r {
        Ok(accounts) => Ok(accounts@),
        Err(e) => Err(e),
    }
}

/// A failure among the first `failed` families is the failure of them all.
pub proof fn lemma_accounts_after_error(
    seed: Seq<u8>,
    chains: Seq<Seq<char>>,
    count: nat,
    failed: nat,
    n: nat,
)
    requires
        failed <= n,
        accounts_after(seed, chains, count, failed) is Err,
    ensures
        accounts_after(seed, chains, count, n) == accounts_after(seed, chains, count, failed),
    decreases n,
{
    if failed < n {
        lemma_accounts_after_error(seed, chains, count, failed, (n - 1) as nat);
    }
}

/// The accounts `0..count` of `family` below `seed`.
pub fn derive_family_accounts(family: ChainFamily, seed: &SecureSeed, count: u32) -> (r: Result<
    Vec<DerivedAccount>,
    DeriveError,
>)
    ensures
        derived_result_view(r) == family_accounts(family, seed@, count as nat),
{
    match family {
        ChainFamily::Evm => derive_evm_accounts(seed, count),
        ChainFamily::Solana => derive_solana_accounts(seed, count),
        ChainFamily::Bitcoin => derive_bitcoin_accounts(seed, count),
    }
}

/// The accounts of the requested chain families below `seed`, `count` of
/// each. `vault` and `item` say where the mnemonic came from and are handed
/// on as they are.
pub fn derive_accounts_from_seed(
    seed: &SecureSeed,
    vault: String,
    item: String,
    chains: &Vec<String>,
    count: u32,
) -> (r: Result<MultiChainAccounts, DeriveError>)
    ensures
        accounts_result_view(r) == seed_accounts_result(
            seed@,
            vault@,
            item@,
            texts(chains@),
            count as nat,
        ),
{
    let mut evm: Vec<DerivedAccount> = Vec::new();
    let mut solana: Vec<DerivedAccount> = Vec::new();
    let mut bitcoin: Vec<DerivedAccount> = Vec::new();
    assert(derived_views(evm@) =~= Seq::empty());
    assert(derived_views(solana@) =~= Seq::empty());
    assert(derived_views(bitcoin@) =~= Seq::empty());
    let mut i: usize = 0;
    while i < chains.len()
        invariant
            i <= chains@.len(),
            accounts_after(seed@, texts(chains@), count as nat, i as nat) == Ok::<
                FamilyAccounts,
                DeriveError,
            >(
                FamilyAccounts {
                    evm: derived_views(evm@),
                    solana: derived_views(solana@),
                    bitcoin: derived_views(bitcoin@),
                },
            ),
        decreases chains@.len() - i,
    {
        assert(texts(chains@)[i as int] == chains@[i as int]@);
        let family = match chain_family(chains[i].as_str()) {
            Some(family) => family,
            None => {
                proof {
                    lemma_accounts_after_error(
                        seed@,
                        texts(chains@),
                        count as nat,
                        (i + 1) as nat,
                        chains@.len(),
                    );
                }
                return Err(DeriveError::UnsupportedChain);
            },
        };
        let accounts = match derive_family_accounts(family, seed, count) {
            Ok(accounts) => accounts,
            Err(e) => {
                proof {
                    lemma_accounts_after_error(
                        seed@,
                        texts(chains@),
                        count as nat,
                        (i + 1) as nat,
                        chains@.len(),
                    );
                }
                return Err(e);
            },
        };
        match family {
            ChainFamily::Evm => {
                evm = accounts;
            },
            ChainFamily::Solana => {
                solana = accounts;
            },
            ChainFamily::Bitcoin => {
                bitcoin = accounts;
            },
        }
        i += 1;
    }
    Ok(MultiChainAccounts { evm, solana, bitcoin, source_vault: vault, source_item: item })
}

/// The accounts of the requested chain families for a mnemonic, `count` of
/// each: all of them, or an error and no account at all.
pub fn derive_accounts(
    mnemonic: &str,
    vault: String,
    item: String,
    chains: &Vec<String>,
    count: u32,
) -> (r: Result<MultiChainAccounts, DeriveError>)
    ensures
        accounts_result_view(r) == derive_accounts_result(
            mnemonic@,
            vault@,
            item@,
            texts(chains@),
            count as nat,
        ),
{
    match mnemonic_to_seed(mnemonic) {
        Ok(seed) => derive_accounts_from_seed(&seed, vault, item, chains, count),
        Err(e) => Err(e),
    }
}

/// Derivation is a function of the mnemonic, the families and the count:
/// two runs on the same input return the same addresses and paths, or the
/// same error.
pub proof fn lemma_derivation_deterministic(
    first: Result<MultiChainAccounts, DeriveError>,
    second: Result<MultiChainAccounts, DeriveError>,
    mnemonic: Seq<char>,
    vault: Seq<char>,
    item: Seq<char>,
    chains: Seq<Seq<char>>,
    count: nat,
)
    requires
        accounts_result_view(first) == derive_accounts_result(mnemonic, vault, item, chains, count),
        accounts_result_view(second) == derive_accounts_result(
            mnemonic,
            vault,
            item,
            chains,
            count,
        ),
    ensures
        accounts_result_view(first) == accounts_result_view(second),
{
}

/// The accounts of one family are a function of the seed's bytes and the
/// count: two seeds made from the same mnemonic give the same accounts.
pub proof fn lemma_family_deterministic(
    family: ChainFamily,
    mnemonic: Seq<char>,
    first_seed: Seq<u8>,
    second_seed: Seq<u8>,
    count: nat,
    first: Result<Vec<DerivedAccount>, DeriveError>,
    second: Result<Vec<DerivedAccount>, DeriveError>,
)
    requires
        bip39_seed(mnemonic) == Some(first_seed),
        bip39_seed(mnemonic) == Some(second_seed),
        derived_result_view(first) == family_accounts(family, first_seed, count),
        derived_result_view(second) == family_accounts(family, second_seed, count),
    ensures
        derived_result_view(first) == derived_result_view(second),
{
}

/// A tag that names no chain family fails the whole derivation: no account
/// of any family is returned.
pub proof fn lemma_unsupported_chain_fails(
    mnemonic: Seq<char>,
    vault: Seq<char>,
    item: Seq<char>,
    chains: Seq<Seq<char>>,
    count: nat,
    i: int,
)
    requires
        0 <= i < chains.len(),
        family_of(chains[i]) is None,
    ensures
        derive_accounts_result(mnemonic, vault, item, chains, count) is Err,
{
    match bip39_seed(mnemonic) {
        None => {},
        Some(seed) => {
            assert(accounts_after(seed, chains, count, (i + 1) as nat) is Err);
            lemma_accounts_after_error(seed, chains, count, (i + 1) as nat, chains.len());
        },
    }
}

/// Where the mnemonic is valid and every family before the first unknown
/// tag derives, the error is `UnsupportedChain`.
pub proof fn lemma_unsupported_chain_error(
    mnemonic: Seq<char>,
    vault: Seq<char>,
    item: Seq<char>,
    chains: Seq<Seq<char>>,
    count: nat,
    i: int,
)
    requires
        0 <= i < chains.len(),
        family_of(chains[i]) is None,
        bip39_seed(mnemonic) is Some,
        accounts_after(bip39_seed(mnemonic)->0, chains, count, i as nat) is Ok,
    ensures
        derive_accounts_result(mnemonic, vault, item, chains, count) == Err::<
            MultiChainAccountsView,
            DeriveError,
        >(DeriveError::UnsupportedChain),
{
    let seed = bip39_seed(mnemonic)->0;
    assert(accounts_after(seed, chains, count, (i + 1) as nat) == Err::<
        FamilyAccounts,
        DeriveError,
    >(DeriveError::UnsupportedChain));
    lemma_accounts_after_error(seed, chains, count, (i + 1) as nat, chains.len());
}

} // verus!
