//! Chain configurations, balances and the report that collects them.

use crate::text::clone_opt_text;
use crate::text::opt_text;
use vstd::prelude::*;

verus! {

/// Why a balance query failed.
#[derive(Clone, Copy, Debug, PartialEq, Eq, Structural)]
pub enum QueryError {
    /// The address is not one of the chain family.
    InvalidAddress,
    /// The endpoint could not be reached or answered with a failure.
    EndpointError,
    /// The endpoint's answer could not be read.
    ResponseParseError,
}

impl QueryError {
    /// What went wrong, in words.
    pub fn message(&self) -> (r: String)
        ensures
            r@ == match *self {
                QueryError::InvalidAddress => "Invalid address"@,
                QueryError::EndpointError => "Endpoint error"@,
                QueryError::ResponseParseError => "Failed to parse response"@,
            },
    {
        match self {
            QueryError::InvalidAddress => String::from_str("Invalid address"),
            QueryError::EndpointError => String::from_str("Endpoint error"),
            QueryError::ResponseParseError => String::from_str("Failed to parse response"),
        }
    }
}

/// A secondary asset on an account-model chain.
#[derive(Debug)]
pub struct TokenConfig {
    pub symbol: String,
    pub name: String,
    pub contract_address: String,
    pub decimals: u8,
}

/// What a `TokenConfig` holds, as mathematical values.
pub struct TokenConfigView {
    pub symbol: Seq<char>,
    pub name: Seq<char>,
    pub contract_address: Seq<char>,
    pub decimals: u8,
}

impl View for TokenConfig {
    type V = TokenConfigView;

    open spec fn view(&self) -> TokenConfigView {
        TokenConfigView {
            symbol: self.symbol@,
            name: self.name@,
            contract_address: self.contract_address@,
            decimals: self.decimals,
        }
    }
}

impl Clone for TokenConfig {
    fn clone(&self) -> (r: Self)
        ensures
            r@ == self@,
    {
        TokenConfig {
            symbol: self.symbol.clone(),
            name: self.name.clone(),
            contract_address: self.contract_address.clone(),
            decimals: self.decimals,
        }
    }
}

/// The views of a list of tokens.
pub open spec fn token_views(tokens: Seq<TokenConfig>) -> Seq<TokenConfigView> {
    tokens.map_values(|t: TokenConfig| t@)
}

/// One network of a chain family: where to ask and what its assets are called.
#[derive(Debug)]
pub struct ChainConfig {
    pub chain_id: Option<u64>,
    pub chain_type: String,
    pub name: String,
    pub rpc_url: String,
    pub symbol: String,
    pub explorer_url: String,
    pub tokens: Vec<TokenConfig>,
}

/// What a `ChainConfig` holds, as mathematical values.
pub struct ChainConfigView {
    pub chain_id: Option<u64>,
    pub chain_type: Seq<char>,
    pub name: Seq<char>,
    pub rpc_url: Seq<char>,
    pub symbol: Seq<char>,
    pub explorer_url: Seq<char>,
    pub tokens: Seq<TokenConfigView>,
}

impl View for ChainConfig {
    type V = ChainConfigView;

    open spec fn view(&self) -> ChainConfigView {
        ChainConfigView {
            chain_id: self.chain_id,
            chain_type: self.chain_type@,
            name: self.name@,
            rpc_url: self.rpc_url@,
            symbol: self.symbol@,
            explorer_url: self.explorer_url@,
            tokens: token_views(self.tokens@),
        }
    }
}

impl Clone for ChainConfig {
    fn clone(&self) -> (r: Self)
        ensures
            r@ == self@,
    {
        let mut tokens: Vec<TokenConfig> = Vec::new();
        let mut i: usize = 0;
        while i < self.tokens.len()
            invariant
                i <= self.tokens.len(),
                tokens@.len() == i,
                forall|j: int| 0 <= j < i ==> tokens@[j]@ == self.tokens@[j]@,
            decreases self.tokens.len() - i,
        {
            let t = self.tokens[i].clone();
            tokens.push(t);
            i += 1;
        }
        assert(token_views(tokens@) =~= token_views(self.tokens@));
        ChainConfig {
            chain_id: self.chain_id,
            chain_type: self.chain_type.clone(),
            name: self.name.clone(),
            rpc_url: self.rpc_url.clone(),
            symbol: self.symbol.clone(),
            explorer_url: self.explorer_url.clone(),
            tokens,
        }
    }
}

/// The views of a list of configurations.
pub open spec fn config_views(configs: Seq<ChainConfig>) -> Seq<ChainConfigView> {
    configs.map_values(|c: ChainConfig| c@)
}

/// The balance of one asset.
#[derive(Debug)]
pub struct TokenBalance {
    pub symbol: String,
    pub name: String,
    pub balance: String,
    pub balance_formatted: String,
    pub decimals: u8,
    pub contract_address: Option<String>,
    pub usd_value: Option<String>,
    pub is_native: bool,
}

/// What a `TokenBalance` holds, as mathematical values.
pub struct TokenBalanceView {
    pub symbol: Seq<char>,
    pub name: Seq<char>,
    pub balance: Seq<char>,
    pub balance_formatted: Seq<char>,
    pub decimals: u8,
    pub contract_address: Option<Seq<char>>,
    pub usd_value: Option<Seq<char>>,
    pub is_native: bool,
}

impl View for TokenBalance {
    type V = TokenBalanceView;

    open spec fn view(&self) -> TokenBalanceView {
        TokenBalanceView {
            symbol: self.symbol@,
            name: self.name@,
            balance: self.balance@,
            balance_formatted: self.balance_formatted@,
            decimals: self.decimals,
            contract_address: opt_text(self.contract_address),
            usd_value: opt_text(self.usd_value),
            is_native: self.is_native,
        }
    }
}

impl Clone for TokenBalance {
    fn clone(&self) -> (r: Self)
        ensures
            r@ == self@,
    {
        TokenBalance {
            symbol: self.symbol.clone(),
            name: self.name.clone(),
            balance: self.balance.clone(),
            balance_formatted: self.balance_formatted.clone(),
            decimals: self.decimals,
            contract_address: clone_opt_text(&self.contract_address),
            usd_value: clone_opt_text(&self.usd_value),
            is_native: self.is_native,
        }
    }
}

/// The views of a list of balances.
pub open spec fn balance_views(balances: Seq<TokenBalance>) -> Seq<TokenBalanceView> {
    balances.map_values(|b: TokenBalance| b@)
}

/// The balances of one address on one chain.
#[derive(Debug)]
pub struct AccountBalance {
    pub address: String,
    pub chain: String,
    pub chain_name: String,
    pub chain_id: Option<u64>,
    pub native_balance: TokenBalance,
    pub token_balances: Vec<TokenBalance>,
}

/// What an `AccountBalance` holds, as mathematical values.
pub struct AccountBalanceView {
    pub address: Seq<char>,
    pub chain: Seq<char>,
    pub chain_name: Seq<char>,
    pub chain_id: Option<u64>,
    pub native_balance: TokenBalanceView,
    pub token_balances: Seq<TokenBalanceView>,
}

impl View for AccountBalance {
    type V = AccountBalanceView;

    open spec fn view(&self) -> AccountBalanceView {
        AccountBalanceView {
            address: self.address@,
            chain: self.chain@,
            chain_name: self.chain_name@,
            chain_id: self.chain_id,
            native_balance: self.native_balance@,
            token_balances: balance_views(self.token_balances@),
        }
    }
}

impl Clone for AccountBalance {
    fn clone(&self) -> (r: Self)
        ensures
            r@ == self@,
    {
        let mut token_balances: Vec<TokenBalance> = Vec::new();
        let mut i: usize = 0;
        while i < self.token_balances.len()
            invariant
                i <= self.token_balances.len(),
                token_balances@.len() == i,
                forall|j: int| 0 <= j < i ==> token_balances@[j]@ == self.token_balances@[j]@,
            decreases self.token_balances.len() - i,
        {
            let b = self.token_balances[i].clone();
            token_balances.push(b);
            i += 1;
        }
        assert(balance_views(token_balances@) =~= balance_views(self.token_balances@));
        AccountBalance {
            address: self.address.clone(),
            chain: self.chain.clone(),
            chain_name: self.chain_name.clone(),
            chain_id: self.chain_id,
            native_balance: self.native_balance.clone(),
            token_balances,
        }
    }
}

/// The view of a query's result.
pub open spec fn query_result_view(r: Result<AccountBalance, QueryError>) -> Result<
    AccountBalanceView,
    QueryError,
> {
    match r {
        Ok(a) => Ok(a@),
        Err(e) => Err(e),
    }
}

/// The views of a list of accounts.
pub open spec fn account_views(accounts: Seq<AccountBalance>) -> Seq<AccountBalanceView> {
    accounts.map_values(|a: AccountBalance| a@)
}

/// The balances that a batch of queries brought, and when it was put together.
#[derive(Clone, Debug)]
pub struct BalanceReport {
    pub accounts: Vec<AccountBalance>,
    pub total_usd_value: Option<String>,
    pub timestamp: u64,
}

/// What a `BalanceReport` holds, as mathematical values.
pub struct BalanceReportView {
    pub accounts: Seq<AccountBalanceView>,
    pub total_usd_value: Option<Seq<char>>,
    pub timestamp: u64,
}

impl View for BalanceReport {
    type V = BalanceReportView;

    open spec fn view(&self) -> BalanceReportView {
        BalanceReportView {
            accounts: account_views(self.accounts@),
            total_usd_value: opt_text(self.total_usd_value),
            timestamp: self.timestamp,
        }
    }
}

/// What `token` builds.
pub open spec fn token_view(symbol: &str, name: &str, contract_address: &str, decimals: u8)
    -> TokenConfigView {
    TokenConfigView {
        symbol: symbol@,
        name: name@,
        contract_address: contract_address@,
        decimals,
    }
}

/// A token descriptor from its parts.
pub fn token(symbol: &str, name: &str, contract_address: &str, decimals: u8) -> (r: TokenConfig)
    ensures
        r@ == token_view(symbol, name, contract_address, decimals),
{
    TokenConfig {
        symbol: String::from_str(symbol),
        name: String::from_str(name),
        contract_address: String::from_str(contract_address),
        decimals,
    }
}

/// What `chain` builds.
pub open spec fn chain_view(
    chain_id: Option<u64>,
    chain_type: &str,
    name: &str,
    rpc_url: &str,
    symbol: &str,
    explorer_url: &str,
    tokens: Seq<TokenConfigView>,
) -> ChainConfigView {
    ChainConfigView {
        chain_id,
        chain_type: chain_type@,
        name: name@,
        rpc_url: rpc_url@,
        symbol: symbol@,
        explorer_url: explorer_url@,
        tokens,
    }
}

/// A chain configuration from its parts.
pub fn chain(
    chain_id: Option<u64>,
    chain_type: &str,
    name: &str,
    rpc_url: &str,
    symbol: &str,
    explorer_url: &str,
    tokens: Vec<TokenConfig>,
) -> (r: ChainConfig)
    ensures
        r@ == chain_view(
            chain_id,
            chain_type,
            name,
            rpc_url,
            symbol,
            explorer_url,
            token_views(tokens@),
        ),
{
    ChainConfig {
        chain_id,
        chain_type: String::from_str(chain_type),
        name: String::from_str(name),
        rpc_url: String::from_str(rpc_url),
        symbol: String::from_str(symbol),
        explorer_url: String::from_str(explorer_url),
        tokens,
    }
}

/// The built-in registry: Ethereum with its two stablecoins, Polygon, BSC and
/// Arbitrum as account-model chains, and Solana.
pub open spec fn default_chain_config_views() -> Seq<ChainConfigView> {
    seq![
        chain_view(
            Some(1),
            "evm",
            "Ethereum",
            "https://eth.llamarpc.com",
            "ETH",
            "https://etherscan.io",
            seq![
                token_view("USDT", "Tether USD", "0xdAC17F958D2ee523a2206206994597C13D831ec7", 6),
                token_view("USDC", "USD Coin", "0xA0b86991c6218b36c1d19D4a2e9Eb0cE3606eB48", 6),
            ],
        ),
        chain_view(
            Some(137),
            "evm",
            "Polygon",
            "https://polygon.llamarpc.com",
            "MATIC",
            "https://polygonscan.com",
            Seq::empty(),
        ),
        chain_view(
            Some(56),
            "evm",
            "BSC",
            "https://bsc-dataseed.binance.org",
            "BNB",
            "https://bscscan.com",
            Seq::empty(),
        ),
        chain_view(
            Some(42161),
            "evm",
            "Arbitrum",
            "https://arb1.arbitrum.io/rpc",
            "ETH",
            "https://arbiscan.io",
            Seq::empty(),
        ),
        chain_view(
            None,
            "solana",
            "Solana",
            "https://api.mainnet-beta.solana.com",
            "SOL",
            "https://solscan.io",
            Seq::empty(),
        ),
    ]
}

/// The built-in chain configurations.
pub fn default_chain_configs() -> (r: Vec<ChainConfig>)
    ensures
        config_views(r@) == default_chain_config_views(),
{
    let mut ethereum_tokens: Vec<TokenConfig> = Vec::new();
    ethereum_tokens.push(
        token("USDT", "Tether USD", "0xdAC17F958D2ee523a2206206994597C13D831ec7", 6),
    );
    ethereum_tokens.push(
        token("USDC", "USD Coin", "0xA0b86991c6218b36c1d19D4a2e9Eb0cE3606eB48", 6),
    );
    assert(token_views(ethereum_tokens@) =~= seq![
        token_view("USDT", "Tether USD", "0xdAC17F958D2ee523a2206206994597C13D831ec7", 6),
        token_view("USDC", "USD Coin", "0xA0b86991c6218b36c1d19D4a2e9Eb0cE3606eB48", 6),
    ]);
    let polygon_tokens: Vec<TokenConfig> = Vec::new();
    let bsc_tokens: Vec<TokenConfig> = Vec::new();
    let arbitrum_tokens: Vec<TokenConfig> = Vec::new();
    let solana_tokens: Vec<TokenConfig> = Vec::new();
    assert(token_views(polygon_tokens@) =~= Seq::empty());
    assert(token_views(bsc_tokens@) =~= Seq::empty());
    assert(token_views(arbitrum_tokens@) =~= Seq::empty());
    assert(token_views(solana_tokens@) =~= Seq::empty());
    let mut configs: Vec<ChainConfig> = Vec::new();
    configs.push(
        chain(
            Some(1),
            "evm",
            "Ethereum",
            "https://eth.llamarpc.com",
            "ETH",
            "https://etherscan.io",
            ethereum_tokens,
        ),
    );
    configs.push(
        chain(
            Some(137),
            "evm",
            "Polygon",
            "https://polygon.llamarpc.com",
            "MATIC",
            "https://polygonscan.com",
            polygon_tokens,
        ),
    );
    configs.push(
        chain(
            Some(56),
            "evm",
            "BSC",
            "https://bsc-dataseed.binance.org",
            "BNB",
            "https://bscscan.com",
            bsc_tokens,
        ),
    );
    configs.push(
        chain(
            Some(42161),
            "evm",
            "Arbitrum",
            "https://arb1.arbitrum.io/rpc",
            "ETH",
            "https://arbiscan.io",
            arbitrum_tokens,
        ),
    );
    configs.push(
        chain(
            None,
            "solana",
            "Solana",
            "https://api.mainnet-beta.solana.com",
            "SOL",
            "https://solscan.io",
            solana_tokens,
        ),
    );
    assert(config_views(configs@) =~= default_chain_config_views());
    configs
}

} // verus!
