//! The balance of an address on the UTXO chain, from a block explorer's
//! funded and spent totals.

use crate::amount::format_satoshis;
use crate::amount::satoshis_display;
use crate::blockchain::types::AccountBalance;
use crate::blockchain::types::AccountBalanceView;
use crate::blockchain::types::ChainConfig;
use crate::blockchain::types::QueryError;
use crate::blockchain::types::TokenBalance;
use crate::blockchain::types::TokenBalanceView;
use crate::blockchain::types::query_result_view;
use crate::text::decimal_digits;
use crate::text::u64_to_decimal;
use vstd::prelude::*;

verus! {

/// Totals of the outputs that an address received and spent.
#[derive(Clone, Copy, Debug, PartialEq, Eq, Structural)]
pub struct BlockstreamStats {
    pub funded_txo_sum: u64,
    pub spent_txo_sum: u64,
}

/// What the explorer knows of an address: totals in confirmed blocks and in
/// the mempool. A field that the answer leaves out counts as zero.
#[derive(Clone, Copy, Debug, PartialEq, Eq, Structural)]
pub struct BlockstreamAddress {
    pub chain_stats: BlockstreamStats,
    pub mempool_stats: BlockstreamStats,
}

/// How the request to the explorer ended.
#[derive(Clone, Copy, Debug, PartialEq, Eq, Structural)]
pub enum BlockstreamReply {
    /// No answer came.
    Unreachable,
    /// An answer came with this HTTP status; `body` is what its payload
    /// holds, `None` where the payload could not be read.
    Answered { status: u16, body: Option<BlockstreamAddress> },
}

/// Whether an HTTP status reports success.
pub open spec fn http_success(status: u16) -> bool {
    200 <= status < 300
}

/// The balance that the totals give: confirmed plus unconfirmed, each funded
/// minus spent.
pub open spec fn total_satoshis(data: BlockstreamAddress) -> int {
    (data.chain_stats.funded_txo_sum - data.chain_stats.spent_txo_sum) + (
    data.mempool_stats.funded_txo_sum - data.mempool_stats.spent_txo_sum)
}

/// The account balance of `address` holding `satoshis`.
pub open spec fn bitcoin_balance_view(address: Seq<char>, satoshis: nat) -> AccountBalanceView {
    AccountBalanceView {
        address,
        chain: "bitcoin"@,
        chain_name: "Bitcoin"@,
        chain_id: None,
        native_balance: TokenBalanceView {
            symbol: "BTC"@,
            name: "Bitcoin"@,
            balance: decimal_digits(satoshis),
            balance_formatted: satoshis_display(satoshis),
            decimals: 8,
            contract_address: None,
            usd_value: None,
            is_native: true,
        },
        token_balances: Seq::empty(),
    }
}

/// What a query for `address` returns on `reply`.
pub open spec fn bitcoin_query_result(address: Seq<char>, reply: BlockstreamReply) -> Result<
    AccountBalanceView,
    QueryError,
> {
    match reply {
        BlockstreamReply::Unreachable => Err(QueryError::EndpointError),
        BlockstreamReply::Answered { status, body } => {
            if !http_success(status) {
                Err(QueryError::EndpointError)
            } else {
                match body {
                    None => Err(QueryError::ResponseParseError),
                    Some(data) => {
                        if 0 <= total_satoshis(data) <= u64::MAX {
                            Ok(bitcoin_balance_view(address, total_satoshis(data) as nat))
                        } else {
                            Err(QueryError::ResponseParseError)
                        }
                    },
                }
            }
        },
    }
}

/// Where the explorer answers for `address`.
pub fn bitcoin_balance_url(address: &str) -> (r: String)
    ensures
        r@ == "https://blockstream.info/api/address/"@ + address@,
{
    let mut url = String::from_str("https://blockstream.info/api/address/");
    url.append(address);
    url
}

/// The balance in satoshis that the totals give, where it is a `u64`.
pub fn balance_from_stats(data: &BlockstreamAddress) -> (r: Option<u64>)
    ensures
        r == if 0 <= total_satoshis(*data) <= u64::MAX {
            Some(total_satoshis(*data) as u64)
        } else {
            None
        },
{
    let confirmed: i128 = data.chain_stats.funded_txo_sum as i128
        - data.chain_stats.spent_txo_sum as i128;
    let unconfirmed: i128 = data.mempool_stats.funded_txo_sum as i128
        - data.mempool_stats.spent_txo_sum as i128;
    let total: i128 = confirmed + unconfirmed;
    if 0 <= total && total <= u64::MAX as i128 {
        Some(total as u64)
    } else {
        None
    }
}

/// The account balance of `address` holding `satoshis`.
pub fn bitcoin_account_balance(address: &str, satoshis: u64) -> (r: AccountBalance)
    ensures
        r@ == bitcoin_balance_view(address@, satoshis as nat),
{
    let token_balances: Vec<TokenBalance> = Vec::new();
    let r = AccountBalance {
        address: String::from_str(address),
        chain: String::from_str("bitcoin"),
        chain_name: String::from_str("Bitcoin"),
        chain_id: None,
        native_balance: TokenBalance {
            symbol: String::from_str("BTC"),
            name: String::from_str("Bitcoin"),
            balance: u64_to_decimal(satoshis),
            balance_formatted: format_satoshis(satoshis),
            decimals: 8,
            contract_address: None,
            usd_value: None,
            is_native: true,
        },
        token_balances,
    };
    assert(r@.token_balances =~= Seq::empty());
    r
}

/// The balance of `address` on the UTXO chain, from the explorer's reply to
/// the request at `bitcoin_balance_url(address)`.
pub fn query_bitcoin_balance(address: &str, _config: &ChainConfig, reply: &BlockstreamReply) -> (r:
    Result<AccountBalance, QueryError>)
    ensures
        query_result_view(r) == bitcoin_query_result(address@, *reply),
{
    match reply {
        BlockstreamReply::Unreachable => Err(QueryError::EndpointError),
        BlockstreamReply::Answered { status, body } => {
            if *status < 200 || *status >= 300 {
                return Err(QueryError::EndpointError);
            }
            match body {
                None => Err(QueryError::ResponseParseError),
                Some(data) => match balance_from_stats(data) {
                    Some(satoshis) => Ok(bitcoin_account_balance(address, satoshis)),
                    None => Err(QueryError::ResponseParseError),
                },
            }
        },
    }
}

} // verus!
