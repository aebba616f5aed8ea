//! The native balance of an address on the ed25519 chain.

use crate::amount::format_lamports;
use crate::amount::lamports_display;
use crate::blockchain::types::AccountBalance;
use crate::blockchain::types::AccountBalanceView;
use crate::blockchain::types::ChainConfig;
use crate::blockchain::types::QueryError;
use crate::blockchain::types::TokenBalance;
use crate::blockchain::types::TokenBalanceView;
use crate::blockchain::types::query_result_view;
use crate::text::decimal_digits;
use crate::text::u64_to_decimal;
use vstd::prelude::*;

verus! {

/// The 32 bytes of the public key that `address` spells in base 58, where
/// `solana_pubkey::Pubkey::from_str` accepts it.
pub uninterp spec fn solana_address_bytes(address: Seq<char>) -> Option<Seq<u8>>;

/// `solana_pubkey::Pubkey::from_str` and `Pubkey::to_bytes`: the key that an
/// address stands for, `None` where the address is not the base-58 form of
/// 32 bytes.
#[verifier::external_body]
fn parse_pubkey(address: &str) -> (r: Option<[u8; 32]>)
    ensures
        r is Some <==> solana_address_bytes(address@) is Some,
        r matches Some(key) ==> solana_address_bytes(address@) == Some(key@),
{
    match address.parse::<solana_pubkey::Pubkey>() {
        Ok(key) => Some(key.to_bytes()),
        Err(_) => None,
    }
}

/// The account balance of `address` holding `lamports`. Tokens are not
/// enumerated on this chain: the list is always empty.
pub open spec fn solana_balance_view(address: Seq<char>, lamports: nat) -> AccountBalanceView {
    AccountBalanceView {
        address,
        chain: "solana"@,
        chain_name: "Solana"@,
        chain_id: None,
        native_balance: TokenBalanceView {
            symbol: "SOL"@,
            name: "Solana"@,
            balance: decimal_digits(lamports),
            balance_formatted: lamports_display(lamports),
            decimals: 9,
            contract_address: None,
            usd_value: None,
            is_native: true,
        },
        token_balances: Seq::empty(),
    }
}

/// What a query returns for an address that parsed to `key` (or did not),
/// where the endpoint reported `lamports` (or failed).
pub open spec fn solana_query_result(
    address: Seq<char>,
    key: Option<Seq<u8>>,
    lamports: Option<u64>,
) -> Result<AccountBalanceView, QueryError> {
    if key is None {
        Err(QueryError::InvalidAddress)
    } else {
        match lamports {
            None => Err(QueryError::EndpointError),
            Some(n) => Ok(solana_balance_view(address, n as nat)),
        }
    }
}

/// The public key that `address` stands for.
pub fn solana_pubkey(address: &str) -> (r: Result<[u8; 32], QueryError>)
    ensures
        r is Ok <==> solana_address_bytes(address@) is Some,
        r matches Ok(key) ==> solana_address_bytes(address@) == Some(key@),
        r matches Err(e) ==> e == QueryError::InvalidAddress,
{
    match parse_pubkey(address) {
        Some(key) => Ok(key),
        None => Err(QueryError::InvalidAddress),
    }
}

/// The account balance of `address` holding `lamports`.
pub fn solana_account_balance(address: &str, lamports: u64) -> (r: AccountBalance)
    ensures
        r@ == solana_balance_view(address@, lamports as nat),
{
    let token_balances: Vec<TokenBalance> = Vec::new();
    let r = AccountBalance {
        address: String::from_str(address),
        chain: String::from_str("solana"),
        chain_name: String::from_str("Solana"),
        chain_id: None,
        native_balance: TokenBalance {
            symbol: String::from_str("SOL"),
            name: String::from_str("Solana"),
            balance: u64_to_decimal(lamports),
            balance_formatted: format_lamports(lamports),
            decimals: 9,
            contract_address: None,
            usd_value: None,
            is_native: true,
        },
        token_balances,
    };
    assert(r@.token_balances =~= Seq::empty());
    r
}

/// The result of a query, given whether the address parsed and what the
/// endpoint reported.
pub fn solana_balance_from(address: &str, key_found: bool, lamports: Option<u64>) -> (r: Result<
    AccountBalance,
    QueryError,
>)
    ensures
        !key_found ==> r == Err::<AccountBalance, QueryError>(QueryError::InvalidAddress),
        key_found && lamports is None ==> r == Err::<AccountBalance, QueryError>(
            QueryError::EndpointError,
        ),
        key_found && lamports is Some ==> query_result_view(r) == Ok::<
            AccountBalanceView,
            QueryError,
        >(solana_balance_view(address@, lamports->0 as nat)),
{
    if !key_found {
        return Err(QueryError::InvalidAddress);
    }
    match lamports {
        None => Err(QueryError::EndpointError),
        Some(n) => Ok(solana_account_balance(address, n)),
    }
}

/// The balance of `address` on the ed25519 chain. `lamports` is what the
/// endpoint reported as the balance of the address, `None` where it failed.
pub fn query_solana_balance(address: &str, _config: &ChainConfig, lamports: Option<u64>) -> (r:
    Result<AccountBalance, QueryError>)
    ensures
        query_result_view(r) == solana_query_result(
            address@,
            solana_address_bytes(address@),
            lamports,
        ),
{
    let key = parse_pubkey(address);
    solana_balance_from(address, key.is_some(), lamports)
}

} // verus!
