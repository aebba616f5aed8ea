//! Native and token balances of an address on an account-model chain: which
//! contract calls to make, and what the endpoint's answers amount to.

use crate::amount::Amount;
use crate::amount::be_value;
use crate::amount::format_amount;
use crate::amount::format_balance;
use crate::blockchain::types::AccountBalance;
use crate::blockchain::types::AccountBalanceView;
use crate::blockchain::types::ChainConfig;
use crate::blockchain::types::ChainConfigView;
use crate::blockchain::types::QueryError;
use crate::blockchain::types::TokenBalance;
use crate::blockchain::types::TokenBalanceView;
use crate::blockchain::types::TokenConfig;
use crate::blockchain::types::TokenConfigView;
use crate::blockchain::types::balance_views;
use crate::blockchain::types::query_result_view;
use crate::text::decimal_digits;
use vstd::prelude::*;
use vstd::utf8::encode_utf8;

verus! {

/// The decimal places of the native asset of an account-model chain.
pub const NATIVE_DECIMALS: u8 = 18;

/// The value of a hexadecimal digit, in either case.
pub open spec fn hex_value(c: u8) -> Option<u8> {
    if 48 <= c <= 57 {
        Some((c - 48) as u8)
    } else if 65 <= c <= 70 {
        Some((c - 55) as u8)
    } else if 97 <= c <= 102 {
        Some((c - 87) as u8)
    } else {
        None
    }
}

/// `text` without a leading `0x` or `0X`.
pub open spec fn without_hex_prefix(text: Seq<u8>) -> Seq<u8> {
    if text.len() >= 2 && text[0] == 48 && (text[1] == 120 || text[1] == 88) {
        text.skip(2)
    } else {
        text
    }
}

/// The 20 bytes that `text` spells: 40 hexadecimal digits behind an optional
/// prefix. The case of the digits carries no checksum here.
pub open spec fn hex_address(text: Seq<u8>) -> Option<Seq<u8>> {
    let digits = without_hex_prefix(text);
    if digits.len() == 40 && (forall|i: int| 0 <= i < 40 ==> hex_value(#[trigger] digits[i]) is Some) {
        Some(
            Seq::new(
                20,
                |i: int|
                    (hex_value(digits[2 * i])->0 * 16 + hex_value(digits[2 * i + 1])->0) as u8,
            ),
        )
    } else {
        None
    }
}

/// The account that the text of an address names, where it names one.
pub open spec fn evm_address(text: Seq<char>) -> Option<Seq<u8>> {
    hex_address(encode_utf8(text))
}

/// The Keccak-256 digest of `data`.
pub uninterp spec fn keccak256_digest(data: Seq<u8>) -> Seq<u8>;

/// `FromStr` of `alloy_primitives::Address`, through `str::parse`: accepts
/// exactly 40 hexadecimal digits, of either case, behind an optional `0x` or
/// `0X`, and gives the 20 bytes they spell.
#[verifier::external_body]
fn parse_address(text: &str) -> (r: Option<[u8; 20]>)
    ensures
        r is Some <==> evm_address(text@) is Some,
        r matches Some(a) ==> evm_address(text@) == Some(a@),
{
    match text.parse::<alloy::primitives::Address>() {
        Ok(a) => Some(a.into_array()),
        Err(_) => None,
    }
}

/// `alloy_primitives::keccak256`: the 32-byte Keccak-256 digest of `data`.
#[verifier::external_body]
fn keccak256(data: &[u8]) -> (r: [u8; 32])
    ensures
        r@ == keccak256_digest(data@),
{
    alloy::primitives::keccak256(data).0
}

/// The four bytes that select the contract method `balanceOf(address)`.
pub open spec fn balance_of_selector() -> Seq<u8> {
    keccak256_digest(encode_utf8("balanceOf(address)"@)).subrange(0, 4)
}

/// The payload of a `balanceOf` call for `owner`: selector, twelve zero
/// bytes, the account.
pub open spec fn balance_of_call(owner: Seq<u8>) -> Seq<u8> {
    balance_of_selector() + Seq::new(12, |i: int| 0u8) + owner
}

/// A read-only call of the contract at `to` with payload `data`.
#[derive(Debug)]
pub struct EvmCall {
    pub to: [u8; 20],
    pub data: Vec<u8>,
}

/// The call that asks `token` for the balance of `owner`; none where the
/// token's contract address names no account.
pub open spec fn planned_call(owner: Seq<u8>, token: TokenConfigView) -> Option<
    (Seq<u8>, Seq<u8>),
> {
    match evm_address(token.contract_address) {
        Some(to) => Some((to, balance_of_call(owner))),
        None => None,
    }
}

/// Target and payload of a planned call.
pub open spec fn call_view(call: Option<EvmCall>) -> Option<(Seq<u8>, Seq<u8>)> {
    match call {
        Some(c) => Some((c.to@, c.data@)),
        None => None,
    }
}

/// The balance that a call's answer holds: its first 32 bytes as a
/// big-endian number, 0 where it is shorter.
pub open spec fn decoded_balance(data: Seq<u8>) -> nat {
    if data.len() >= 32 {
        be_value(data.subrange(0, 32))
    } else {
        0
    }
}

/// The entry of `token` with the balance `value`.
pub open spec fn token_balance_view(token: TokenConfigView, value: nat) -> TokenBalanceView {
    TokenBalanceView {
        symbol: token.symbol,
        name: token.name,
        balance: decimal_digits(value),
        balance_formatted: format_amount(value, token.decimals as nat),
        decimals: token.decimals,
        contract_address: Some(token.contract_address),
        usd_value: None,
        is_native: false,
    }
}

/// Whether token number `i` got an answer: its contract address names an
/// account and its call succeeded.
pub open spec fn token_answered(
    token: TokenConfigView,
    answers: Seq<Option<Vec<u8>>>,
    i: int,
) -> bool {
    evm_address(token.contract_address) is Some && 0 <= i < answers.len() && answers[i] is Some
}

/// The entries of the first `n` tokens, in their order; a token without an
/// answer has none.
pub open spec fn token_balances_upto(
    tokens: Seq<TokenConfigView>,
    answers: Seq<Option<Vec<u8>>>,
    n: nat,
) -> Seq<TokenBalanceView>
    decreases n,
{
    if n == 0 {
        Seq::empty()
    } else {
        let before = token_balances_upto(tokens, answers, (n - 1) as nat);
        if token_answered(tokens[n - 1], answers, n - 1) {
            before.push(token_balance_view(tokens[n - 1], decoded_balance(answers[n - 1]->0@)))
        } else {
            before
        }
    }
}

/// The balances of `address` on the chain of `config`.
pub open spec fn evm_balance_view(
    address: Seq<char>,
    config: ChainConfigView,
    native: nat,
    answers: Seq<Option<Vec<u8>>>,
) -> AccountBalanceView {
    AccountBalanceView {
        address,
        chain: "evm"@,
        chain_name: config.name,
        chain_id: config.chain_id,
        native_balance: TokenBalanceView {
            symbol: config.symbol,
            name: config.name,
            balance: decimal_digits(native),
            balance_formatted: format_amount(native, NATIVE_DECIMALS as nat),
            decimals: NATIVE_DECIMALS,
            contract_address: None,
            usd_value: None,
            is_native: true,
        },
        token_balances: token_balances_upto(config.tokens, answers, config.tokens.len()),
    }
}

/// What a query returns: an address that names no account is refused; a
/// failed native balance fails the query; a failed token call only leaves
/// that token out.
pub open spec fn evm_query_result(
    address: Seq<char>,
    config: ChainConfigView,
    native: Option<Amount>,
    answers: Seq<Option<Vec<u8>>>,
) -> Result<AccountBalanceView, QueryError> {
    if evm_address(address) is None {
        Err(QueryError::InvalidAddress)
    } else {
        match native {
            None => Err(QueryError::EndpointError),
            Some(n) => Ok(evm_balance_view(address, config, n@, answers)),
        }
    }
}

/// There are no more entries than tokens.
pub proof fn lemma_token_balances_len(
    tokens: Seq<TokenConfigView>,
    answers: Seq<Option<Vec<u8>>>,
    n: nat,
)
    ensures
        token_balances_upto(tokens, answers, n).len() <= n,
    decreases n,
{
    if n > 0 {
        lemma_token_balances_len(tokens, answers, (n - 1) as nat);
    }
}

/// Token calls cannot fail a query: where the address names an account and
/// the native balance came, the query succeeds whatever the calls
/// answered, with the native balance and at most one entry for each token.
pub proof fn lemma_token_failures_are_tolerated(
    address: Seq<char>,
    config: ChainConfigView,
    native: Amount,
    answers: Seq<Option<Vec<u8>>>,
)
    requires
        evm_address(address) is Some,
    ensures
        evm_query_result(address, config, Some(native), answers) is Ok,
        evm_query_result(address, config, Some(native), answers)->Ok_0.native_balance.balance
            == decimal_digits(native@),
        evm_query_result(address, config, Some(native), answers)->Ok_0.token_balances.len()
            <= config.tokens.len(),
{
    lemma_token_balances_len(config.tokens, answers, config.tokens.len());
}

/// A token whose call failed has no entry, and the entries of the tokens
/// before it stay as they are.
pub proof fn lemma_failed_token_is_left_out(
    tokens: Seq<TokenConfigView>,
    answers: Seq<Option<Vec<u8>>>,
    i: int,
)
    requires
        0 <= i < tokens.len(),
        i >= answers.len() || answers[i] is None,
    ensures
        token_balances_upto(tokens, answers, (i + 1) as nat) == token_balances_upto(
            tokens,
            answers,
            i as nat,
        ),
{
}

/// The account that `address` names.
pub fn owner_account(address: &str) -> (r: Result<[u8; 20], QueryError>)
    ensures
        r is Ok <==> evm_address(address@) is Some,
        r matches Ok(a) ==> evm_address(address@) == Some(a@),
        r matches Err(e) ==> e == QueryError::InvalidAddress,
{
    match parse_address(address) {
        Some(a) => Ok(a),
        None => Err(QueryError::InvalidAddress),
    }
}

/// The payload of a `balanceOf` call for `owner`.
pub fn balance_of_calldata(owner: &[u8; 20]) -> (r: Vec<u8>)
    ensures
        r@ == balance_of_call(owner@),
        r@.len() == 36,
{
    let digest = keccak256("balanceOf(address)".as_bytes());
    let mut data: Vec<u8> = Vec::with_capacity(36);
    let mut i: usize = 0;
    while i < 4
        invariant
            i <= 4,
            data@ == digest@.subrange(0, i as int),
        decreases 4 - i,
    {
        data.push(digest[i]);
        assert(digest@.subrange(0, i + 1) == digest@.subrange(0, i as int).push(digest@[i as int]));
        i += 1;
    }
    let mut j: usize = 0;
    while j < 12
        invariant
            j <= 12,
            data@ == digest@.subrange(0, 4) + Seq::new(j as nat, |k: int| 0u8),
        decreases 12 - j,
    {
        data.push(0u8);
        assert(data@ =~= digest@.subrange(0, 4) + Seq::new((j + 1) as nat, |k: int| 0u8));
        j += 1;
    }
    let mut k: usize = 0;
    while k < 20
        invariant
            k <= 20,
            data@ == digest@.subrange(0, 4) + Seq::new(12, |k: int| 0u8) + owner@.subrange(
                0,
                k as int,
            ),
        decreases 20 - k,
    {
        data.push(owner[k]);
        assert(owner@.subrange(0, k + 1) == owner@.subrange(0, k as int).push(owner@[k as int]));
        k += 1;
    }
    assert(owner@.subrange(0, 20) == owner@);
    data
}

/// The contract calls that a query for `address` makes, one place for each
/// token of `config`: the call, or `None` for a token whose contract address
/// names no account. Fails where `address` itself names none.
pub fn evm_call_plan(address: &str, config: &ChainConfig) -> (r: Result<
    Vec<Option<EvmCall>>,
    QueryError,
>)
    ensures
        evm_address(address@) is None ==> r == Err::<Vec<Option<EvmCall>>, QueryError>(
            QueryError::InvalidAddress,
        ),
        evm_address(address@) is Some ==> r is Ok && r->Ok_0@.len() == config.tokens@.len()
            && forall|i: int|
            0 <= i < config.tokens@.len() ==> call_view(#[trigger] r->Ok_0@[i]) == planned_call(
                evm_address(address@)->0,
                config.tokens@[i]@,
            ),
{
    let owner = match parse_address(address) {
        Some(a) => a,
        None => {
            return Err(QueryError::InvalidAddress);
        },
    };
    let mut plan: Vec<Option<EvmCall>> = Vec::new();
    let mut i: usize = 0;
    while i < config.tokens.len()
        invariant
            i <= config.tokens@.len(),
            plan@.len() == i,
            forall|j: int|
                0 <= j < i ==> call_view(#[trigger] plan@[j]) == planned_call(
                    owner@,
                    config.tokens@[j]@,
                ),
        decreases config.tokens@.len() - i,
    {
        let token = &config.tokens[i];
        let call = match parse_address(token.contract_address.as_str()) {
            Some(to) => Some(EvmCall { to, data: balance_of_calldata(&owner) }),
            None => None,
        };
        plan.push(call);
        i += 1;
    }
    Ok(plan)
}

/// The entry of `token` with the balance that `answer` holds.
pub fn token_balance_entry(token: &TokenConfig, answer: &[u8]) -> (r: TokenBalance)
    ensures
        r@ == token_balance_view(token@, decoded_balance(answer@)),
{
    let balance = Amount::from_be_prefix(answer);
    TokenBalance {
        symbol: token.symbol.clone(),
        name: token.name.clone(),
        balance: balance.to_decimal(),
        balance_formatted: format_balance(&balance, token.decimals as u32),
        decimals: token.decimals,
        contract_address: Some(token.contract_address.clone()),
        usd_value: None,
        is_native: false,
    }
}

/// The balances of `address` on the chain of `config`.
///
/// `native` is the native balance that the endpoint reported, `None` where
/// that request failed. `answers` holds, at the place of each token of
/// `config`, what its call of `evm_call_plan` returned; `None`, or no place
/// at all, where the call failed or was not made.
pub fn query_evm_balance(
    address: &str,
    config: &ChainConfig,
    native: Option<Amount>,
    answers: &Vec<Option<Vec<u8>>>,
) -> (r: Result<AccountBalance, QueryError>)
    ensures
        query_result_view(r) == evm_query_result(address@, config@, native, answers@),
{
    if parse_address(address).is_none() {
        return Err(QueryError::InvalidAddress);
    }
    let native_balance = match native {
        Some(n) => n,
        None => {
            return Err(QueryError::EndpointError);
        },
    };
    let mut token_balances: Vec<TokenBalance> = Vec::new();
    let mut i: usize = 0;
    while i < config.tokens.len()
        invariant
            i <= config.tokens@.len(),
            balance_views(token_balances@) == token_balances_upto(
                config@.tokens,
                answers@,
                i as nat,
            ),
        decreases config.tokens@.len() - i,
    {
        let token = &config.tokens[i];
        assert(config@.tokens[i as int] == token@);
        let ghost before = token_balances@;
        if parse_address(token.contract_address.as_str()).is_some() && i < answers.len() {
            match &answers[i] {
                Some(answer) => {
                    let entry = token_balance_entry(token, answer.as_slice());
                    token_balances.push(entry);
                    assert(balance_views(token_balances@) =~= balance_views(before).push(entry@));
                },
                None => {},
            }
        }
        i += 1;
    }
    let r = AccountBalance {
        address: String::from_str(address),
        chain: String::from_str("evm"),
        chain_name: config.name.clone(),
        chain_id: config.chain_id,
        native_balance: TokenBalance {
            symbol: config.symbol.clone(),
            name: config.name.clone(),
            balance: native_balance.to_decimal(),
            balance_formatted: format_balance(&native_balance, NATIVE_DECIMALS as u32),
            decimals: NATIVE_DECIMALS,
            contract_address: None,
            usd_value: None,
            is_native: true,
        },
        token_balances,
    };
    Ok(r)
}

} // verus!
