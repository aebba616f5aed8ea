use ssh_m::amount::Amount;
use ssh_m::blockchain::bitcoin::balance_from_stats;
use ssh_m::blockchain::bitcoin::bitcoin_balance_url;
use ssh_m::blockchain::bitcoin::query_bitcoin_balance;
use ssh_m::blockchain::bitcoin::BlockstreamAddress;
use ssh_m::blockchain::bitcoin::BlockstreamReply;
use ssh_m::blockchain::bitcoin::BlockstreamStats;
use ssh_m::blockchain::evm::balance_of_calldata;
use ssh_m::blockchain::evm::evm_call_plan;
use ssh_m::blockchain::evm::owner_account;
use ssh_m::blockchain::evm::query_evm_balance;
use ssh_m::blockchain::evm::token_balance_entry;
use ssh_m::blockchain::solana::query_solana_balance;
use ssh_m::blockchain::solana::solana_pubkey;
use ssh_m::blockchain::types::chain;
use ssh_m::blockchain::types::default_chain_configs;
use ssh_m::blockchain::types::token;
use ssh_m::blockchain::types::AccountBalance;
use ssh_m::blockchain::types::ChainConfig;
use ssh_m::blockchain::types::QueryError;
use ssh_m::commands::blockchain::chain_family;
use ssh_m::commands::blockchain::get_default_chain_configs;
use ssh_m::commands::blockchain::plan_balance_queries;
use ssh_m::commands::blockchain::query_balances;
use ssh_m::commands::blockchain::resolve_config;
use ssh_m::commands::blockchain::AddressQuery;
use ssh_m::commands::blockchain::ChainFamily;

const OWNER: &str = "0xd8dA6BF26964aF9D7eEd9e03E53415D37aA96045";
const USDT: &str = "0xdAC17F958D2ee523a2206206994597C13D831ec7";
const USDC: &str = "0xA0b86991c6218b36c1d19D4a2e9Eb0cE3606eB48";

fn amount(n: u128) -> Amount {
    let mut bytes = [0u8; 32];
    bytes[16..].copy_from_slice(&n.to_be_bytes());
    Amount { bytes }
}

fn word(n: u128) -> Vec<u8> {
    amount(n).bytes.to_vec()
}

fn stats(funded: u64, spent: u64) -> BlockstreamStats {
    BlockstreamStats { funded_txo_sum: funded, spent_txo_sum: spent }
}

fn answered(status: u16, chain: (u64, u64), mempool: (u64, u64)) -> BlockstreamReply {
    BlockstreamReply::Answered {
        status,
        body: Some(BlockstreamAddress {
            chain_stats: stats(chain.0, chain.1),
            mempool_stats: stats(mempool.0, mempool.1),
        }),
    }
}

fn bitcoin_config() -> ChainConfig {
    chain(None, "bitcoin", "Bitcoin", "https://blockstream.info/api", "BTC", "", Vec::new())
}

fn ethereum() -> ChainConfig {
    default_chain_configs().remove(0)
}

fn query(address: &str, chain_type: &str) -> AddressQuery {
    AddressQuery { address: address.to_string(), chain_type: chain_type.to_string() }
}

#[test]
fn bitcoin_balance_from_funded_and_spent() {
    let reply = answered(200, (100000, 40000), (0, 0));
    let r = query_bitcoin_balance("bc1qexample", &bitcoin_config(), &reply).unwrap();
    assert_eq!(r.address, "bc1qexample");
    assert_eq!(r.chain, "bitcoin");
    assert_eq!(r.chain_name, "Bitcoin");
    assert_eq!(r.chain_id, None);
    assert_eq!(r.native_balance.symbol, "BTC");
    assert_eq!(r.native_balance.name, "Bitcoin");
    assert_eq!(r.native_balance.balance, "60000");
    assert_eq!(r.native_balance.balance_formatted, "0.00060000");
    assert_eq!(r.native_balance.decimals, 8);
    assert_eq!(r.native_balance.contract_address, None);
    assert_eq!(r.native_balance.usd_value, None);
    assert!(r.native_balance.is_native);
    assert!(r.token_balances.is_empty());
}

#[test]
fn bitcoin_unconfirmed_totals_count() {
    let reply = answered(200, (100000, 40000), (5000, 0));
    let r = query_bitcoin_balance("a", &bitcoin_config(), &reply).unwrap();
    assert_eq!(r.native_balance.balance, "65000");
    let reply = answered(204, (100000, 40000), (0, 25000));
    let r = query_bitcoin_balance("a", &bitcoin_config(), &reply).unwrap();
    assert_eq!(r.native_balance.balance, "35000");
    assert_eq!(r.native_balance.balance_formatted, "0.00035000");
}

#[test]
fn bitcoin_missing_stats_count_as_zero() {
    let reply = answered(200, (0, 0), (0, 0));
    let r = query_bitcoin_balance("a", &bitcoin_config(), &reply).unwrap();
    assert_eq!(r.native_balance.balance, "0");
    assert_eq!(r.native_balance.balance_formatted, "0.00000000");
}

#[test]
fn bitcoin_endpoint_failures() {
    let config = bitcoin_config();
    for status in [100u16, 199, 300, 301, 400, 404, 429, 500, 503] {
        let reply = answered(status, (1, 0), (0, 0));
        let r = query_bitcoin_balance("a", &config, &reply);
        assert!(matches!(r, Err(QueryError::EndpointError)));
    }
    let r = query_bitcoin_balance("a", &config, &BlockstreamReply::Unreachable);
    assert!(matches!(r, Err(QueryError::EndpointError)));
    let r = query_bitcoin_balance("a", &config, &answered(299, (1, 0), (0, 0)));
    assert!(r.is_ok());
}

#[test]
fn bitcoin_unreadable_payload() {
    let reply = BlockstreamReply::Answered { status: 200, body: None };
    let r = query_bitcoin_balance("a", &bitcoin_config(), &reply);
    assert!(matches!(r, Err(QueryError::ResponseParseError)));
    let reply = BlockstreamReply::Answered { status: 500, body: None };
    let r = query_bitcoin_balance("a", &bitcoin_config(), &reply);
    assert!(matches!(r, Err(QueryError::EndpointError)));
}

#[test]
fn bitcoin_totals_that_are_no_balance() {
    let data = BlockstreamAddress { chain_stats: stats(1, 2), mempool_stats: stats(0, 0) };
    assert_eq!(balance_from_stats(&data), None);
    let data =
        BlockstreamAddress { chain_stats: stats(u64::MAX, 0), mempool_stats: stats(1, 0) };
    assert_eq!(balance_from_stats(&data), None);
    let data =
        BlockstreamAddress { chain_stats: stats(u64::MAX, 0), mempool_stats: stats(1, 1) };
    assert_eq!(balance_from_stats(&data), Some(u64::MAX));
    let r = query_bitcoin_balance("a", &bitcoin_config(), &answered(200, (1, 2), (0, 0)));
    assert!(matches!(r, Err(QueryError::ResponseParseError)));
}

#[test]
fn bitcoin_request_address() {
    assert_eq!(bitcoin_balance_url("bc1qabc"), "https://blockstream.info/api/address/bc1qabc");
}

#[test]
fn balance_of_payload() {
    let owner = owner_account(OWNER).unwrap();
    let data = balance_of_calldata(&owner);
    assert_eq!(data.len(), 36);
    assert_eq!(&data[..4], &[0x70, 0xa0, 0x82, 0x31]);
    assert_eq!(&data[4..16], &[0u8; 12]);
    assert_eq!(&data[16..], &owner[..]);
    assert_eq!(owner[0], 0xd8);
    assert_eq!(owner[19], 0x45);
}

#[test]
fn evm_addresses_are_forty_hex_digits() {
    assert!(owner_account(OWNER).is_ok());
    assert!(owner_account(&OWNER[2..]).is_ok());
    assert!(owner_account(&OWNER.to_lowercase()).is_ok());
    assert!(owner_account(&OWNER.to_uppercase().replace("0X", "0X")).is_ok());
    assert_eq!(
        owner_account(&OWNER.to_lowercase()).unwrap(),
        owner_account(OWNER).unwrap()
    );
    for bad in ["", "0x", "0x1234", &OWNER[..41], "0xd8dA6BF26964aF9D7eEd9e03E53415D37aA9604g"] {
        assert!(matches!(owner_account(bad), Err(QueryError::InvalidAddress)));
    }
    let long = format!("{}00", OWNER);
    assert!(matches!(owner_account(&long), Err(QueryError::InvalidAddress)));
}

#[test]
fn evm_plan_has_a_place_for_each_token() {
    let mut config = ethereum();
    config.tokens.push(token("BAD", "Broken", "not-an-address", 6));
    let plan = evm_call_plan(OWNER, &config).unwrap();
    assert_eq!(plan.len(), 3);
    let owner = owner_account(OWNER).unwrap();
    let first = plan[0].as_ref().unwrap();
    assert_eq!(first.to, owner_account(USDT).unwrap());
    assert_eq!(first.data, balance_of_calldata(&owner));
    let second = plan[1].as_ref().unwrap();
    assert_eq!(second.to, owner_account(USDC).unwrap());
    assert!(plan[2].is_none());
    assert!(matches!(evm_call_plan("nope", &config), Err(QueryError::InvalidAddress)));
}

#[test]
fn evm_native_and_token_balances() {
    let config = ethereum();
    let native = Some(amount(1_500_000_000_000_000_000));
    let answers = vec![Some(word(2_500_000)), Some(word(0))];
    let r = query_evm_balance(OWNER, &config, native, &answers).unwrap();
    assert_eq!(r.address, OWNER);
    assert_eq!(r.chain, "evm");
    assert_eq!(r.chain_name, "Ethereum");
    assert_eq!(r.chain_id, Some(1));
    assert_eq!(r.native_balance.symbol, "ETH");
    assert_eq!(r.native_balance.name, "Ethereum");
    assert_eq!(r.native_balance.balance, "1500000000000000000");
    assert_eq!(r.native_balance.balance_formatted, "1.5");
    assert_eq!(r.native_balance.decimals, 18);
    assert_eq!(r.native_balance.contract_address, None);
    assert!(r.native_balance.is_native);
    assert_eq!(r.token_balances.len(), 2);
    let usdt = &r.token_balances[0];
    assert_eq!(usdt.symbol, "USDT");
    assert_eq!(usdt.name, "Tether USD");
    assert_eq!(usdt.balance, "2500000");
    assert_eq!(usdt.balance_formatted, "2.5");
    assert_eq!(usdt.decimals, 6);
    assert_eq!(usdt.contract_address.as_deref(), Some(USDT));
    assert_eq!(usdt.usd_value, None);
    assert!(!usdt.is_native);
    let usdc = &r.token_balances[1];
    assert_eq!(usdc.symbol, "USDC");
    assert_eq!(usdc.balance, "0");
    assert_eq!(usdc.balance_formatted, "0");
}

#[test]
fn one_failed_token_call_leaves_the_other() {
    let config = ethereum();
    let answers = vec![None, Some(word(7_000_000))];
    let r = query_evm_balance(OWNER, &config, Some(amount(1)), &answers).unwrap();
    assert_eq!(r.token_balances.len(), 1);
    assert_eq!(r.token_balances[0].symbol, "USDC");
    assert_eq!(r.token_balances[0].balance_formatted, "7");
    let answers = vec![Some(word(7_000_000))];
    let r = query_evm_balance(OWNER, &config, Some(amount(1)), &answers).unwrap();
    assert_eq!(r.token_balances.len(), 1);
    assert_eq!(r.token_balances[0].symbol, "USDT");
    let r = query_evm_balance(OWNER, &config, Some(amount(1)), &Vec::new()).unwrap();
    assert!(r.token_balances.is_empty());
}

#[test]
fn evm_tokens_without_an_account_are_left_out() {
    let mut config = ethereum();
    config.tokens.insert(1, token("BAD", "Broken", "0x123", 6));
    let answers = vec![Some(word(1)), Some(word(2)), Some(word(3))];
    let r = query_evm_balance(OWNER, &config, Some(amount(0)), &answers).unwrap();
    assert_eq!(r.token_balances.len(), 2);
    assert_eq!(r.token_balances[0].balance, "1");
    assert_eq!(r.token_balances[1].balance, "3");
    assert_eq!(r.native_balance.balance_formatted, "0");
}

#[test]
fn evm_query_failures() {
    let config = ethereum();
    let answers = vec![Some(word(1)), Some(word(2))];
    let r = query_evm_balance("0x12", &config, Some(amount(1)), &answers);
    assert!(matches!(r, Err(QueryError::InvalidAddress)));
    let r = query_evm_balance("0x12", &config, None, &answers);
    assert!(matches!(r, Err(QueryError::InvalidAddress)));
    let r = query_evm_balance(OWNER, &config, None, &answers);
    assert!(matches!(r, Err(QueryError::EndpointError)));
}

#[test]
fn short_answers_decode_to_zero() {
    let usdt = token("USDT", "Tether USD", USDT, 6);
    let entry = token_balance_entry(&usdt, &[1u8; 31]);
    assert_eq!(entry.balance, "0");
    assert_eq!(entry.balance_formatted, "0");
    let mut long = word(1_234_567);
    long.extend_from_slice(&[9u8; 32]);
    let entry = token_balance_entry(&usdt, &long);
    assert_eq!(entry.balance, "1234567");
    assert_eq!(entry.balance_formatted, "1.234567");
}

#[test]
fn solana_balance() {
    let config = default_chain_configs().remove(4);
    let address = "11111111111111111111111111111111";
    let r = query_solana_balance(address, &config, Some(1_234_567_890)).unwrap();
    assert_eq!(r.address, address);
    assert_eq!(r.chain, "solana");
    assert_eq!(r.chain_name, "Solana");
    assert_eq!(r.chain_id, None);
    assert_eq!(r.native_balance.symbol, "SOL");
    assert_eq!(r.native_balance.name, "Solana");
    assert_eq!(r.native_balance.balance, "1234567890");
    assert_eq!(r.native_balance.balance_formatted, "1.2346");
    assert_eq!(r.native_balance.decimals, 9);
    assert!(r.native_balance.is_native);
    assert!(r.token_balances.is_empty());
}

#[test]
fn solana_query_failures() {
    let config = default_chain_configs().remove(4);
    let r = query_solana_balance("not base58!", &config, Some(1));
    assert!(matches!(r, Err(QueryError::InvalidAddress)));
    let r = query_solana_balance("abc", &config, Some(1));
    assert!(matches!(r, Err(QueryError::InvalidAddress)));
    let r = query_solana_balance("11111111111111111111111111111111", &config, None);
    assert!(matches!(r, Err(QueryError::EndpointError)));
    let r = query_solana_balance(OWNER, &config, None);
    assert!(matches!(r, Err(QueryError::InvalidAddress)));
}

#[test]
fn solana_keys_of_addresses() {
    assert_eq!(solana_pubkey("11111111111111111111111111111111").unwrap(), [0u8; 32]);
    let key = solana_pubkey("TokenkegQfeZyiNwAJbNbGKPFXCWuBvf9Ss623VQ5DA").unwrap();
    assert_ne!(key, [0u8; 32]);
    assert!(matches!(solana_pubkey(""), Err(QueryError::InvalidAddress)));
}

#[test]
fn built_in_configurations() {
    let configs = get_default_chain_configs();
    let names: Vec<&str> = configs.iter().map(|c| c.name.as_str()).collect();
    assert_eq!(names, ["Ethereum", "Polygon", "BSC", "Arbitrum", "Solana"]);
    let ids: Vec<Option<u64>> = configs.iter().map(|c| c.chain_id).collect();
    assert_eq!(ids, [Some(1), Some(137), Some(56), Some(42161), None]);
    let kinds: Vec<&str> = configs.iter().map(|c| c.chain_type.as_str()).collect();
    assert_eq!(kinds, ["evm", "evm", "evm", "evm", "solana"]);
    let symbols: Vec<&str> = configs.iter().map(|c| c.symbol.as_str()).collect();
    assert_eq!(symbols, ["ETH", "MATIC", "BNB", "ETH", "SOL"]);
    assert_eq!(configs[0].rpc_url, "https://eth.llamarpc.com");
    assert_eq!(configs[0].explorer_url, "https://etherscan.io");
    assert_eq!(configs[0].tokens.len(), 2);
    assert_eq!(configs[0].tokens[0].symbol, "USDT");
    assert_eq!(configs[0].tokens[0].name, "Tether USD");
    assert_eq!(configs[0].tokens[0].contract_address, USDT);
    assert_eq!(configs[0].tokens[0].decimals, 6);
    assert_eq!(configs[0].tokens[1].symbol, "USDC");
    assert_eq!(configs[0].tokens[1].contract_address, USDC);
    assert_eq!(configs[4].rpc_url, "https://api.mainnet-beta.solana.com");
    for c in &configs[1..] {
        assert!(c.tokens.is_empty());
    }
    let copy = configs[0].clone();
    assert_eq!(copy.name, "Ethereum");
    assert_eq!(copy.tokens.len(), 2);
    assert_eq!(copy.tokens[1].name, "USD Coin");
}

#[test]
fn family_tags() {
    assert_eq!(chain_family("evm"), Some(ChainFamily::Evm));
    assert_eq!(chain_family("solana"), Some(ChainFamily::Solana));
    assert_eq!(chain_family("bitcoin"), Some(ChainFamily::Bitcoin));
    assert_eq!(chain_family("Bitcoin"), None);
    assert_eq!(chain_family(""), None);
    assert_eq!(chain_family("evm "), None);
}

#[test]
fn caller_configuration_comes_first() {
    let defaults = default_chain_configs();
    let own = vec![chain(Some(10), "evm", "Optimism", "https://op", "ETH", "", Vec::new())];
    assert_eq!(resolve_config("evm", &own, &defaults).unwrap().name, "Optimism");
    assert_eq!(resolve_config("solana", &own, &defaults).unwrap().name, "Solana");
    assert_eq!(resolve_config("evm", &Vec::new(), &defaults).unwrap().name, "Ethereum");
    assert!(resolve_config("bitcoin", &own, &defaults).is_none());
}

#[test]
fn plan_skips_what_cannot_be_resolved() {
    let addresses = vec![
        query(OWNER, "evm"),
        query("bc1q", "bitcoin"),
        query("x", "dogecoin"),
        query("11111111111111111111111111111111", "solana"),
    ];
    let plan = plan_balance_queries(&addresses, &Vec::new());
    assert_eq!(plan.len(), 4);
    assert_eq!(plan[0].as_ref().unwrap().family, ChainFamily::Evm);
    assert_eq!(plan[0].as_ref().unwrap().config.name, "Ethereum");
    assert!(plan[1].is_none());
    assert!(plan[2].is_none());
    assert_eq!(plan[3].as_ref().unwrap().family, ChainFamily::Solana);
    let own = vec![bitcoin_config(), chain(None, "dogecoin", "Doge", "", "DOGE", "", Vec::new())];
    let plan = plan_balance_queries(&addresses, &own);
    assert_eq!(plan[1].as_ref().unwrap().family, ChainFamily::Bitcoin);
    assert!(plan[2].is_none());
}

fn evm_outcome(address: &str) -> Option<Result<AccountBalance, QueryError>> {
    Some(query_evm_balance(address, &ethereum(), Some(amount(5)), &Vec::new()))
}

#[test]
fn report_holds_exactly_the_resolvable_account() {
    let addresses = vec![query(OWNER, "evm"), query("bc1q", "bitcoin")];
    let plan = plan_balance_queries(&addresses, &Vec::new());
    assert!(plan[0].is_some() && plan[1].is_none());
    let outcomes = vec![evm_outcome(OWNER), None];
    let report = query_balances(&addresses, &Vec::new(), &outcomes, 1_700_000_000);
    assert_eq!(report.accounts.len(), 1);
    assert_eq!(report.accounts[0].address, OWNER);
    assert_eq!(report.accounts[0].chain, "evm");
    assert_eq!(report.total_usd_value, None);
    assert_eq!(report.timestamp, 1_700_000_000);
}

#[test]
fn failed_queries_are_left_out_of_the_report() {
    let addresses = vec![query("bad", "evm"), query(OWNER, "evm"), query(OWNER, "evm")];
    let outcomes =
        vec![evm_outcome("bad"), evm_outcome(OWNER), Some(Err(QueryError::EndpointError))];
    assert!(matches!(outcomes[0], Some(Err(QueryError::InvalidAddress))));
    let report = query_balances(&addresses, &Vec::new(), &outcomes, 7);
    assert_eq!(report.accounts.len(), 1);
    assert_eq!(report.accounts[0].native_balance.balance, "5");
    assert_eq!(report.timestamp, 7);
}

#[test]
fn outcomes_of_queries_that_were_not_planned_do_not_count() {
    let addresses = vec![query("bc1q", "bitcoin"), query(OWNER, "evm")];
    let stray = query_bitcoin_balance("bc1q", &bitcoin_config(), &answered(200, (5, 0), (0, 0)));
    let outcomes = vec![Some(stray), evm_outcome(OWNER), evm_outcome(OWNER)];
    let report = query_balances(&addresses, &Vec::new(), &outcomes, 0);
    assert_eq!(report.accounts.len(), 1);
    assert_eq!(report.accounts[0].chain, "evm");
    let report = query_balances(&addresses, &vec![bitcoin_config()], &outcomes, 0);
    assert_eq!(report.accounts.len(), 2);
    assert_eq!(report.accounts[0].chain, "bitcoin");
    assert_eq!(report.accounts[1].chain, "evm");
    let report = query_balances(&addresses, &Vec::new(), &Vec::new(), 0);
    assert!(report.accounts.is_empty());
}

#[test]
fn address_parsing_agrees_with_a_plain_check() {
    let alphabet: Vec<char> = "0123456789abcdefABCDEFxXgG ".chars().collect();
    let mut state: u64 = 5;
    let mut next = move || {
        state = state.wrapping_mul(6364136223846793005).wrapping_add(1442695040888963407);
        (state >> 33) as usize
    };
    for round in 0..3000 {
        let length = match round % 5 {
            0 => 40,
            1 => 42,
            2 => 38 + next() % 6,
            _ => next() % 50,
        };
        let mut text: String = (0..length)
            .map(|_| {
                let limit = if next() % 4 == 0 { alphabet.len() } else { 22 };
                alphabet[next() % limit]
            })
            .collect();
        if round % 3 == 0 && text.len() >= 2 {
            text.replace_range(0..2, if next() % 2 == 0 { "0x" } else { "0X" });
        }
        let digits = match text.as_bytes() {
            [b'0', b'x' | b'X', rest @ ..] => rest,
            all => all,
        };
        let valid = digits.len() == 40 && digits.iter().all(|b| b.is_ascii_hexdigit());
        let parsed = owner_account(&text);
        assert_eq!(parsed.is_ok(), valid, "{:?}", text);
        if let Ok(bytes) = parsed {
            for (i, byte) in bytes.iter().enumerate() {
                let pair = std::str::from_utf8(&digits[2 * i..2 * i + 2]).unwrap();
                assert_eq!(*byte, u8::from_str_radix(pair, 16).unwrap());
            }
        }
    }
    assert!(owner_account("0xd8dA6BF26964aF9D7eEd9e03E53415D37aA9604é").is_err());
}
