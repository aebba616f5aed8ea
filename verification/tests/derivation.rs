use ssh_m::blockchain::types::QueryError;
use ssh_m::commands::blockchain::derive_accounts;
use ssh_m::crypto::bitcoin::bitcoin_account_from;
use ssh_m::crypto::bitcoin::bitcoin_derivation_path;
use ssh_m::crypto::bitcoin::derive_bitcoin_accounts;
use ssh_m::crypto::bitcoin::derive_single_bitcoin_account;
use ssh_m::crypto::evm::derive_evm_accounts;
use ssh_m::crypto::evm::evm_account_from;
use ssh_m::crypto::evm::evm_derivation_path;
use ssh_m::crypto::hd::ChildKey;
use ssh_m::crypto::hd::child_key_from;
use ssh_m::crypto::hd::derive_child;
use ssh_m::crypto::solana::derive_solana_accounts;
use ssh_m::crypto::solana::solana_account_from;
use ssh_m::crypto::solana::solana_derivation_path;
use ssh_m::crypto::types::DeriveError;
use ssh_m::crypto::types::SecureSeed;
use ssh_m::crypto::types::mnemonic_to_seed;
use ssh_m::crypto::types::seed_from;

const PHRASE: &str =
    "abandon abandon abandon abandon abandon abandon abandon abandon abandon abandon abandon about";

fn hex(bytes: &[u8]) -> String {
    bytes.iter().map(|b| format!("{:02x}", b)).collect()
}

#[test]
fn seed_of_a_known_mnemonic() {
    let seed = mnemonic_to_seed(PHRASE).unwrap();
    assert_eq!(seed.bytes.len(), 64);
    assert_eq!(
        hex(&seed.bytes),
        "5eb00bbddcf069084889a8ab9155568165f5c453ccb85e70811aaed6f6da5fc1\
         9a5ac40b389cd370d086206dec8aa6c43daea6690f20ad3d8d48b2d2ce9e38e4"
    );
}

#[test]
fn invalid_mnemonics_are_refused() {
    assert!(matches!(mnemonic_to_seed(""), Err(DeriveError::InvalidMnemonic)));
    assert!(matches!(mnemonic_to_seed("abandon abandon"), Err(DeriveError::InvalidMnemonic)));
    let bad_checksum = PHRASE.replace("about", "abandon");
    assert!(matches!(mnemonic_to_seed(&bad_checksum), Err(DeriveError::InvalidMnemonic)));
    let unknown_word = PHRASE.replace("about", "zzzzz");
    assert!(matches!(mnemonic_to_seed(&unknown_word), Err(DeriveError::InvalidMnemonic)));
}

#[test]
fn paths_follow_the_templates() {
    assert_eq!(bitcoin_derivation_path(0), "m/84'/0'/0'/0/0");
    assert_eq!(bitcoin_derivation_path(17), "m/84'/0'/0'/0/17");
    assert_eq!(evm_derivation_path(3), "m/44'/60'/0'/0/3");
    assert_eq!(evm_derivation_path(u32::MAX), "m/44'/60'/0'/0/4294967295");
    assert_eq!(solana_derivation_path(0), "m/44'/501'/0'/0'");
    assert_eq!(solana_derivation_path(12), "m/44'/501'/12'/0'");
}

#[test]
fn bitcoin_accounts_of_a_known_mnemonic() {
    let seed = mnemonic_to_seed(PHRASE).unwrap();
    let accounts = derive_bitcoin_accounts(&seed, 2).unwrap();
    assert_eq!(accounts.len(), 2);
    assert_eq!(accounts[0].address, "bc1qcr8te4kr609gcawutmrza0j4xv80jy8z306fyu");
    assert_eq!(accounts[1].address, "bc1qnjg0jd8228aq7egyzacy8cys3knf9xvrerkf9g");
    for (i, account) in accounts.iter().enumerate() {
        assert_eq!(account.chain, "bitcoin");
        assert_eq!(account.chain_name, "Bitcoin");
        assert_eq!(account.derivation_path, format!("m/84'/0'/0'/0/{}", i));
        assert_eq!(account.index as usize, i);
    }
}

#[test]
fn evm_accounts_of_a_known_mnemonic() {
    let seed = mnemonic_to_seed(PHRASE).unwrap();
    let accounts = derive_evm_accounts(&seed, 2).unwrap();
    assert_eq!(accounts.len(), 2);
    assert_eq!(accounts[0].address, "0x9858EfFD232B4033E47d90003D41EC34EcaEda94");
    assert_eq!(accounts[1].address, "0x6Fac4D18c912343BF86fa7049364Dd4E424Ab9C0");
    for (i, account) in accounts.iter().enumerate() {
        assert_eq!(account.chain, "evm");
        assert_eq!(account.chain_name, "Ethereum");
        assert_eq!(account.derivation_path, format!("m/44'/60'/0'/0/{}", i));
        assert_eq!(account.index as usize, i);
    }
}

#[test]
fn solana_accounts_have_base58_addresses() {
    let seed = mnemonic_to_seed(PHRASE).unwrap();
    let accounts = derive_solana_accounts(&seed, 3).unwrap();
    assert_eq!(accounts.len(), 3);
    for (i, account) in accounts.iter().enumerate() {
        assert_eq!(account.chain, "solana");
        assert_eq!(account.chain_name, "Solana");
        assert_eq!(account.derivation_path, format!("m/44'/501'/{}'/0'", i));
        assert_eq!(account.index as usize, i);
        assert!(account.address.len() >= 32 && account.address.len() <= 44);
        assert!(account.address.chars().all(|c| c.is_ascii_alphanumeric()));
        assert!(ssh_m::blockchain::solana::solana_pubkey(&account.address).is_ok());
    }
    assert_ne!(accounts[0].address, accounts[1].address);
    assert_ne!(accounts[1].address, accounts[2].address);
}

#[test]
fn derivation_is_deterministic() {
    let chains = vec!["evm".to_string(), "solana".to_string(), "bitcoin".to_string()];
    let a = derive_accounts(PHRASE, "v".to_string(), "i".to_string(), &chains, 3).unwrap();
    let b = derive_accounts(PHRASE, "v".to_string(), "i".to_string(), &chains, 3).unwrap();
    for (x, y) in [(&a.evm, &b.evm), (&a.solana, &b.solana), (&a.bitcoin, &b.bitcoin)] {
        assert_eq!(x.len(), 3);
        assert_eq!(y.len(), 3);
        for i in 0..3 {
            assert_eq!(x[i].address, y[i].address);
            assert_eq!(x[i].derivation_path, y[i].derivation_path);
            assert_eq!(x[i].index, y[i].index);
        }
    }
}

#[test]
fn only_requested_families_are_derived() {
    let chains = vec!["bitcoin".to_string()];
    let r = derive_accounts(PHRASE, "Vault".to_string(), "Item".to_string(), &chains, 1).unwrap();
    assert!(r.evm.is_empty());
    assert!(r.solana.is_empty());
    assert_eq!(r.bitcoin.len(), 1);
    assert_eq!(r.bitcoin[0].address, "bc1qcr8te4kr609gcawutmrza0j4xv80jy8z306fyu");
    assert_eq!(r.source_vault, "Vault");
    assert_eq!(r.source_item, "Item");
    let none: Vec<String> = Vec::new();
    let r = derive_accounts(PHRASE, String::new(), String::new(), &none, 5).unwrap();
    assert!(r.evm.is_empty() && r.solana.is_empty() && r.bitcoin.is_empty());
}

#[test]
fn count_zero_gives_no_accounts() {
    let seed = mnemonic_to_seed(PHRASE).unwrap();
    assert!(derive_bitcoin_accounts(&seed, 0).unwrap().is_empty());
    assert!(derive_evm_accounts(&seed, 0).unwrap().is_empty());
    assert!(derive_solana_accounts(&seed, 0).unwrap().is_empty());
}

#[test]
fn unsupported_chain_fails_the_whole_call() {
    let chains = vec!["evm".to_string(), "dogecoin".to_string(), "bitcoin".to_string()];
    let r = derive_accounts(PHRASE, "v".to_string(), "i".to_string(), &chains, 2);
    assert!(matches!(r, Err(DeriveError::UnsupportedChain)));
    let chains = vec!["EVM".to_string()];
    let r = derive_accounts(PHRASE, "v".to_string(), "i".to_string(), &chains, 2);
    assert!(matches!(r, Err(DeriveError::UnsupportedChain)));
}

#[test]
fn invalid_mnemonic_comes_before_unsupported_chain() {
    let chains = vec!["dogecoin".to_string()];
    let r = derive_accounts("not a mnemonic", "v".to_string(), "i".to_string(), &chains, 1);
    assert!(matches!(r, Err(DeriveError::InvalidMnemonic)));
}

#[test]
fn malformed_paths_are_refused() {
    let seed = mnemonic_to_seed(PHRASE).unwrap();
    assert!(matches!(derive_child(&seed, "m/44'/x"), Err(DeriveError::InvalidPath)));
    assert!(matches!(derive_child(&seed, "m//0"), Err(DeriveError::InvalidPath)));
    assert!(matches!(
        derive_single_bitcoin_account(&seed, "m/84'/0'/0'/0/2147483648", 0),
        Err(DeriveError::InvalidPath)
    ));
    assert!(derive_child(&seed, "m/44'/60'/0'/0/3").is_ok());
}

#[test]
fn the_key_at_a_path_differs_from_the_seed() {
    let seed = SecureSeed { bytes: vec![7u8; 64] };
    let a = derive_child(&seed, "m/0").unwrap();
    let b = derive_child(&seed, "m/1").unwrap();
    let c = derive_child(&seed, "m/0'").unwrap();
    assert_ne!(a.bytes, b.bytes);
    assert_ne!(a.bytes, c.bytes);
    assert_ne!(&a.bytes[..], &seed.bytes[..32]);
    let again = derive_child(&seed, "m/0").unwrap();
    assert_eq!(a.bytes, again.bytes);
}

#[test]
fn an_index_beyond_the_tree_fails_with_the_path() {
    let seed = mnemonic_to_seed(PHRASE).unwrap();
    let r = derive_single_bitcoin_account(&seed, &bitcoin_derivation_path(u32::MAX), u32::MAX);
    assert!(matches!(r, Err(DeriveError::InvalidPath)));
}

#[test]
fn a_path_deeper_than_the_tree_allows_fails_the_derivation() {
    let seed = mnemonic_to_seed(PHRASE).unwrap();
    let deepest = format!("m{}", "/0".repeat(255));
    assert!(derive_child(&seed, &deepest).is_ok());
    let too_deep = format!("m{}", "/0".repeat(256));
    assert!(matches!(derive_child(&seed, &too_deep), Err(DeriveError::DerivationFailure)));
    assert!(matches!(
        derive_single_bitcoin_account(&seed, &too_deep, 0),
        Err(DeriveError::DerivationFailure)
    ));
}

#[test]
fn outcomes_of_a_walk() {
    let key = || Some(ChildKey { bytes: [9u8; 32] });
    assert!(matches!(child_key_from(false, true, key()), Err(DeriveError::DerivationFailure)));
    assert!(matches!(child_key_from(false, false, None), Err(DeriveError::DerivationFailure)));
    assert!(matches!(child_key_from(true, false, key()), Err(DeriveError::InvalidPath)));
    assert!(matches!(child_key_from(true, true, None), Err(DeriveError::DerivationFailure)));
    assert_eq!(child_key_from(true, true, key()).ok().unwrap().bytes, [9u8; 32]);
}

#[test]
fn a_key_without_an_address_is_an_encoding_failure() {
    assert!(matches!(bitcoin_account_from(None, "m/0", 0), Err(DeriveError::KeyEncodingFailure)));
    assert!(matches!(evm_account_from(None, "m/0", 0), Err(DeriveError::KeyEncodingFailure)));
    assert!(matches!(solana_account_from(None, "m/0", 0), Err(DeriveError::KeyEncodingFailure)));
    let account = bitcoin_account_from(Some("bc1qx".to_string()), "m/84'/0'/0'/0/7", 7).unwrap();
    assert_eq!(account.address, "bc1qx");
    assert_eq!(account.chain, "bitcoin");
    assert_eq!(account.chain_name, "Bitcoin");
    assert_eq!(account.derivation_path, "m/84'/0'/0'/0/7");
    assert_eq!(account.index, 7);
    let account = evm_account_from(Some("0xabc".to_string()), "p", 1).unwrap();
    assert_eq!((account.chain.as_str(), account.chain_name.as_str()), ("evm", "Ethereum"));
    let account = solana_account_from(Some("So1".to_string()), "p", 2).unwrap();
    assert_eq!((account.chain.as_str(), account.chain_name.as_str()), ("solana", "Solana"));
}

#[test]
fn errors_in_words() {
    assert_eq!(DeriveError::InvalidMnemonic.message(), "Invalid mnemonic");
    assert_eq!(DeriveError::InvalidPath.message(), "Invalid derivation path");
    assert_eq!(DeriveError::DerivationFailure.message(), "Failed to derive key");
    assert_eq!(DeriveError::KeyEncodingFailure.message(), "Failed to encode key");
    assert_eq!(DeriveError::UnsupportedChain.message(), "Unsupported chain type");
    assert_eq!(QueryError::InvalidAddress.message(), "Invalid address");
    assert_eq!(QueryError::EndpointError.message(), "Endpoint error");
    assert_eq!(QueryError::ResponseParseError.message(), "Failed to parse response");
}

#[test]
fn a_seed_from_what_the_parser_made() {
    assert_eq!(seed_from(Some(vec![1, 2, 3])).ok().unwrap().bytes, [1, 2, 3]);
    assert!(matches!(seed_from(None), Err(DeriveError::InvalidMnemonic)));
}
