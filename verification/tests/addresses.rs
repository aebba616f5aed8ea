use ssh_m::crypto::bitcoin::bitcoin_address;
use ssh_m::crypto::evm::evm_address;
use ssh_m::crypto::hd::ChildKey;
use ssh_m::crypto::solana::solana_address;
use ssh_m::crypto::types::SecureSeed;

fn key(hex: &str) -> ChildKey {
    let mut bytes = [0u8; 32];
    for i in 0..32 {
        bytes[i] = u8::from_str_radix(&hex[2 * i..2 * i + 2], 16).unwrap();
    }
    ChildKey { bytes }
}

fn key_one() -> ChildKey {
    let mut bytes = [0u8; 32];
    bytes[31] = 1;
    ChildKey { bytes }
}

#[test]
fn segwit_address_of_a_known_key() {
    assert_eq!(
        bitcoin_address(&key_one()).as_deref(),
        Some("bc1qw508d6qejxtdg4y5r3zarvary0c5xw7kv8f3t4")
    );
}

#[test]
fn checksummed_address_of_a_known_key() {
    assert_eq!(
        evm_address(&key_one()).as_deref(),
        Some("0x7E5F4552091A69125d5DfCb7b8C2659029395Bdf")
    );
}

#[test]
fn ed25519_address_of_known_seeds() {
    let first = key("9d61b19deffd5a60ba844af492ec2cc44449c5697b326919703bac031cae7f60");
    assert_eq!(
        solana_address(&first).as_deref(),
        Some("FVen3X669xLzsi6N2V91DoiyzHzg1uAgqiT8jZ9nS96Z")
    );
    let second = key("4ccd089b28ff96da9db6c346ec114e0f5b8a319f35aba624da8cf6ed4fb8a6fb");
    assert_eq!(
        solana_address(&second).as_deref(),
        Some("586Z7H2vpX9qNhN2T4e9Utugie3ogjbxzGaMtM3E6HR5")
    );
}

#[test]
fn bytes_that_are_no_secp256k1_key_have_no_address() {
    let zero = ChildKey { bytes: [0u8; 32] };
    assert_eq!(bitcoin_address(&zero), None);
    assert_eq!(evm_address(&zero), None);
    let beyond_the_order = ChildKey { bytes: [255u8; 32] };
    assert_eq!(bitcoin_address(&beyond_the_order), None);
    assert_eq!(evm_address(&beyond_the_order), None);
    assert!(solana_address(&zero).is_some());
}

#[test]
fn a_wiped_seed_is_empty() {
    let mut seed = SecureSeed { bytes: vec![7u8; 64] };
    seed.wipe();
    assert!(seed.bytes.is_empty());
}
