//! Accounts of the ed25519 chain.
//!
//! The key at the path is taken from the secp256k1 tree and its 32 bytes
//! seed the ed25519 key pair. Wallets that walk a hardened-only ed25519 tree
//! arrive at other addresses for the same mnemonic.

use crate::crypto::hd::ChildKey;
use crate::crypto::hd::child_key_of;
use crate::crypto::hd::derive_child;
use crate::crypto::types::DeriveError;
use crate::crypto::types::DerivedAccount;
use crate::crypto::types::DerivedAccountView;
use crate::crypto::types::SecureSeed;
use crate::crypto::types::derived_accounts;
use crate::crypto::types::derived_result_view;
use crate::crypto::types::derived_views;
use crate::crypto::types::lemma_derived_accounts_each;
use crate::crypto::types::lemma_derived_accounts_error;
use crate::text::decimal_digits;
use crate::text::opt_text;
use crate::text::push_decimal;
use vstd::prelude::*;

verus! {

/// The ed25519 public key of the key pair that 32 bytes seed, where
/// `solana_keypair::keypair_from_seed` makes one.
pub uninterp spec fn ed25519_public_key(seed: Seq<u8>) -> Option<Seq<u8>>;

/// The base-58 text of a public key.
pub uninterp spec fn base58_address(key: Seq<u8>) -> Seq<char>;

/// `solana_keypair::keypair_from_seed` and `Signer::pubkey`: the public key
/// of the key pair seeded with the key's bytes, `None` where none is made.
#[verifier::external_body]
fn keypair_public_key(key: &ChildKey) -> (r: Option<[u8; 32]>)
    ensures
        r is Some <==> ed25519_public_key(key.bytes@) is Some,
        r matches Some(public) ==> ed25519_public_key(key.bytes@) == Some(public@),
{
    match solana_keypair::keypair_from_seed(&key.bytes) {
        Ok(pair) => Some(solana_signer::Signer::pubkey(&pair).to_bytes()),
        Err(_) => None,
    }
}

/// `Display` of `solana_pubkey::Pubkey`: the key in base 58.
#[verifier::external_body]
fn pubkey_text(key: &[u8; 32]) -> (r: String)
    ensures
        r@ == base58_address(key@),
{
    solana_pubkey::Pubkey::from(*key).to_string()
}

/// The path of account number `index`: `m/44'/501'/{index}'/0'`.
pub open spec fn solana_path(index: u32) -> Seq<char> {
    "m/44'/501'/"@ + decimal_digits(index as nat) + "'/0'"@
}

/// The address of a private key.
pub open spec fn solana_address_of(key: Seq<u8>) -> Option<Seq<char>> {
    match ed25519_public_key(key) {
        Some(public) => Some(base58_address(public)),
        None => None,
    }
}

/// The account with the given address.
pub open spec fn solana_account_view(address: Seq<char>, path: Seq<char>, index: u32)
    -> DerivedAccountView {
    DerivedAccountView {
        address,
        chain: "solana"@,
        chain_name: "Solana"@,
        derivation_path: path,
        index,
    }
}

/// The account at `path` below `seed`.
pub open spec fn solana_account_at(seed: Seq<u8>, path: Seq<char>, index: u32) -> Result<
    DerivedAccountView,
    DeriveError,
> {
    match child_key_of(seed, path) {
        Err(e) => Err(e),
        Ok(key) => match solana_address_of(key) {
            None => Err(DeriveError::KeyEncodingFailure),
            Some(address) => Ok(solana_account_view(address, path, index)),
        },
    }
}

/// The account number `index` below `seed`.
pub open spec fn solana_account(seed: Seq<u8>) -> spec_fn(u32) -> Result<
    DerivedAccountView,
    DeriveError,
> {
    |index: u32| solana_account_at(seed, solana_path(index), index)
}

/// The path of account number `index`.
pub fn solana_derivation_path(index: u32) -> (r: String)
    ensures
        r@ == solana_path(index),
{
    let mut path = String::from_str("m/44'/501'/");
    push_decimal(&mut path, index as u64);
    path.append("'/0'");
    path
}

/// The account with the address that the key encoding made, if it made one.
pub fn solana_account_from(address: Option<String>, path: &str, index: u32) -> (r: Result<
    DerivedAccount,
    DeriveError,
>)
    ensures
        match address {
            Some(a) => r is Ok && r->Ok_0@ == solana_account_view(a@, path@, index),
            None => r == Err::<DerivedAccount, DeriveError>(DeriveError::KeyEncodingFailure),
        },
{
    match address {
        Some(a) => Ok(
            DerivedAccount {
                address: a,
                chain: String::from_str("solana"),
                chain_name: String::from_str("Solana"),
                derivation_path: String::from_str(path),
                index,
            },
        ),
        None => Err(DeriveError::KeyEncodingFailure),
    }
}

/// The address of the key pair that a private key seeds.
pub fn solana_address(key: &ChildKey) -> (r: Option<String>)
    ensures
        opt_text(r) == solana_address_of(key.bytes@),
{
    match keypair_public_key(key) {
        Some(public) => Some(pubkey_text(&public)),
        None => None,
    }
}

/// The account at `path` below `seed`, numbered `index`.
pub fn derive_single_solana_account(seed: &SecureSeed, path: &str, index: u32) -> (r: Result<
    DerivedAccount,
    DeriveError,
>)
    ensures
        match solana_account_at(seed@, path@, index) {
            Ok(account) => r is Ok && r->Ok_0@ == account,
            Err(e) => r == Err::<DerivedAccount, DeriveError>(e),
        },
{
    let key = match derive_child(seed, path) {
        Ok(key) => key,
        Err(e) => {
            return Err(e);
        },
    };
    let address = solana_address(&key);
    solana_account_from(address, path, index)
}

/// The accounts `0..count` below `seed`: all of them, or the first failure.
pub fn derive_solana_accounts(seed: &SecureSeed, count: u32) -> (r: Result<
    Vec<DerivedAccount>,
    DeriveError,
>)
    ensures
        derived_result_view(r) == derived_accounts(solana_account(seed@), count as nat),
        r matches Ok(accounts) ==> accounts@.len() == count && forall|i: int|
            0 <= i < count ==> (#[trigger] accounts@[i]).derivation_path@ == solana_path(i as u32)
                && accounts@[i].index == i,
{
    let mut accounts: Vec<DerivedAccount> = Vec::new();
    let mut i: u32 = 0;
    assert(derived_views(accounts@) =~= Seq::empty());
    while i < count
        invariant
            i <= count,
            derived_accounts(solana_account(seed@), i as nat) == Ok::<
                Seq<DerivedAccountView>,
                DeriveError,
            >(derived_views(accounts@)),
        decreases count - i,
    {
        let path = solana_derivation_path(i);
        let ghost before = accounts@;
        match derive_single_solana_account(seed, path.as_str(), i) {
            Ok(account) => {
                accounts.push(account);
                assert(derived_views(accounts@) =~= derived_views(before).push(account@));
            },
            Err(e) => {
                proof {
                    lemma_derived_accounts_error(
                        solana_account(seed@),
                        (i + 1) as nat,
                        count as nat,
                    );
                }
                return Err(e);
            },
        }
        i += 1;
    }
    proof {
        lemma_derived_accounts_each(solana_account(seed@), count as nat);
        assert forall|j: int| 0 <= j < count implies (#[trigger] accounts@[j]).derivation_path@
            == solana_path(j as u32) && accounts@[j].index == j by {
            assert(derived_views(accounts@)[j] == accounts@[j]@);
        }
    }
    Ok(accounts)
}

} // verus!
