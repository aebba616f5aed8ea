//! Native-segwit accounts of the UTXO chain.

use crate::crypto::hd::ChildKey;
use crate::crypto::hd::child_key_of;
use crate::crypto::hd::derive_child;
use crate::crypto::types::DeriveError;
use crate::crypto::types::DerivedAccount;
use crate::crypto::types::DerivedAccountView;
use crate::crypto::types::SecureSeed;
use crate::crypto::types::derived_accounts;
use crate::crypto::types::derived_result_view;
use crate::crypto::types::derived_views;
use crate::crypto::types::lemma_derived_accounts_each;
use crate::crypto::types::lemma_derived_accounts_error;
use crate::text::decimal_digits;
use crate::text::opt_text;
use crate::text::push_decimal;
use vstd::prelude::*;

verus! {

/// The compressed public key of a secp256k1 private key, where the bytes
/// are a valid key.
pub uninterp spec fn secp256k1_public_key(key: Seq<u8>) -> Option<Seq<u8>>;

/// The native-segwit main-network address of a compressed public key, where
/// the bytes are one.
pub uninterp spec fn p2wpkh_address(public_key: Seq<u8>) -> Option<Seq<char>>;

/// `bitcoin::CompressedPublicKey::from_private_key` and `to_bytes`: the 33
/// bytes of the compressed public key, `None` where the bytes are no key.
#[verifier::external_body]
fn compressed_public_key(key: &ChildKey) -> (r: Option<[u8; 33]>)
    ensures
        r is Some <==> secp256k1_public_key(key.bytes@) is Some,
        r matches Some(public) ==> secp256k1_public_key(key.bytes@) == Some(public@),
{
    let secp = secp256k1::Secp256k1::new();
    match secp256k1::SecretKey::from_slice(&key.bytes) {
        Ok(secret) => {
            let private = bitcoin::PrivateKey::new(secret, bitcoin::Network::Bitcoin);
            match bitcoin::CompressedPublicKey::from_private_key(&secp, &private) {
                Ok(public) => Some(public.to_bytes()),
                Err(_) => None,
            }
        },
        Err(_) => None,
    }
}

/// `bitcoin::Address::p2wpkh` on the main network, and its `Display`: the
/// bech32 address of a compressed public key, `None` where the bytes are no
/// such key.
#[verifier::external_body]
fn segwit_address(public_key: &[u8; 33]) -> (r: Option<String>)
    ensures
        r is Some <==> p2wpkh_address(public_key@) is Some,
        r matches Some(address) ==> p2wpkh_address(public_key@) == Some(address@),
{
    match bitcoin::CompressedPublicKey::from_slice(public_key) {
        Ok(public) => Some(bitcoin::Address::p2wpkh(&public, bitcoin::Network::Bitcoin).to_string()),
        Err(_) => None,
    }
}

/// The path of account number `index`: `m/84'/0'/0'/0/{index}`.
pub open spec fn bitcoin_path(index: u32) -> Seq<char> {
    "m/84'/0'/0'/0/"@ + decimal_digits(index as nat)
}

/// The address of a private key.
pub open spec fn bitcoin_address_of(key: Seq<u8>) -> Option<Seq<char>> {
    match secp256k1_public_key(key) {
        Some(public) => p2wpkh_address(public),
        None => None,
    }
}

/// The account with the given address.
pub open spec fn bitcoin_account_view(address: Seq<char>, path: Seq<char>, index: u32)
    -> DerivedAccountView {
    DerivedAccountView {
        address,
        chain: "bitcoin"@,
        chain_name: "Bitcoin"@,
        derivation_path: path,
        index,
    }
}

/// The account at `path` below `seed`.
pub open spec fn bitcoin_account_at(seed: Seq<u8>, path: Seq<char>, index: u32) -> Result<
    DerivedAccountView,
    DeriveError,
> {
    match child_key_of(seed, path) {
        Err(e) => Err(e),
        Ok(key) => match bitcoin_address_of(key) {
            None => Err(DeriveError::KeyEncodingFailure),
            Some(address) => Ok(bitcoin_account_view(address, path, index)),
        },
    }
}

/// The account number `index` below `seed`.
pub open spec fn bitcoin_account(seed: Seq<u8>) -> spec_fn(u32) -> Result<
    DerivedAccountView,
    DeriveError,
> {
    |index: u32| bitcoin_account_at(seed, bitcoin_path(index), index)
}

/// The path of account number `index`.
pub fn bitcoin_derivation_path(index: u32) -> (r: String)
    ensures
        r@ == bitcoin_path(index),
{
    let mut path = String::from_str("m/84'/0'/0'/0/");
    push_decimal(&mut path, index as u64);
    path
}

/// The account with the address that the key encoding made, if it made one.
pub fn bitcoin_account_from(address: Option<String>, path: &str, index: u32) -> (r: Result<
    DerivedAccount,
    DeriveError,
>)
    ensures
        match address {
            Some(a) => r is Ok && r->Ok_0@ == bitcoin_account_view(a@, path@, index),
            None => r == Err::<DerivedAccount, DeriveError>(DeriveError::KeyEncodingFailure),
        },
{
    match address {
        Some(a) => Ok(
            DerivedAccount {
                address: a,
                chain: String::from_str("bitcoin"),
                chain_name: String::from_str("Bitcoin"),
                derivation_path: String::from_str(path),
                index,
            },
        ),
        None => Err(DeriveError::KeyEncodingFailure),
    }
}

/// The native-segwit address of a private key.
pub fn bitcoin_address(key: &ChildKey) -> (r: Option<String>)
    ensures
        opt_text(r) == bitcoin_address_of(key.bytes@),
{
    match compressed_public_key(key) {
        Some(public) => segwit_address(&public),
        None => None,
    }
}

/// The account at `path` below `seed`, numbered `index`.
pub fn derive_single_bitcoin_account(seed: &SecureSeed, path: &str, index: u32) -> (r: Result<
    DerivedAccount,
    DeriveError,
>)
    ensures
        match bitcoin_account_at(seed@, path@, index) {
            Ok(account) => r is Ok && r->Ok_0@ == account,
            Err(e) => r == Err::<DerivedAccount, DeriveError>(e),
        },
{
    let key = match derive_child(seed, path) {
        Ok(key) => key,
        Err(e) => {
            return Err(e);
        },
    };
    let address = bitcoin_address(&key);
    bitcoin_account_from(address, path, index)
}

/// The accounts `0..count` below `seed`: all of them, or the first failure.
pub fn derive_bitcoin_accounts(seed: &SecureSeed, count: u32) -> (r: Result<
    Vec<DerivedAccount>,
    DeriveError,
>)
    ensures
        derived_result_view(r) == derived_accounts(bitcoin_account(seed@), count as nat),
        r matches Ok(accounts) ==> accounts@.len() == count && forall|i: int|
            0 <= i < count ==> (#[trigger] accounts@[i]).derivation_path@ == bitcoin_path(i as u32)
                && accounts@[i].index == i,
{
    let mut accounts: Vec<DerivedAccount> = Vec::new();
    let mut i: u32 = 0;
    assert(derived_views(accounts@) =~= Seq::empty());
    while i < count
        invariant
            i <= count,
            derived_accounts(bitcoin_account(seed@), i as nat) == Ok::<
                Seq<DerivedAccountView>,
                DeriveError,
            >(derived_views(accounts@)),
        decreases count - i,
    {
        let path = bitcoin_derivation_path(i);
        let ghost before = accounts@;
        match derive_single_bitcoin_account(seed, path.as_str(), i) {
            Ok(account) => {
                accounts.push(account);
                assert(derived_views(accounts@) =~= derived_views(before).push(account@));
            },
            Err(e) => {
                proof {
                    lemma_derived_accounts_error(
                        bitcoin_account(seed@),
                        (i + 1) as nat,
                        count as nat,
                    );
                }
                return Err(e);
            },
        }
        i += 1;
    }
    proof {
        lemma_derived_accounts_each(bitcoin_account(seed@), count as nat);
        assert forall|j: int| 0 <= j < count implies (#[trigger] accounts@[j]).derivation_path@
            == bitcoin_path(j as u32) && accounts@[j].index == j by {
            assert(derived_views(accounts@)[j] == accounts@[j]@);
        }
    }
    Ok(accounts)
}

} // verus!
