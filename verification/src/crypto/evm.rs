//! Accounts of the account-model chain family.

use crate::crypto::hd::ChildKey;
use crate::crypto::hd::child_key_of;
use crate::crypto::hd::derive_child;
use crate::crypto::types::DeriveError;
use crate::crypto::types::DerivedAccount;
use crate::crypto::types::DerivedAccountView;
use crate::crypto::types::SecureSeed;
use crate::crypto::types::derived_accounts;
use crate::crypto::types::derived_result_view;
use crate::crypto::types::derived_views;
use crate::crypto::types::lemma_derived_accounts_each;
use crate::crypto::types::lemma_derived_accounts_error;
use crate::text::decimal_digits;
use crate::text::opt_text;
use crate::text::push_decimal;
use vstd::prelude::*;

verus! {

/// The account of a secp256k1 private key: the last 20 bytes of the
/// Keccak-256 digest of its public key, where the bytes are a valid key.
pub uninterp spec fn evm_signer_address(key: Seq<u8>) -> Option<Seq<u8>>;

/// The text of an account in mixed-case checksum encoding.
pub uninterp spec fn checksum_address(account: Seq<u8>) -> Seq<char>;

/// `alloy_signer_local::PrivateKeySigner::from_slice` and `address`: the
/// account that a private key signs for, `None` where the bytes are no key.
#[verifier::external_body]
fn signer_address(key: &ChildKey) -> (r: Option<[u8; 20]>)
    ensures
        r is Some <==> evm_signer_address(key.bytes@) is Some,
        r matches Some(account) ==> evm_signer_address(key.bytes@) == Some(account@),
{
    match alloy::signers::local::PrivateKeySigner::from_slice(&key.bytes) {
        Ok(signer) => Some(signer.address().into_array()),
        Err(_) => None,
    }
}

/// `alloy_primitives::Address::to_checksum` without a chain id: `0x` and 40
/// hexadecimal digits whose case carries the checksum.
#[verifier::external_body]
fn to_checksum(account: &[u8; 20]) -> (r: String)
    ensures
        r@ == checksum_address(account@),
{
    alloy::primitives::Address::new(*account).to_checksum(None)
}

/// The path of account number `index`: `m/44'/60'/0'/0/{index}`.
pub open spec fn evm_path(index: u32) -> Seq<char> {
    "m/44'/60'/0'/0/"@ + decimal_digits(index as nat)
}

/// The address of a private key.
pub open spec fn evm_address_of(key: Seq<u8>) -> Option<Seq<char>> {
    match evm_signer_address(key) {
        Some(account) => Some(checksum_address(account)),
        None => None,
    }
}

/// The account with the given address.
pub open spec fn evm_account_view(address: Seq<char>, path: Seq<char>, index: u32)
    -> DerivedAccountView {
    DerivedAccountView {
        address,
        chain: "evm"@,
        chain_name: "Ethereum"@,
        derivation_path: path,
        index,
    }
}

/// The account at `path` below `seed`.
pub open spec fn evm_account_at(seed: Seq<u8>, path: Seq<char>, index: u32) -> Result<
    DerivedAccountView,
    DeriveError,
> {
    match child_key_of(seed, path) {
        Err(e) => Err(e),
        Ok(key) => match evm_address_of(key) {
            None => Err(DeriveError::KeyEncodingFailure),
            Some(address) => Ok(evm_account_view(address, path, index)),
        },
    }
}

/// The account number `index` below `seed`.
pub open spec fn evm_account(seed: Seq<u8>) -> spec_fn(u32) -> Result<
    DerivedAccountView,
    DeriveError,
> {
    |index: u32| evm_account_at(seed, evm_path(index), index)
}

/// The path of account number `index`.
pub fn evm_derivation_path(index: u32) -> (r: String)
    ensures
        r@ == evm_path(index),
{
    let mut path = String::from_str("m/44'/60'/0'/0/");
    push_decimal(&mut path, index as u64);
    path
}

/// The account with the address that the key encoding made, if it made one.
pub fn evm_account_from(address: Option<String>, path: &str, index: u32) -> (r: Result<
    DerivedAccount,
    DeriveError,
>)
    ensures
        match address {
            Some(a) => r is Ok && r->Ok_0@ == evm_account_view(a@, path@, index),
            None => r == Err::<DerivedAccount, DeriveError>(DeriveError::KeyEncodingFailure),
        },
{
    match address {
        Some(a) => Ok(
            DerivedAccount {
                address: a,
                chain: String::from_str("evm"),
                chain_name: String::from_str("Ethereum"),
                derivation_path: String::from_str(path),
                index,
            },
        ),
        None => Err(DeriveError::KeyEncodingFailure),
    }
}

/// The checksummed address of a private key.
pub fn evm_address(key: &ChildKey) -> (r: Option<String>)
    ensures
        opt_text(r) == evm_address_of(key.bytes@),
{
    match signer_address(key) {
        Some(account) => Some(to_checksum(&account)),
        None => None,
    }
}

/// The account at `path` below `seed`, numbered `index`.
pub fn derive_single_evm_account(seed: &SecureSeed, path: &str, index: u32) -> (r: Result<
    DerivedAccount,
    DeriveError,
>)
    ensures
        match evm_account_at(seed@, path@, index) {
            Ok(account) => r is Ok && r->Ok_0@ == account,
            Err(e) => r == Err::<DerivedAccount, DeriveError>(e),
        },
{
    let key = match derive_child(seed, path) {
        Ok(key) => key,
        Err(e) => {
            return Err(e);
        },
    };
    let address = evm_address(&key);
    evm_account_from(address, path, index)
}

/// The accounts `0..count` below `seed`: all of them, or the first failure.
pub fn derive_evm_accounts(seed: &SecureSeed, count: u32) -> (r: Result<
    Vec<DerivedAccount>,
    DeriveError,
>)
    ensures
        derived_result_view(r) == derived_accounts(evm_account(seed@), count as nat),
        r matches Ok(accounts) ==> accounts@.len() == count && forall|i: int|
            0 <= i < count ==> (#[trigger] accounts@[i]).derivation_path@ == evm_path(i as u32)
                && accounts@[i].index == i,
{
    let mut accounts: Vec<DerivedAccount> = Vec::new();
    let mut i: u32 = 0;
    assert(derived_views(accounts@) =~= Seq::empty());
    while i < count
        invariant
            i <= count,
            derived_accounts(evm_account(seed@), i as nat) == Ok::<
                Seq<DerivedAccountView>,
                DeriveError,
            >(derived_views(accounts@)),
        decreases count - i,
    {
        let path = evm_derivation_path(i);
        let ghost before = accounts@;
        match derive_single_evm_account(seed, path.as_str(), i) {
            Ok(account) => {
                accounts.push(account);
                assert(derived_views(accounts@) =~= derived_views(before).push(account@));
            },
            Err(e) => {
                proof {
                    lemma_derived_accounts_error(
                        evm_account(seed@),
                        (i + 1) as nat,
                        count as nat,
                    );
                }
                return Err(e);
            },
        }
        i += 1;
    }
    proof {
        lemma_derived_accounts_each(evm_account(seed@), count as nat);
        assert forall|j: int| 0 <= j < count implies (#[trigger] accounts@[j]).derivation_path@
            == evm_path(j as u32) && accounts@[j].index == j by {
            assert(derived_views(accounts@)[j] == accounts@[j]@);
        }
    }
    Ok(accounts)
}

} // verus!
