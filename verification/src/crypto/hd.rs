//! The hierarchical key tree below a seed: one walk, shared by every chain
//! family.

use crate::crypto::types::DeriveError;
use crate::crypto::types::SecureSeed;
use vstd::prelude::*;

verus! {

/// The serialised master key of the tree below `seed`, where
/// `bitcoin::bip32::Xpriv::new_master` finds one.
pub uninterp spec fn bip32_master(seed: Seq<u8>) -> Option<Seq<u8>>;

/// The child numbers that a textual path names, hardened ones with their
/// highest bit set, where `bitcoin::bip32::DerivationPath` accepts the text.
pub uninterp spec fn bip32_path(path: Seq<char>) -> Option<Seq<u32>>;

/// The private key at `path` below the serialised key `parent`, where
/// `bitcoin::bip32::Xpriv::derive_priv` finds one.
pub uninterp spec fn bip32_child(parent: Seq<u8>, path: Seq<u32>) -> Option<Seq<u8>>;

/// An extended private key in its 78-byte serialisation.
pub struct ExtendedKey {
    pub bytes: [u8; 78],
}

/// The private key of a node of the tree.
pub struct ChildKey {
    pub bytes: [u8; 32],
}

/// `bitcoin::bip32::Xpriv::new_master` on the main network, and
/// `Xpriv::encode`: the master key of a seed, `None` where the seed gives no
/// valid key.
#[verifier::external_body]
fn master_key(seed: &[u8]) -> (r: Option<ExtendedKey>)
    ensures
        r is Some <==> bip32_master(seed@) is Some,
        r matches Some(key) ==> bip32_master(seed@) == Some(key.bytes@),
{
    match bitcoin::bip32::Xpriv::new_master(bitcoin::NetworkKind::Main, seed) {
        Ok(master) => Some(ExtendedKey { bytes: master.encode() }),
        Err(_) => None,
    }
}

/// `FromStr` of `bitcoin::bip32::DerivationPath`, through `str::parse`, and
/// `DerivationPath::to_u32_vec`: the child numbers of a path such as
/// `m/44'/60'/0'/0/3`, `None` where the text is malformed.
#[verifier::external_body]
fn parse_path(path: &str) -> (r: Option<Vec<u32>>)
    ensures
        r is Some <==> bip32_path(path@) is Some,
        r matches Some(numbers) ==> bip32_path(path@) == Some(numbers@),
{
    match path.parse::<bitcoin::bip32::DerivationPath>() {
        Ok(parsed) => Some(parsed.to_u32_vec()),
        Err(_) => None,
    }
}

/// `bitcoin::bip32::Xpriv::derive_priv`: the private key at `path` below
/// `parent`, `None` where the walk fails. The outside function gives up with
/// a panic where an intermediate hash is no valid key, which no known input
/// brings about.
#[verifier::external_body]
fn derive_priv(parent: &ExtendedKey, path: &Vec<u32>) -> (r: Option<ChildKey>)
    ensures
        r is Some <==> bip32_child(parent.bytes@, path@) is Some,
        r matches Some(key) ==> bip32_child(parent.bytes@, path@) == Some(key.bytes@),
{
    let secp = secp256k1::Secp256k1::new();
    let numbers: Vec<bitcoin::bip32::ChildNumber> =
        path.iter().map(|n| bitcoin::bip32::ChildNumber::from(*n)).collect();
    match bitcoin::bip32::Xpriv::decode(&parent.bytes) {
        Ok(key) => match key.derive_priv(&secp, &numbers) {
            Ok(child) => Some(ChildKey { bytes: child.private_key.secret_bytes() }),
            Err(_) => None,
        },
        Err(_) => None,
    }
}

/// The private key at `path` below `seed`: the seed must give a master key,
/// the path must be well formed, and the walk must succeed.
pub open spec fn child_key_of(seed: Seq<u8>, path: Seq<char>) -> Result<Seq<u8>, DeriveError> {
    match bip32_master(seed) {
        None => Err(DeriveError::DerivationFailure),
        Some(master) => match bip32_path(path) {
            None => Err(DeriveError::InvalidPath),
            Some(numbers) => match bip32_child(master, numbers) {
                None => Err(DeriveError::DerivationFailure),
                Some(key) => Ok(key),
            },
        },
    }
}

/// The bytes of a derived key.
pub open spec fn child_key_view(r: Result<ChildKey, DeriveError>) -> Result<
    Seq<u8>,
    DeriveError,
> {
    match r {
        Ok(key) => Ok(key.bytes@),
        Err(e) => Err(e),
    }
}

/// The outcome of a walk, given what each of its steps made.
pub fn child_key_from(
    master_found: bool,
    path_found: bool,
    child: Option<ChildKey>,
) -> (r: Result<ChildKey, DeriveError>)
    ensures
        !master_found ==> r == Err::<ChildKey, DeriveError>(DeriveError::DerivationFailure),
        master_found && !path_found ==> r == Err::<ChildKey, DeriveError>(
            DeriveError::InvalidPath,
        ),
        master_found && path_found && child is None ==> r == Err::<ChildKey, DeriveError>(
            DeriveError::DerivationFailure,
        ),
        master_found && path_found && child is Some ==> r == Ok::<ChildKey, DeriveError>(
            child->0,
        ),
{
    if !master_found {
        Err(DeriveError::DerivationFailure)
    } else if !path_found {
        Err(DeriveError::InvalidPath)
    } else {
        match child {
            Some(key) => Ok(key),
            None => Err(DeriveError::DerivationFailure),
        }
    }
}

/// The private key at `path` below `seed`.
pub fn derive_child(seed: &SecureSeed, path: &str) -> (r: Result<ChildKey, DeriveError>)
    ensures
        child_key_view(r) == child_key_of(seed@, path@),
{
    let master = master_key(seed.bytes.as_slice());
    let numbers = parse_path(path);
    match (&master, &numbers) {
        (Some(m), Some(n)) => {
            let child = derive_priv(m, n);
            child_key_from(true, true, child)
        },
        _ => child_key_from(master.is_some(), numbers.is_some(), None),
    }
}

} // verus!
