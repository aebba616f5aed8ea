//! Seed material, derived accounts and the errors of derivation.

use vstd::prelude::*;

verus! {

/// Why a derivation failed.
#[derive(Clone, Copy, Debug, PartialEq, Eq, Structural)]
pub enum DeriveError {
    /// The phrase is no valid mnemonic.
    InvalidMnemonic,
    /// The derivation path is malformed.
    InvalidPath,
    /// No key exists at the path below the seed.
    DerivationFailure,
    /// The key could not be turned into an address.
    KeyEncodingFailure,
    /// The chain family is not one of the known ones.
    UnsupportedChain,
}

impl DeriveError {
    /// What went wrong, in words.
    pub fn message(&self) -> (r: String)
        ensures
            r@ == match *self {
                DeriveError::InvalidMnemonic => "Invalid mnemonic"@,
                DeriveError::InvalidPath => "Invalid derivation path"@,
                DeriveError::DerivationFailure => "Failed to derive key"@,
                DeriveError::KeyEncodingFailure => "Failed to encode key"@,
                DeriveError::UnsupportedChain => "Unsupported chain type"@,
            },
    {
        match self {
            DeriveError::InvalidMnemonic => String::from_str("Invalid mnemonic"),
            DeriveError::InvalidPath => String::from_str("Invalid derivation path"),
            DeriveError::DerivationFailure => String::from_str("Failed to derive key"),
            DeriveError::KeyEncodingFailure => String::from_str("Failed to encode key"),
            DeriveError::UnsupportedChain => String::from_str("Unsupported chain type"),
        }
    }
}

/// A derived account: public data only.
#[derive(Debug)]
pub struct DerivedAccount {
    pub address: String,
    pub chain: String,
    pub chain_name: String,
    pub derivation_path: String,
    pub index: u32,
}

/// What a `DerivedAccount` holds, as mathematical values.
pub struct DerivedAccountView {
    pub address: Seq<char>,
    pub chain: Seq<char>,
    pub chain_name: Seq<char>,
    pub derivation_path: Seq<char>,
    pub index: u32,
}

impl View for DerivedAccount {
    type V = DerivedAccountView;

    open spec fn view(&self) -> DerivedAccountView {
        DerivedAccountView {
            address: self.address@,
            chain: self.chain@,
            chain_name: self.chain_name@,
            derivation_path: self.derivation_path@,
            index: self.index,
        }
    }
}

impl Clone for DerivedAccount {
    fn clone(&self) -> (r: Self)
        ensures
            r@ == self@,
    {
        DerivedAccount {
            address: self.address.clone(),
            chain: self.chain.clone(),
            chain_name: self.chain_name.clone(),
            derivation_path: self.derivation_path.clone(),
            index: self.index,
        }
    }
}

/// The views of a list of derived accounts.
pub open spec fn derived_views(accounts: Seq<DerivedAccount>) -> Seq<DerivedAccountView> {
    accounts.map_values(|a: DerivedAccount| a@)
}

/// The accounts derived from one mnemonic, by chain family, and where the
/// mnemonic came from.
#[derive(Clone, Debug)]
pub struct MultiChainAccounts {
    pub evm: Vec<DerivedAccount>,
    pub solana: Vec<DerivedAccount>,
    pub bitcoin: Vec<DerivedAccount>,
    pub source_vault: String,
    pub source_item: String,
}

/// What a `MultiChainAccounts` holds, as mathematical values.
pub struct MultiChainAccountsView {
    pub evm: Seq<DerivedAccountView>,
    pub solana: Seq<DerivedAccountView>,
    pub bitcoin: Seq<DerivedAccountView>,
    pub source_vault: Seq<char>,
    pub source_item: Seq<char>,
}

impl View for MultiChainAccounts {
    type V = MultiChainAccountsView;

    open spec fn view(&self) -> MultiChainAccountsView {
        MultiChainAccountsView {
            evm: derived_views(self.evm@),
            solana: derived_views(self.solana@),
            bitcoin: derived_views(self.bitcoin@),
            source_vault: self.source_vault@,
            source_item: self.source_item@,
        }
    }
}

/// The view of a derivation's result.
pub open spec fn derived_result_view(r: Result<Vec<DerivedAccount>, DeriveError>) -> Result<
    Seq<DerivedAccountView>,
    DeriveError,
> {
    match r {
        Ok(accounts) => Ok(derived_views(accounts@)),
        Err(e) => Err(e),
    }
}

/// The accounts with the indices `0..count`, where `single` gives the
/// account of an index: all of them, or the error of the first index that
/// has none.
pub open spec fn derived_accounts(
    single: spec_fn(u32) -> Result<DerivedAccountView, DeriveError>,
    count: nat,
) -> Result<Seq<DerivedAccountView>, DeriveError>
    decreases count,
{
    if count == 0 {
        Ok(Seq::empty())
    } else {
        match derived_accounts(single, (count - 1) as nat) {
            Err(e) => Err(e),
            Ok(before) => match single((count - 1) as u32) {
                Err(e) => Err(e),
                Ok(account) => Ok(before.push(account)),
            },
        }
    }
}

/// An error at some count is the error at every greater count.
pub proof fn lemma_derived_accounts_error(
    single: spec_fn(u32) -> Result<DerivedAccountView, DeriveError>,
    failed: nat,
    count: nat,
)
    requires
        failed <= count,
        derived_accounts(single, failed) is Err,
    ensures
        derived_accounts(single, count) == derived_accounts(single, failed),
    decreases count,
{
    if failed < count {
        lemma_derived_accounts_error(single, failed, (count - 1) as nat);
    }
}

/// A successful derivation holds one account for each index, in order, and
/// each is what `single` gives for its index.
pub proof fn lemma_derived_accounts_each(
    single: spec_fn(u32) -> Result<DerivedAccountView, DeriveError>,
    count: nat,
)
    requires
        derived_accounts(single, count) is Ok,
    ensures
        derived_accounts(single, count)->Ok_0.len() == count,
        forall|i: int|
            0 <= i < count ==> single(i as u32) == Ok::<DerivedAccountView, DeriveError>(
                #[trigger] derived_accounts(single, count)->Ok_0[i],
            ),
    decreases count,
{
    if count > 0 {
        lemma_derived_accounts_each(single, (count - 1) as nat);
    }
}

/// The seed that a mnemonic phrase gives with the empty passphrase, where
/// `bip39::Mnemonic::parse` accepts the phrase.
pub uninterp spec fn bip39_seed(phrase: Seq<char>) -> Option<Seq<u8>>;

/// `bip39::Mnemonic::parse` and `Mnemonic::to_seed` with the empty
/// passphrase: the 64-byte seed of a phrase that passes the word list and
/// the checksum, `None` for any other phrase.
#[verifier::external_body]
fn mnemonic_seed(phrase: &str) -> (r: Option<Vec<u8>>)
    ensures
        r is Some <==> bip39_seed(phrase@) is Some,
        r matches Some(seed) ==> bip39_seed(phrase@) == Some(seed@) && seed@.len() == 64,
{
    match bip39::Mnemonic::parse(phrase) {
        Ok(mnemonic) => Some(mnemonic.to_seed("").to_vec()),
        Err(_) => None,
    }
}

/// `zeroize::Zeroize::zeroize` on a `Vec<u8>`: overwrites the bytes and the
/// spare capacity with zeros and leaves the vector empty.
#[verifier::external_body]
fn wipe(bytes: &mut Vec<u8>)
    ensures
        final(bytes)@.len() == 0,
    opens_invariants none
    no_unwind
{
    zeroize::Zeroize::zeroize(bytes);
}

/// Secret seed bytes that are wiped when the value is dropped.
pub struct SecureSeed {
    pub bytes: Vec<u8>,
}

impl View for SecureSeed {
    type V = Seq<u8>;

    open spec fn view(&self) -> Seq<u8> {
        self.bytes@
    }
}

impl SecureSeed {
    /// Wipes the seed now: the bytes are overwritten and the seed is left
    /// empty. Dropping the seed does the same.
    pub fn wipe(&mut self)
        ensures
            final(self)@.len() == 0,
    {
        wipe(&mut self.bytes);
    }
}

impl Drop for SecureSeed {
    fn drop(&mut self)
        ensures
            final(self)@.len() == 0,
        opens_invariants none
        no_unwind
    {
        wipe(&mut self.bytes);
    }
}

/// The seed of a phrase, given what the word list and checksum made of it.
pub fn seed_from(parsed: Option<Vec<u8>>) -> (r: Result<SecureSeed, DeriveError>)
    ensures
        match parsed {
            Some(bytes) => r is Ok && r->Ok_0@ == bytes@,
            None => r == Err::<SecureSeed, DeriveError>(DeriveError::InvalidMnemonic),
        },
{
    match parsed {
        Some(bytes) => Ok(SecureSeed { bytes }),
        None => Err(DeriveError::InvalidMnemonic),
    }
}

/// The seed of a mnemonic phrase, with the empty passphrase.
pub fn mnemonic_to_seed(mnemonic: &str) -> (r: Result<SecureSeed, DeriveError>)
    ensures
        match bip39_seed(mnemonic@) {
            Some(seed) => r is Ok && r->Ok_0@ == seed && seed.len() == 64,
            None => r == Err::<SecureSeed, DeriveError>(DeriveError::InvalidMnemonic),
        },
{
    seed_from(mnemonic_seed(mnemonic))
}

} // verus!
