//! The accounts that an operation is handed, and the rules they must meet
//! before anything is changed.

use crate::identity::{bump_seed, canonical_address, program_address, reconstruct, Identity};
use crate::seeds::{
    authority_purpose, authority_seeds, custody_purpose, custody_seeds, one_parent, two_parents,
    user_transfers_purpose, user_transfers_seeds, vault_purpose, vault_seeds,
};
use crate::state::{UserTransfers, Vault, VaultBumps, VaultError};
use vstd::prelude::*;

verus! {

/// A record of type `T` stored at the address `key`.
#[derive(Debug, PartialEq, Eq)]
pub struct Account<T> {
    pub key: Identity,
    pub data: T,
}

impl<T: Copy> Clone for Account<T> {
    fn clone(&self) -> (r: Account<T>)
        ensures
            r == *self,
    {
        *self
    }
}

impl<T: Copy> Copy for Account<T> {

}

/// A party to the operation, and whether it authorized the call.
#[derive(Clone, Copy, Debug, PartialEq, Eq)]
pub struct Signer {
    pub key: Identity,
    pub is_signer: bool,
}

/// What the vault reads of a token type.
#[derive(Clone, Copy, Debug, PartialEq, Eq)]
pub struct Mint {
    pub is_initialized: bool,
}

/// What the vault reads of a token account: its token type and who controls it.
#[derive(Clone, Copy, Debug, PartialEq, Eq)]
pub struct TokenAccount {
    pub mint: Identity,
    pub owner: Identity,
}

/// The accounts of one token transfer.
#[derive(Clone, Copy, Debug, PartialEq, Eq)]
pub struct Transfer {
    pub from: Identity,
    pub to: Identity,
    pub authority: Identity,
}

/// A call to another program: the program, the accounts it is handed, and the
/// seeds by which a derived identity signs for it (none: the caller signs).
#[derive(Debug, PartialEq, Eq)]
pub struct CpiContext<T> {
    pub program: Identity,
    pub accounts: T,
    pub signer_seeds: Vec<Vec<u8>>,
}

impl<T> CpiContext<T> {
    /// A call to `program` on `accounts`, signed by the caller alone.
    pub fn new(program: Identity, accounts: T) -> (r: CpiContext<T>)
        ensures
            r.program == program,
            r.accounts == accounts,
            r.signer_seeds@.len() == 0,
    {
        CpiContext { program, accounts, signer_seeds: Vec::new() }
    }

    /// The same call, signed by the identity that `signer_seeds` derive.
    pub fn with_signer(self, signer_seeds: Vec<Vec<u8>>) -> (r: CpiContext<T>)
        ensures
            r.program == self.program,
            r.accounts == self.accounts,
            r.signer_seeds == signer_seeds,
    {
        CpiContext { program: self.program, accounts: self.accounts, signer_seeds }
    }
}

/// What an operation asks of the transfer executor: to move `amount` tokens
/// as `call` says.
#[derive(Debug, PartialEq, Eq)]
pub struct TransferRequest {
    pub call: CpiContext<Transfer>,
    pub amount: u64,
}

/// The accounts of `initialize_vault`.
#[derive(Clone, Copy, Debug, PartialEq, Eq)]
pub struct InitializeVault {
    pub owner: Signer,
    pub mint: Account<Mint>,
    pub vault: Account<Vault>,
    pub vault_authority: Identity,
    pub vault_token_account: Account<TokenAccount>,
    pub token_program: Identity,
}

/// The accounts of `deposit` and `withdraw`. A depositor who has no record yet
/// is handed in with a record that is not initialized.
#[derive(Clone, Copy, Debug, PartialEq, Eq)]
pub struct TransfersAccounts {
    pub user: Signer,
    pub user_token_account: Account<TokenAccount>,
    pub mint: Account<Mint>,
    pub vault: Account<Vault>,
    pub user_transfers: Account<UserTransfers>,
    pub vault_authority: Identity,
    pub vault_token_account: Account<TokenAccount>,
    pub token_program: Identity,
}

/// What the seeds of the accounts of `initialize_vault` derive.
#[derive(Clone, Copy, Debug, PartialEq, Eq)]
pub struct InitializeVaultAddresses {
    pub vault: Option<(Identity, u8)>,
    pub vault_authority: Option<(Identity, u8)>,
    pub vault_token_account: Option<(Identity, u8)>,
}

/// `InitializeVaultAddresses` as bytes.
pub struct InitializeVaultAddressesView {
    pub vault: Option<(Seq<u8>, u8)>,
    pub vault_authority: Option<(Seq<u8>, u8)>,
    pub vault_token_account: Option<(Seq<u8>, u8)>,
}

/// What the seeds of the accounts of `deposit` and `withdraw` give: the
/// depositor's record is derived, the vault's three identities are
/// reconstructed from the bumps that the vault record stores.
#[derive(Clone, Copy, Debug, PartialEq, Eq)]
pub struct TransfersAddresses {
    pub user_transfers: Option<(Identity, u8)>,
    pub vault: Option<Identity>,
    pub vault_authority: Option<Identity>,
    pub vault_token_account: Option<Identity>,
}

/// `TransfersAddresses` as bytes.
pub struct TransfersAddressesView {
    pub user_transfers: Option<(Seq<u8>, u8)>,
    pub vault: Option<Seq<u8>>,
    pub vault_authority: Option<Seq<u8>>,
    pub vault_token_account: Option<Seq<u8>>,
}

/// A derived identity and its bump, as bytes.
pub open spec fn derived_view(d: Option<(Identity, u8)>) -> Option<(Seq<u8>, u8)> {
    match d {
        Some((id, bump)) => Some((id@, bump)),
        None => None,
    }
}

/// A reconstructed identity, as bytes.
pub open spec fn address_view(d: Option<Identity>) -> Option<Seq<u8>> {
    match d {
        Some(id) => Some(id@),
        None => None,
    }
}

/// Whether a derivation gave the address `key`.
pub open spec fn derives_to(d: Option<(Seq<u8>, u8)>, key: Seq<u8>) -> bool {
    d matches Some((address, _)) && address == key
}

/// The bump of a derivation; 0 where there is none.
pub open spec fn bump_of(d: Option<(Seq<u8>, u8)>) -> u8 {
    match d {
        Some((_, bump)) => bump,
        None => 0,
    }
}

impl View for InitializeVaultAddresses {
    type V = InitializeVaultAddressesView;

    open spec fn view(&self) -> InitializeVaultAddressesView {
        InitializeVaultAddressesView {
            vault: derived_view(self.vault),
            vault_authority: derived_view(self.vault_authority),
            vault_token_account: derived_view(self.vault_token_account),
        }
    }
}

impl View for TransfersAddresses {
    type V = TransfersAddressesView;

    open spec fn view(&self) -> TransfersAddressesView {
        TransfersAddressesView {
            user_transfers: derived_view(self.user_transfers),
            vault: address_view(self.vault),
            vault_authority: address_view(self.vault_authority),
            vault_token_account: address_view(self.vault_token_account),
        }
    }
}

fn is_derived(d: &Option<(Identity, u8)>, key: &Identity) -> (r: bool)
    ensures
        r == derives_to(derived_view(*d), key@),
{
    match d {
        Some((id, _)) => *id == *key,
        None => false,
    }
}

fn is_address(d: &Option<Identity>, key: &Identity) -> (r: bool)
    ensures
        r == (address_view(*d) == Some(key@)),
{
    match d {
        Some(id) => *id == *key,
        None => false,
    }
}

fn bump(d: &Option<(Identity, u8)>) -> (r: u8)
    ensures
        r == bump_of(derived_view(*d)),
{
    match d {
        Some((_, bump)) => *bump,
        None => 0,
    }
}

impl InitializeVault {
    /// A call to the token program on `data`.
    pub fn token_program_context<T>(&self, data: T) -> (r: CpiContext<T>)
        ensures
            r.program == self.token_program,
            r.accounts == data,
            r.signer_seeds@.len() == 0,
    {
        CpiContext::new(self.token_program, data)
    }

    /// What the seeds of these accounts derive under `program_id`: the vault
    /// from the owner and the token type, its authority and its custody
    /// account from the vault's address.
    pub open spec fn expected(&self, program_id: Seq<u8>) -> InitializeVaultAddressesView {
        InitializeVaultAddressesView {
            vault: canonical_address(vault_seeds(self.owner.key, self.mint.key), program_id),
            vault_authority: canonical_address(authority_seeds(self.vault.key), program_id),
            vault_token_account: canonical_address(custody_seeds(self.vault.key), program_id),
        }
    }

    /// The first rule that these accounts break, given what their seeds
    /// derive; `None` where they break none. In this order: the owner
    /// authorized the call; the token type is initialized; the vault is at its
    /// derived address; no vault record exists there yet; the authority and
    /// the custody account are at their derived addresses.
    pub open spec fn rejection(&self, derived: InitializeVaultAddressesView) -> Option<VaultError> {
        if !self.owner.is_signer {
            Some(VaultError::MissingSignature)
        } else if !self.mint.data.is_initialized {
            Some(VaultError::MintNotInitialized)
        } else if !derives_to(derived.vault, self.vault.key@) {
            Some(VaultError::SeedsMismatch)
        } else if self.vault.data.initialized {
            Some(VaultError::AlreadyInitialized)
        } else if !derives_to(derived.vault_authority, self.vault_authority@) {
            Some(VaultError::SeedsMismatch)
        } else if !derives_to(derived.vault_token_account, self.vault_token_account.key@) {
            Some(VaultError::SeedsMismatch)
        } else {
            None
        }
    }

    /// The bumps that a derivation found.
    pub open spec fn bumps(derived: InitializeVaultAddressesView) -> VaultBumps {
        VaultBumps {
            vault: bump_of(derived.vault),
            vault_authority: bump_of(derived.vault_authority),
            vault_token_account: bump_of(derived.vault_token_account),
        }
    }

    /// Derives the three identities of the vault from these accounts.
    pub fn addresses(&self, program_id: &Identity) -> (r: InitializeVaultAddresses)
        ensures
            r@ == self.expected(program_id@),
    {
        let vault = crate::identity::derive(&vault_purpose(), &two_parents(self.owner.key, self.mint.key), program_id);
        let vault_authority = crate::identity::derive(&authority_purpose(), &one_parent(self.vault.key), program_id);
        let vault_token_account = crate::identity::derive(&custody_purpose(), &one_parent(self.vault.key), program_id);
        InitializeVaultAddresses { vault, vault_authority, vault_token_account }
    }

    /// Holds the accounts to the rules: the bumps to store where they meet
    /// them all, else the first rule broken.
    pub fn validate(&self, derived: &InitializeVaultAddresses) -> (r: Result<VaultBumps, VaultError>)
        ensures
            r == match self.rejection(derived@) {
                Some(e) => Err::<VaultBumps, VaultError>(e),
                None => Ok(Self::bumps(derived@)),
            },
    {
        if !self.owner.is_signer {
            Err(VaultError::MissingSignature)
        } else if !self.mint.data.is_initialized {
            Err(VaultError::MintNotInitialized)
        } else if !is_derived(&derived.vault, &self.vault.key) {
            Err(VaultError::SeedsMismatch)
        } else if self.vault.data.initialized {
            Err(VaultError::AlreadyInitialized)
        } else if !is_derived(&derived.vault_authority, &self.vault_authority) {
            Err(VaultError::SeedsMismatch)
        } else if !is_derived(&derived.vault_token_account, &self.vault_token_account.key) {
            Err(VaultError::SeedsMismatch)
        } else {
            Ok(
                VaultBumps {
                    vault: bump(&derived.vault),
                    vault_authority: bump(&derived.vault_authority),
                    vault_token_account: bump(&derived.vault_token_account),
                },
            )
        }
    }
}

impl TransfersAccounts {
    /// A call to the token program on `data`.
    pub fn token_program_context<T>(&self, data: T) -> (r: CpiContext<T>)
        ensures
            r.program == self.token_program,
            r.accounts == data,
            r.signer_seeds@.len() == 0,
    {
        CpiContext::new(self.token_program, data)
    }

    /// What the seeds of these accounts give under `program_id`. The
    /// depositor's record is derived from the vault's address and the
    /// depositor. The vault, its authority and its custody account are
    /// reconstructed with the bumps that the vault record stores: the vault
    /// from its owner and the token type, the other two from the vault's
    /// address.
    pub open spec fn expected(&self, program_id: Seq<u8>) -> TransfersAddressesView {
        TransfersAddressesView {
            user_transfers: canonical_address(
                user_transfers_seeds(self.vault.key, self.user.key),
                program_id,
            ),
            vault: program_address(
                vault_seeds(self.vault.data.owner, self.mint.key).push(
                    bump_seed(self.vault.data.bumps.vault),
                ),
                program_id,
            ),
            vault_authority: program_address(
                authority_seeds(self.vault.key).push(
                    bump_seed(self.vault.data.bumps.vault_authority),
                ),
                program_id,
            ),
            vault_token_account: program_address(
                custody_seeds(self.vault.key).push(
                    bump_seed(self.vault.data.bumps.vault_token_account),
                ),
                program_id,
            ),
        }
    }

    /// The first rule that these accounts break, given what their seeds give;
    /// `None` where they break none. In this order: the depositor authorized
    /// the call; the token type is initialized; the depositor's record is at
    /// its derived address; the depositor is not the vault's owner; the
    /// depositor's token account holds the vault's token type and is the
    /// depositor's; the vault is at the address that its stored bump
    /// reconstructs, and initialized; so is the authority; the custody account
    /// holds the vault's token type, is controlled by the authority, and is
    /// at the address that its stored bump reconstructs.
    pub open spec fn rejection(&self, derived: TransfersAddressesView) -> Option<VaultError> {
        if !self.user.is_signer {
            Some(VaultError::MissingSignature)
        } else if !self.mint.data.is_initialized {
            Some(VaultError::MintNotInitialized)
        } else if !derives_to(derived.user_transfers, self.user_transfers.key@) {
            Some(VaultError::SeedsMismatch)
        } else if self.user.key@ == self.vault.data.owner@ {
            Some(VaultError::OwnerNotAllowed)
        } else if self.user_token_account.data.mint@ != self.vault.data.mint@ {
            Some(VaultError::TokenMintMismatch)
        } else if self.user_token_account.data.owner@ != self.user.key@ {
            Some(VaultError::TokenOwnerMismatch)
        } else if derived.vault != Some(self.vault.key@) {
            Some(VaultError::SeedsMismatch)
        } else if !self.vault.data.initialized {
            Some(VaultError::VaultNotInitialized)
        } else if derived.vault_authority != Some(self.vault_authority@) {
            Some(VaultError::SeedsMismatch)
        } else if self.vault_token_account.data.mint@ != self.vault.data.mint@ {
            Some(VaultError::TokenMintMismatch)
        } else if self.vault_token_account.data.owner@ != self.vault_authority@ {
            Some(VaultError::TokenOwnerMismatch)
        } else if derived.vault_token_account != Some(self.vault_token_account.key@) {
            Some(VaultError::SeedsMismatch)
        } else {
            None
        }
    }

    /// Derives the depositor's record and reconstructs the vault's three
    /// identities from these accounts.
    pub fn addresses(&self, program_id: &Identity) -> (r: TransfersAddresses)
        ensures
            r@ == self.expected(program_id@),
    {
        let user_transfers = crate::identity::derive(
            &user_transfers_purpose(),
            &two_parents(self.vault.key, self.user.key),
            program_id,
        );
        let vault = reconstruct(
            &vault_purpose(),
            &two_parents(self.vault.data.owner, self.mint.key),
            self.vault.data.bumps.vault,
            program_id,
        );
        let vault_authority = reconstruct(
            &authority_purpose(),
            &one_parent(self.vault.key),
            self.vault.data.bumps.vault_authority,
            program_id,
        );
        let vault_token_account = reconstruct(
            &custody_purpose(),
            &one_parent(self.vault.key),
            self.vault.data.bumps.vault_token_account,
            program_id,
        );
        TransfersAddresses { user_transfers, vault, vault_authority, vault_token_account }
    }

    /// Holds the accounts to the rules: the bump of the depositor's record
    /// where they meet them all, else the first rule broken.
    pub fn validate(&self, derived: &TransfersAddresses) -> (r: Result<u8, VaultError>)
        ensures
            r == match self.rejection(derived@) {
                Some(e) => Err::<u8, VaultError>(e),
                None => Ok(bump_of(derived@.user_transfers)),
            },
    {
        if !self.user.is_signer {
            Err(VaultError::MissingSignature)
        } else if !self.mint.data.is_initialized {
            Err(VaultError::MintNotInitialized)
        } else if !is_derived(&derived.user_transfers, &self.user_transfers.key) {
            Err(VaultError::SeedsMismatch)
        } else if self.user.key == self.vault.data.owner {
            Err(VaultError::OwnerNotAllowed)
        } else if self.user_token_account.data.mint != self.vault.data.mint {
            Err(VaultError::TokenMintMismatch)
        } else if self.user_token_account.data.owner != self.user.key {
            Err(VaultError::TokenOwnerMismatch)
        } else if !is_address(&derived.vault, &self.vault.key) {
            Err(VaultError::SeedsMismatch)
        } else if !self.vault.data.initialized {
            Err(VaultError::VaultNotInitialized)
        } else if !is_address(&derived.vault_authority, &self.vault_authority) {
            Err(VaultError::SeedsMismatch)
        } else if self.vault_token_account.data.mint != self.vault.data.mint {
            Err(VaultError::TokenMintMismatch)
        } else if self.vault_token_account.data.owner != self.vault_authority {
            Err(VaultError::TokenOwnerMismatch)
        } else if !is_address(&derived.vault_token_account, &self.vault_token_account.key) {
            Err(VaultError::SeedsMismatch)
        } else {
            Ok(bump(&derived.user_transfers))
        }
    }
}

} // verus!
