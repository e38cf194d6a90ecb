//! The records that the vault keeps, and the errors of its operations.

use crate::identity::Identity;
use vstd::prelude::*;

verus! {

/// The bumps of the three identities derived for a vault: its own address, its
/// signing authority and its custody account.
#[derive(Clone, Copy, Debug, PartialEq, Eq)]
pub struct VaultBumps {
    pub vault: u8,
    pub vault_authority: u8,
    pub vault_token_account: u8,
}

/// The vault-wide record: cumulative totals over all depositors.
#[derive(Clone, Copy, Debug, PartialEq, Eq)]
pub struct Vault {
    pub deposited_amount: u64,
    pub withdrawn_amount: u64,
    pub initialized: bool,
    pub owner: Identity,
    pub mint: Identity,
    pub bumps: VaultBumps,
}

/// The record of one depositor in one vault: that depositor's own totals.
#[derive(Clone, Copy, Debug, PartialEq, Eq)]
pub struct UserTransfers {
    pub deposited_amount: u64,
    pub withdrawn_amount: u64,
    pub initialized: bool,
    pub owner: Identity,
    pub vault: Identity,
    pub bump: u8,
}

/// The named, user-facing errors of the vault.
#[derive(Clone, Copy, Debug, PartialEq, Eq)]
pub enum ErrorCode {
    /// A withdrawal asked for more than the depositor has available.
    InvalidWithdrawAmount,
}

/// Why the transfer executor did not move the tokens.
#[derive(Clone, Copy, Debug, PartialEq, Eq)]
pub enum TransferError {
    InsufficientFunds,
    InvalidAccount,
    /// Any other failure, by the executor's own code.
    Custom(u32),
}

/// Every way in which an operation of the vault can fail.
#[derive(Clone, Copy, Debug, PartialEq, Eq)]
pub enum VaultError {
    /// The caller did not authorize the operation.
    MissingSignature,
    /// The token type is not an initialized mint.
    MintNotInitialized,
    /// An identity is not the one that its seeds derive.
    SeedsMismatch,
    /// A vault record already exists at the derived address.
    AlreadyInitialized,
    /// The vault owner tried to act as a depositor.
    OwnerNotAllowed,
    /// A token account holds another token type than the vault's.
    TokenMintMismatch,
    /// A token account is not controlled by the identity that must control it.
    TokenOwnerMismatch,
    /// The vault record has not been initialized.
    VaultNotInitialized,
    /// The depositor has no record yet: no deposit was ever made.
    UninitializedAccount,
    /// A counter would leave the range of its type.
    Arithmetic,
    /// A rule of the vault was broken.
    Program(ErrorCode),
    /// The transfer executor failed; its error is handed on unchanged.
    Transfer(TransferError),
}

impl ErrorCode {
    /// The message shown to the user.
    pub fn message(&self) -> (r: &'static str)
        ensures
            r@ == "Withdraw amount must be an amount available in the vault"@,
    {
        "Withdraw amount must be an amount available in the vault"
    }
}

impl Vault {
    /// Bytes of a stored vault record: a tag of 8 bytes, two counters, the
    /// flag, two identities and three bumps.
    pub const LEN: usize = 8 + 2 * 8 + 1 + 2 * 32 + 3;

    /// The invariant of the record: no more was withdrawn than deposited.
    pub open spec fn wf(&self) -> bool {
        self.withdrawn_amount <= self.deposited_amount
    }

    /// A new vault record for `owner` and `mint`: nothing deposited, nothing
    /// withdrawn, initialized.
    pub fn new(owner: Identity, mint: Identity, bumps: VaultBumps) -> (r: Vault)
        ensures
            r == (Vault {
                deposited_amount: 0,
                withdrawn_amount: 0,
                initialized: true,
                owner,
                mint,
                bumps,
            }),
    {
        Vault { deposited_amount: 0, withdrawn_amount: 0, initialized: true, owner, mint, bumps }
    }
}

impl UserTransfers {
    /// Bytes of a stored depositor record: a tag of 8 bytes, two counters, the
    /// flag, two identities and one bump.
    pub const LEN: usize = 8 + 2 * 8 + 1 + 2 * 32 + 1;

    /// The invariant of the record: no more was withdrawn than deposited, and
    /// a record that was never created counts nothing.
    pub open spec fn wf(&self) -> bool {
        &&& self.withdrawn_amount <= self.deposited_amount
        &&& !self.initialized ==> self.deposited_amount == 0
    }

    /// What the depositor may still withdraw.
    pub open spec fn spec_available(&self) -> int {
        self.deposited_amount - self.withdrawn_amount
    }

    /// A new depositor record for `owner` in `vault`: nothing deposited,
    /// nothing withdrawn, initialized.
    pub fn new(owner: Identity, vault: Identity, bump: u8) -> (r: UserTransfers)
        ensures
            r == (UserTransfers {
                deposited_amount: 0,
                withdrawn_amount: 0,
                initialized: true,
                owner,
                vault,
                bump,
            }),
    {
        UserTransfers {
            deposited_amount: 0,
            withdrawn_amount: 0,
            initialized: true,
            owner,
            vault,
            bump,
        }
    }

    /// What the depositor may still withdraw: deposits less withdrawals.
    /// `None` where the record is corrupt and the difference would be negative.
    pub fn available(&self) -> (r: Option<u64>)
        ensures
            match r {
                Some(amount) => amount == self.spec_available(),
                None => self.spec_available() < 0,
            },
    {
        self.deposited_amount.checked_sub(self.withdrawn_amount)
    }
}

} // verus!
