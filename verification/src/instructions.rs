//! The three operations of the vault: initialize, deposit, withdraw.
//!
//! An operation is one atomic step. It holds its accounts to the rules, and
//! either changes them as a whole or fails and leaves them as they were. The
//! token transfer itself is done by the transfer executor, outside this
//! library: `deposit_transfer` and `withdraw_transfer` say which transfer an
//! operation asks for, and `deposit` and `withdraw` take what became of it.

use crate::accounts::{
    bump_of, Account, InitializeVault, InitializeVaultAddresses, InitializeVaultAddressesView,
    TokenAccount, Transfer, TransferRequest, TransfersAccounts, TransfersAddresses,
    TransfersAddressesView,
};
use crate::identity::{bump_seed, program_address, seeds_view, signer_seeds, Identity};
use crate::seeds::{authority_purpose, authority_seeds, one_parent};
use crate::state::{ErrorCode, TransferError, UserTransfers, Vault, VaultError};
use vstd::prelude::*;

verus! {

/// The accounts after a successful `initialize_vault`: the vault record is
/// new, for the owner and the token type, with the bumps found; the custody
/// account holds that token type and is controlled by the vault's authority.
pub open spec fn initialized_accounts(
    accounts: InitializeVault,
    derived: InitializeVaultAddressesView,
) -> InitializeVault {
    InitializeVault {
        vault: Account {
            key: accounts.vault.key,
            data: Vault {
                deposited_amount: 0,
                withdrawn_amount: 0,
                initialized: true,
                owner: accounts.owner.key,
                mint: accounts.mint.key,
                bumps: InitializeVault::bumps(derived),
            },
        },
        vault_token_account: Account {
            key: accounts.vault_token_account.key,
            data: TokenAccount { mint: accounts.mint.key, owner: accounts.vault_authority },
        },
        ..accounts
    }
}

/// The depositor's record as a deposit finds it: the stored one, or a new
/// one where none was initialized.
pub open spec fn enrolled(accounts: TransfersAccounts, derived: TransfersAddressesView)
    -> UserTransfers {
    if accounts.user_transfers.data.initialized {
        accounts.user_transfers.data
    } else {
        UserTransfers {
            deposited_amount: 0,
            withdrawn_amount: 0,
            initialized: true,
            owner: accounts.user.key,
            vault: accounts.vault.key,
            bump: bump_of(derived.user_transfers),
        }
    }
}

/// Why a deposit of `amount` fails, `None` where it succeeds. In this order:
/// the accounts break a rule; the transfer failed; one of the two totals would
/// exceed `u64::MAX`.
pub open spec fn deposit_failure(
    accounts: TransfersAccounts,
    derived: TransfersAddressesView,
    amount: u64,
    transfer: Result<(), TransferError>,
) -> Option<VaultError> {
    if accounts.rejection(derived) is Some {
        accounts.rejection(derived)
    } else if transfer is Err {
        Some(VaultError::Transfer(transfer->Err_0))
    } else if accounts.vault.data.deposited_amount + amount > u64::MAX || enrolled(
        accounts,
        derived,
    ).deposited_amount + amount > u64::MAX {
        Some(VaultError::Arithmetic)
    } else {
        None
    }
}

/// The accounts after a successful deposit of `amount`: the depositor has a
/// record, and both deposited totals have grown by `amount`.
pub open spec fn deposited_accounts(
    accounts: TransfersAccounts,
    derived: TransfersAddressesView,
    amount: u64,
) -> TransfersAccounts {
    TransfersAccounts {
        vault: Account {
            key: accounts.vault.key,
            data: Vault {
                deposited_amount: (accounts.vault.data.deposited_amount + amount) as u64,
                ..accounts.vault.data
            },
        },
        user_transfers: Account {
            key: accounts.user_transfers.key,
            data: UserTransfers {
                deposited_amount: (enrolled(accounts, derived).deposited_amount + amount) as u64,
                ..enrolled(accounts, derived)
            },
        },
        ..accounts
    }
}

/// The accounts after a deposit, failed or not.
pub open spec fn after_deposit(
    accounts: TransfersAccounts,
    derived: TransfersAddressesView,
    amount: u64,
    transfer: Result<(), TransferError>,
) -> TransfersAccounts {
    if deposit_failure(accounts, derived, amount, transfer) is Some {
        accounts
    } else {
        deposited_accounts(accounts, derived, amount)
    }
}

/// Why a withdrawal of `amount` is refused before any transfer is asked for,
/// `None` where it is not. In this order: the accounts break a rule; the
/// depositor has no record; the record is corrupt, more withdrawn than
/// deposited; `amount` exceeds what the depositor has available.
pub open spec fn withdraw_refusal(
    accounts: TransfersAccounts,
    derived: TransfersAddressesView,
    amount: u64,
) -> Option<VaultError> {
    if accounts.rejection(derived) is Some {
        accounts.rejection(derived)
    } else if !accounts.user_transfers.data.initialized {
        Some(VaultError::UninitializedAccount)
    } else if accounts.user_transfers.data.spec_available() < 0 {
        Some(VaultError::Arithmetic)
    } else if amount > accounts.user_transfers.data.spec_available() {
        Some(VaultError::Program(ErrorCode::InvalidWithdrawAmount))
    } else {
        None
    }
}

/// Why a withdrawal of `amount` fails, `None` where it succeeds. In this
/// order: it is refused; the transfer failed; one of the two totals would
/// exceed `u64::MAX`.
pub open spec fn withdraw_failure(
    accounts: TransfersAccounts,
    derived: TransfersAddressesView,
    amount: u64,
    transfer: Result<(), TransferError>,
) -> Option<VaultError> {
    if withdraw_refusal(accounts, derived, amount) is Some {
        withdraw_refusal(accounts, derived, amount)
    } else if transfer is Err {
        Some(VaultError::Transfer(transfer->Err_0))
    } else if accounts.vault.data.withdrawn_amount + amount > u64::MAX
        || accounts.user_transfers.data.withdrawn_amount + amount > u64::MAX {
        Some(VaultError::Arithmetic)
    } else {
        None
    }
}

/// The accounts after a successful withdrawal of `amount`: both withdrawn
/// totals have grown by `amount`.
pub open spec fn withdrawn_accounts(accounts: TransfersAccounts, amount: u64) -> TransfersAccounts {
    TransfersAccounts {
        vault: Account {
            key: accounts.vault.key,
            data: Vault {
                withdrawn_amount: (accounts.vault.data.withdrawn_amount + amount) as u64,
                ..accounts.vault.data
            },
        },
        user_transfers: Account {
            key: accounts.user_transfers.key,
            data: UserTransfers {
                withdrawn_amount: (accounts.user_transfers.data.withdrawn_amount + amount) as u64,
                ..accounts.user_transfers.data
            },
        },
        ..accounts
    }
}

/// The accounts after a withdrawal, failed or not.
pub open spec fn after_withdraw(
    accounts: TransfersAccounts,
    derived: TransfersAddressesView,
    amount: u64,
    transfer: Result<(), TransferError>,
) -> TransfersAccounts {
    if withdraw_failure(accounts, derived, amount, transfer) is Some {
        accounts
    } else {
        withdrawn_accounts(accounts, amount)
    }
}

/// The transfer that a deposit asks for: from the depositor's token account
/// to the custody account, authorized by the depositor.
pub open spec fn deposit_movement(accounts: TransfersAccounts) -> Transfer {
    Transfer {
        from: accounts.user_token_account.key,
        to: accounts.vault_token_account.key,
        authority: accounts.user.key,
    }
}

/// The transfer that a withdrawal asks for: from the custody account to the
/// depositor's token account, authorized by the vault's authority.
pub open spec fn withdraw_movement(accounts: TransfersAccounts) -> Transfer {
    Transfer {
        from: accounts.vault_token_account.key,
        to: accounts.user_token_account.key,
        authority: accounts.vault_authority,
    }
}

/// The seeds by which the vault's authority signs for a withdrawal: its tag,
/// the vault's address, and the bump that the vault record stores.
pub open spec fn authority_signature(accounts: TransfersAccounts) -> Seq<Seq<u8>> {
    authority_seeds(accounts.vault.key).push(bump_seed(accounts.vault.data.bumps.vault_authority))
}

/// `initialize_vault` on accounts whose addresses were derived already.
pub fn initialize_vault_with(accounts: &mut InitializeVault, derived: &InitializeVaultAddresses) -> (r:
    Result<(), VaultError>)
    ensures
        match old(accounts).rejection(derived@) {
            Some(e) => r == Err::<(), VaultError>(e) && *final(accounts) == *old(accounts),
            None => r == Ok::<(), VaultError>(()) && *final(accounts) == initialized_accounts(
                *old(accounts),
                derived@,
            ),
        },
{
    let bumps = match accounts.validate(derived) {
        Ok(bumps) => bumps,
        Err(e) => {
            return Err(e);
        },
    };
    accounts.vault.data = Vault::new(accounts.owner.key, accounts.mint.key, bumps);
    accounts.vault_token_account.data = TokenAccount {
        mint: accounts.mint.key,
        owner: accounts.vault_authority,
    };
    Ok(())
}

/// Creates the vault of `accounts.owner` for the token type `accounts.mint`.
///
/// Derives the vault, its authority and its custody account under
/// `program_id`, and holds the accounts to the rules of
/// `InitializeVault::rejection`. Where they meet them, the vault record is
/// written with zero totals and the bumps found, and the custody account is
/// set up under the authority. Else the first rule broken is returned and
/// nothing is changed; so it is where the vault exists already.
pub fn initialize_vault(accounts: &mut InitializeVault, program_id: &Identity) -> (r: Result<
    (),
    VaultError,
>)
    ensures
        match old(accounts).rejection(old(accounts).expected(program_id@)) {
            Some(e) => r == Err::<(), VaultError>(e) && *final(accounts) == *old(accounts),
            None => r == Ok::<(), VaultError>(()) && *final(accounts) == initialized_accounts(
                *old(accounts),
                old(accounts).expected(program_id@),
            ),
        },
{
    let derived = accounts.addresses(program_id);
    initialize_vault_with(accounts, &derived)
}

/// `deposit_transfer` on accounts whose addresses were derived already.
pub fn deposit_transfer_with(
    accounts: &TransfersAccounts,
    derived: &TransfersAddresses,
    deposit_amount: u64,
) -> (r: Result<TransferRequest, VaultError>)
    ensures
        match accounts.rejection(derived@) {
            Some(e) => r == Err::<TransferRequest, VaultError>(e),
            None => r matches Ok(request) && request.amount == deposit_amount
                && request.call.program == accounts.token_program && request.call.accounts
                == deposit_movement(*accounts) && request.call.signer_seeds@.len() == 0,
        },
{
    match accounts.validate(derived) {
        Ok(_) => Ok(
            TransferRequest {
                call: accounts.token_program_context(
                    Transfer {
                        from: accounts.user_token_account.key,
                        to: accounts.vault_token_account.key,
                        authority: accounts.user.key,
                    },
                ),
                amount: deposit_amount,
            },
        ),
        Err(e) => Err(e),
    }
}

/// The transfer that a deposit of `deposit_amount` on these accounts asks the
/// executor for, or the rule that the accounts break. The depositor signs for
/// it.
pub fn deposit_transfer(
    accounts: &TransfersAccounts,
    program_id: &Identity,
    deposit_amount: u64,
) -> (r: Result<TransferRequest, VaultError>)
    ensures
        match accounts.rejection(accounts.expected(program_id@)) {
            Some(e) => r == Err::<TransferRequest, VaultError>(e),
            None => r matches Ok(request) && request.amount == deposit_amount
                && request.call.program == accounts.token_program && request.call.accounts
                == deposit_movement(*accounts) && request.call.signer_seeds@.len() == 0,
        },
{
    let derived = accounts.addresses(program_id);
    deposit_transfer_with(accounts, &derived, deposit_amount)
}

/// `deposit` on accounts whose addresses were derived already.
pub fn deposit_with(
    accounts: &mut TransfersAccounts,
    derived: &TransfersAddresses,
    deposit_amount: u64,
    transfer: Result<(), TransferError>,
) -> (r: Result<(), VaultError>)
    ensures
        r == match deposit_failure(*old(accounts), derived@, deposit_amount, transfer) {
            Some(e) => Err::<(), VaultError>(e),
            None => Ok(()),
        },
        *final(accounts) == after_deposit(*old(accounts), derived@, deposit_amount, transfer),
{
    let bump = match accounts.validate(derived) {
        Ok(bump) => bump,
        Err(e) => {
            return Err(e);
        },
    };
    if let Err(e) = transfer {
        return Err(VaultError::Transfer(e));
    }
    let record = if accounts.user_transfers.data.initialized {
        accounts.user_transfers.data
    } else {
        UserTransfers::new(accounts.user.key, accounts.vault.key, bump)
    };
    let vault_total = match accounts.vault.data.deposited_amount.checked_add(deposit_amount) {
        Some(total) => total,
        None => {
            return Err(VaultError::Arithmetic);
        },
    };
    let user_total = match record.deposited_amount.checked_add(deposit_amount) {
        Some(total) => total,
        None => {
            return Err(VaultError::Arithmetic);
        },
    };
    accounts.vault.data.deposited_amount = vault_total;
    accounts.user_transfers.data = UserTransfers { deposited_amount: user_total, ..record };
    Ok(())
}

/// Records a deposit of `deposit_amount` by `accounts.user`, given what became
/// of the transfer that `deposit_transfer` asked for.
///
/// Fails, and changes nothing, where the accounts break a rule of
/// `TransfersAccounts::rejection` (the vault's owner may not deposit), where
/// the transfer failed (its error is handed on), and where a total would
/// exceed `u64::MAX`. Else the depositor's record is created if there was
/// none, and `deposit_amount` is added to the deposited totals of the vault
/// and of the depositor. An amount of zero is accepted like any other: it
/// creates the record and adds nothing.
pub fn deposit(
    accounts: &mut TransfersAccounts,
    program_id: &Identity,
    deposit_amount: u64,
    transfer: Result<(), TransferError>,
) -> (r: Result<(), VaultError>)
    ensures
        r == match deposit_failure(
            *old(accounts),
            old(accounts).expected(program_id@),
            deposit_amount,
            transfer,
        ) {
            Some(e) => Err::<(), VaultError>(e),
            None => Ok(()),
        },
        *final(accounts) == after_deposit(
            *old(accounts),
            old(accounts).expected(program_id@),
            deposit_amount,
            transfer,
        ),
{
    let derived = accounts.addresses(program_id);
    deposit_with(accounts, &derived, deposit_amount, transfer)
}

/// Why a withdrawal is refused before the transfer, as `withdraw_refusal` has it.
fn check_withdrawal(accounts: &TransfersAccounts, derived: &TransfersAddresses, amount: u64) -> (r:
    Result<(), VaultError>)
    ensures
        r == match withdraw_refusal(*accounts, derived@, amount) {
            Some(e) => Err::<(), VaultError>(e),
            None => Ok(()),
        },
{
    if let Err(e) = accounts.validate(derived) {
        return Err(e);
    }
    if !accounts.user_transfers.data.initialized {
        return Err(VaultError::UninitializedAccount);
    }
    match accounts.user_transfers.data.available() {
        None => Err(VaultError::Arithmetic),
        Some(available) => {
            if amount > available {
                Err(VaultError::Program(ErrorCode::InvalidWithdrawAmount))
            } else {
                Ok(())
            }
        },
    }
}

/// `withdraw_transfer` on accounts whose addresses were derived already.
pub fn withdraw_transfer_with(
    accounts: &TransfersAccounts,
    derived: &TransfersAddresses,
    withdraw_amount: u64,
) -> (r: Result<TransferRequest, VaultError>)
    ensures
        match withdraw_refusal(*accounts, derived@, withdraw_amount) {
            Some(e) => r == Err::<TransferRequest, VaultError>(e),
            None => r matches Ok(request) && request.amount == withdraw_amount
                && request.call.program == accounts.token_program && request.call.accounts
                == withdraw_movement(*accounts) && seeds_view(request.call.signer_seeds@)
                == authority_signature(*accounts),
        },
{
    if let Err(e) = check_withdrawal(accounts, derived, withdraw_amount) {
        return Err(e);
    }
    let release = Transfer {
        from: accounts.vault_token_account.key,
        to: accounts.user_token_account.key,
        authority: accounts.vault_authority,
    };
    let seeds = signer_seeds(
        &authority_purpose(),
        &one_parent(accounts.vault.key),
        accounts.vault.data.bumps.vault_authority,
    );
    Ok(
        TransferRequest {
            call: accounts.token_program_context(release).with_signer(seeds),
            amount: withdraw_amount,
        },
    )
}

/// The transfer that a withdrawal of `withdraw_amount` on these accounts asks
/// the executor for, or why the withdrawal is refused. The vault's authority
/// signs for it, by seeds that reconstruct to `accounts.vault_authority`: none
/// is asked for with a bump that does not.
pub fn withdraw_transfer(
    accounts: &TransfersAccounts,
    program_id: &Identity,
    withdraw_amount: u64,
) -> (r: Result<TransferRequest, VaultError>)
    ensures
        match withdraw_refusal(*accounts, accounts.expected(program_id@), withdraw_amount) {
            Some(e) => r == Err::<TransferRequest, VaultError>(e),
            None => r matches Ok(request) && request.amount == withdraw_amount
                && request.call.program == accounts.token_program && request.call.accounts
                == withdraw_movement(*accounts) && seeds_view(request.call.signer_seeds@)
                == authority_signature(*accounts) && program_address(
                seeds_view(request.call.signer_seeds@),
                program_id@,
            ) == Some(accounts.vault_authority@),
        },
{
    let derived = accounts.addresses(program_id);
    withdraw_transfer_with(accounts, &derived, withdraw_amount)
}

/// `withdraw` on accounts whose addresses were derived already.
pub fn withdraw_with(
    accounts: &mut TransfersAccounts,
    derived: &TransfersAddresses,
    withdraw_amount: u64,
    transfer: Result<(), TransferError>,
) -> (r: Result<(), VaultError>)
    ensures
        r == match withdraw_failure(*old(accounts), derived@, withdraw_amount, transfer) {
            Some(e) => Err::<(), VaultError>(e),
            None => Ok(()),
        },
        *final(accounts) == after_withdraw(*old(accounts), derived@, withdraw_amount, transfer),
{
    if let Err(e) = check_withdrawal(accounts, derived, withdraw_amount) {
        return Err(e);
    }
    if let Err(e) = transfer {
        return Err(VaultError::Transfer(e));
    }
    let vault_total = match accounts.vault.data.withdrawn_amount.checked_add(withdraw_amount) {
        Some(total) => total,
        None => {
            return Err(VaultError::Arithmetic);
        },
    };
    let user_total = match accounts.user_transfers.data.withdrawn_amount.checked_add(
        withdraw_amount,
    ) {
        Some(total) => total,
        None => {
            return Err(VaultError::Arithmetic);
        },
    };
    accounts.vault.data.withdrawn_amount = vault_total;
    accounts.user_transfers.data.withdrawn_amount = user_total;
    Ok(())
}

/// Records a withdrawal of `withdraw_amount` by `accounts.user`, given what
/// became of the transfer that `withdraw_transfer` asked for.
///
/// Fails, and changes nothing, where the accounts break a rule of
/// `TransfersAccounts::rejection` (the vault's owner may not withdraw), where
/// the depositor has no record, where `withdraw_amount` exceeds what the
/// depositor has deposited and not yet withdrawn (`InvalidWithdrawAmount`),
/// where the transfer failed (its error is handed on), and where a total would
/// leave the range of `u64`. Else `withdraw_amount` is added to the withdrawn
/// totals of the vault and of the depositor.
pub fn withdraw(
    accounts: &mut TransfersAccounts,
    program_id: &Identity,
    withdraw_amount: u64,
    transfer: Result<(), TransferError>,
) -> (r: Result<(), VaultError>)
    ensures
        r == match withdraw_failure(
            *old(accounts),
            old(accounts).expected(program_id@),
            withdraw_amount,
            transfer,
        ) {
            Some(e) => Err::<(), VaultError>(e),
            None => Ok(()),
        },
        *final(accounts) == after_withdraw(
            *old(accounts),
            old(accounts).expected(program_id@),
            withdraw_amount,
            transfer,
        ),
{
    let derived = accounts.addresses(program_id);
    withdraw_with(accounts, &derived, withdraw_amount, transfer)
}

/// The vault's owner is shut out of the depositor's path: with the owner as
/// the caller, a deposit and a withdrawal both fail, whatever else holds, and
/// change nothing; and no transfer is asked for.
pub proof fn lemma_owner_excluded(
    accounts: TransfersAccounts,
    derived: TransfersAddressesView,
    amount: u64,
    transfer: Result<(), TransferError>,
)
    requires
        accounts.user.key@ == accounts.vault.data.owner@,
    ensures
        accounts.rejection(derived) is Some,
        deposit_failure(accounts, derived, amount, transfer) is Some,
        withdraw_refusal(accounts, derived, amount) is Some,
        withdraw_failure(accounts, derived, amount, transfer) is Some,
        after_deposit(accounts, derived, amount, transfer) == accounts,
        after_withdraw(accounts, derived, amount, transfer) == accounts,
{
}

/// A vault is initialized once: on the accounts that a successful
/// `initialize_vault` left, the same seeds derive the same addresses, and a
/// second call fails, with `AlreadyInitialized` on those addresses, and so
/// leaves the vault record as the first call wrote it.
pub proof fn lemma_initialize_once(
    accounts: InitializeVault,
    derived: InitializeVaultAddressesView,
    program_id: Seq<u8>,
)
    requires
        accounts.rejection(derived) is None,
    ensures
        initialized_accounts(accounts, derived).expected(program_id) == accounts.expected(
            program_id,
        ),
        initialized_accounts(accounts, derived).rejection(derived) == Some(
            VaultError::AlreadyInitialized,
        ),
        forall|again: InitializeVaultAddressesView|
            (#[trigger] initialized_accounts(accounts, derived).rejection(again)) is Some,
{
}

/// A deposit and a withdrawal change no identity, flag or bump that the rules
/// read: the accounts they leave break the same rule as before, or none, and
/// their seeds give the same addresses.
pub proof fn lemma_rules_persist(
    accounts: TransfersAccounts,
    derived: TransfersAddressesView,
    amount: u64,
    transfer: Result<(), TransferError>,
    program_id: Seq<u8>,
)
    ensures
        after_deposit(accounts, derived, amount, transfer).rejection(derived) == accounts.rejection(
            derived,
        ),
        after_withdraw(accounts, derived, amount, transfer).rejection(derived)
            == accounts.rejection(derived),
        after_deposit(accounts, derived, amount, transfer).expected(program_id)
            == accounts.expected(program_id),
        after_withdraw(accounts, derived, amount, transfer).expected(program_id)
            == accounts.expected(program_id),
{
}

/// What was deposited can be withdrawn, and no more. After a successful
/// deposit of `amount` into well-formed records, a withdrawal of `amount`
/// whose transfer succeeds succeeds too, and leaves the depositor with what
/// was available before the deposit: nothing, for a depositor who had nothing.
/// A later withdrawal of `more` than that fails with `InvalidWithdrawAmount`.
pub proof fn lemma_deposit_then_withdraw(
    accounts: TransfersAccounts,
    derived: TransfersAddressesView,
    amount: u64,
    more: u64,
    transfer: Result<(), TransferError>,
)
    requires
        accounts.vault.data.wf(),
        accounts.user_transfers.data.wf(),
        deposit_failure(accounts, derived, amount, Ok(())) is None,
        more > accounts.user_transfers.data.spec_available(),
    ensures
        ({
            let funded = after_deposit(accounts, derived, amount, Ok(()));
            let drained = after_withdraw(funded, derived, amount, Ok(()));
            &&& funded.user_transfers.data.spec_available()
                == accounts.user_transfers.data.spec_available() + amount
            &&& withdraw_failure(funded, derived, amount, Ok(())) is None
            &&& drained.user_transfers.data.spec_available()
                == accounts.user_transfers.data.spec_available()
            &&& withdraw_failure(drained, derived, more, transfer) == Some(
                VaultError::Program(ErrorCode::InvalidWithdrawAmount),
            )
            &&& after_withdraw(drained, derived, more, transfer) == drained
        }),
{
}

/// The totals never wrap. After a successful deposit of `u64::MAX`, a deposit
/// of one token or more whose transfer succeeded fails with `Arithmetic`, and
/// neither total changes.
pub proof fn lemma_full_vault(
    accounts: TransfersAccounts,
    derived: TransfersAddressesView,
    amount: u64,
)
    requires
        deposit_failure(accounts, derived, u64::MAX, Ok(())) is None,
        amount >= 1,
    ensures
        ({
            let full = after_deposit(accounts, derived, u64::MAX, Ok(()));
            &&& deposit_failure(full, derived, amount, Ok(())) == Some(VaultError::Arithmetic)
            &&& after_deposit(full, derived, amount, Ok(())) == full
        }),
{
}

/// Nobody signs for the custody account with a forged bump. Where the bump
/// that the vault record stores does not reconstruct `accounts.vault_authority`
/// under `program_id`, a withdrawal is refused before any transfer is asked
/// for, and changes nothing.
pub proof fn lemma_forged_authority(
    accounts: TransfersAccounts,
    program_id: Seq<u8>,
    amount: u64,
    transfer: Result<(), TransferError>,
)
    requires
        program_address(authority_signature(accounts), program_id) != Some(
            accounts.vault_authority@,
        ),
    ensures
        withdraw_refusal(accounts, accounts.expected(program_id), amount) is Some,
        withdraw_failure(accounts, accounts.expected(program_id), amount, transfer) is Some,
        after_withdraw(accounts, accounts.expected(program_id), amount, transfer) == accounts,
{
}

} // verus!
