use anchor_vault::accounts::{
    Account, CpiContext, InitializeVault, InitializeVaultAddresses, Mint, Signer, TokenAccount,
    Transfer, TransfersAccounts, TransfersAddresses,
};
use anchor_vault::identity::{reconstruct, Identity};
use anchor_vault::seeds::{
    authority_purpose, custody_purpose, one_parent, two_parents, user_transfers_purpose,
    vault_purpose,
};
use anchor_vault::state::{UserTransfers, Vault, VaultBumps, VaultError};

fn id(byte: u8) -> Identity {
    Identity { bytes: [byte; 32] }
}

fn vault_record() -> Vault {
    Vault {
        deposited_amount: 10,
        withdrawn_amount: 4,
        initialized: true,
        owner: id(31),
        mint: id(32),
        bumps: VaultBumps { vault: 250, vault_authority: 249, vault_token_account: 248 },
    }
}

fn accounts() -> TransfersAccounts {
    TransfersAccounts {
        user: Signer { key: id(33), is_signer: true },
        user_token_account: Account { key: id(34), data: TokenAccount { mint: id(32), owner: id(33) } },
        mint: Account { key: id(32), data: Mint { is_initialized: true } },
        vault: Account { key: id(35), data: vault_record() },
        user_transfers: Account { key: id(36), data: UserTransfers::new(id(33), id(35), 255) },
        vault_authority: id(37),
        vault_token_account: Account {
            key: id(38),
            data: TokenAccount { mint: id(32), owner: id(37) },
        },
        token_program: id(39),
    }
}

fn matching() -> TransfersAddresses {
    TransfersAddresses {
        user_transfers: Some((id(36), 201)),
        vault: Some(id(35)),
        vault_authority: Some(id(37)),
        vault_token_account: Some(id(38)),
    }
}

#[test]
fn transfers_context_calls_the_token_program() {
    let data = Transfer { from: id(1), to: id(2), authority: id(3) };
    let call = accounts().token_program_context(data);
    assert_eq!(call, CpiContext { program: id(39), accounts: data, signer_seeds: vec![] });
}

#[test]
fn with_signer_keeps_the_call() {
    let data = Transfer { from: id(1), to: id(2), authority: id(3) };
    let call = CpiContext::new(id(9), data).with_signer(vec![vec![1, 2], vec![3]]);
    assert_eq!(
        call,
        CpiContext { program: id(9), accounts: data, signer_seeds: vec![vec![1, 2], vec![3]] }
    );
}

#[test]
fn account_clone_is_a_copy() {
    let account = Account { key: id(5), data: Mint { is_initialized: true } };
    assert_eq!(account.clone(), account);
}

#[test]
fn transfers_addresses_come_from_the_seeds() {
    let a = accounts();
    let derived = a.addresses(&id(7));
    assert_eq!(
        derived.user_transfers,
        anchor_vault::identity::derive(&user_transfers_purpose(), &two_parents(id(35), id(33)), &id(7))
    );
    assert_eq!(derived.vault, reconstruct(&vault_purpose(), &two_parents(id(31), id(32)), 250, &id(7)));
    assert_eq!(
        derived.vault_authority,
        reconstruct(&authority_purpose(), &one_parent(id(35)), 249, &id(7))
    );
    assert_eq!(
        derived.vault_token_account,
        reconstruct(&custody_purpose(), &one_parent(id(35)), 248, &id(7))
    );
    assert!(derived.user_transfers.is_some());
}

#[test]
fn initialize_addresses_come_from_the_seeds() {
    let a = InitializeVault {
        owner: Signer { key: id(31), is_signer: true },
        mint: Account { key: id(32), data: Mint { is_initialized: true } },
        vault: Account { key: id(35), data: vault_record() },
        vault_authority: id(37),
        vault_token_account: Account { key: id(38), data: TokenAccount { mint: id(0), owner: id(0) } },
        token_program: id(39),
    };
    let derived = a.addresses(&id(7));
    assert_eq!(
        derived,
        InitializeVaultAddresses {
            vault: anchor_vault::identity::derive(
                &vault_purpose(),
                &two_parents(id(31), id(32)),
                &id(7)
            ),
            vault_authority: anchor_vault::identity::derive(
                &authority_purpose(),
                &one_parent(id(35)),
                &id(7)
            ),
            vault_token_account: anchor_vault::identity::derive(
                &custody_purpose(),
                &one_parent(id(35)),
                &id(7)
            ),
        }
    );
    assert!(derived.vault.is_some());
    assert_ne!(derived.vault_authority, derived.vault_token_account);
}

#[test]
fn validate_returns_the_bump_of_the_record() {
    assert_eq!(accounts().validate(&matching()), Ok(201));
}

#[test]
fn validate_reports_the_first_rule_broken() {
    let mut a = accounts();
    a.user.key = id(31);
    a.user_token_account.data.mint = id(1);
    assert_eq!(a.validate(&matching()), Err(VaultError::OwnerNotAllowed));
    a.user_transfers.key = id(2);
    assert_eq!(a.validate(&matching()), Err(VaultError::SeedsMismatch));
    a.mint.data.is_initialized = false;
    assert_eq!(a.validate(&matching()), Err(VaultError::MintNotInitialized));
    a.user.is_signer = false;
    assert_eq!(a.validate(&matching()), Err(VaultError::MissingSignature));
}

#[test]
fn validate_checks_each_address() {
    let a = accounts();
    let other = TransfersAddresses { user_transfers: Some((id(1), 201)), ..matching() };
    assert_eq!(a.validate(&other), Err(VaultError::SeedsMismatch));
    let other = TransfersAddresses { vault: Some(id(1)), ..matching() };
    assert_eq!(a.validate(&other), Err(VaultError::SeedsMismatch));
    let other = TransfersAddresses { vault_authority: Some(id(1)), ..matching() };
    assert_eq!(a.validate(&other), Err(VaultError::SeedsMismatch));
    let other = TransfersAddresses { vault_token_account: Some(id(1)), ..matching() };
    assert_eq!(a.validate(&other), Err(VaultError::SeedsMismatch));
}

#[test]
fn initialize_validate_returns_the_bumps() {
    let a = InitializeVault {
        owner: Signer { key: id(31), is_signer: true },
        mint: Account { key: id(32), data: Mint { is_initialized: true } },
        vault: Account { key: id(35), data: Vault { initialized: false, ..vault_record() } },
        vault_authority: id(37),
        vault_token_account: Account { key: id(38), data: TokenAccount { mint: id(0), owner: id(0) } },
        token_program: id(39),
    };
    let derived = InitializeVaultAddresses {
        vault: Some((id(35), 3)),
        vault_authority: Some((id(37), 2)),
        vault_token_account: Some((id(38), 1)),
    };
    assert_eq!(
        a.validate(&derived),
        Ok(VaultBumps { vault: 3, vault_authority: 2, vault_token_account: 1 })
    );
    let mut b = a;
    b.vault.data.initialized = true;
    assert_eq!(b.validate(&derived), Err(VaultError::AlreadyInitialized));
    let other = InitializeVaultAddresses { vault: Some((id(36), 3)), ..derived };
    assert_eq!(b.validate(&other), Err(VaultError::SeedsMismatch));
}
