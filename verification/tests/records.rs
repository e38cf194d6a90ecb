use anchor_vault::identity::Identity;
use anchor_vault::state::{ErrorCode, UserTransfers, Vault, VaultBumps};

fn id(byte: u8) -> Identity {
    Identity { bytes: [byte; 32] }
}

#[test]
fn new_vault_is_empty_and_initialized() {
    let bumps = VaultBumps { vault: 255, vault_authority: 253, vault_token_account: 254 };
    let vault = Vault::new(id(1), id(2), bumps);
    assert_eq!(
        vault,
        Vault {
            deposited_amount: 0,
            withdrawn_amount: 0,
            initialized: true,
            owner: id(1),
            mint: id(2),
            bumps,
        }
    );
}

#[test]
fn new_record_is_empty_and_initialized() {
    let record = UserTransfers::new(id(3), id(4), 251);
    assert_eq!(
        record,
        UserTransfers {
            deposited_amount: 0,
            withdrawn_amount: 0,
            initialized: true,
            owner: id(3),
            vault: id(4),
            bump: 251,
        }
    );
}

#[test]
fn record_lengths() {
    assert_eq!(Vault::LEN, 92);
    assert_eq!(UserTransfers::LEN, 90);
}

#[test]
fn available_is_deposits_less_withdrawals() {
    let mut record = UserTransfers::new(id(3), id(4), 251);
    assert_eq!(record.available(), Some(0));
    record.deposited_amount = 700;
    record.withdrawn_amount = 258;
    assert_eq!(record.available(), Some(442));
    record.withdrawn_amount = 700;
    assert_eq!(record.available(), Some(0));
    record.deposited_amount = u64::MAX;
    record.withdrawn_amount = 0;
    assert_eq!(record.available(), Some(u64::MAX));
}

#[test]
fn available_of_a_corrupt_record_is_none() {
    let mut record = UserTransfers::new(id(3), id(4), 251);
    record.deposited_amount = 5;
    record.withdrawn_amount = 6;
    assert_eq!(record.available(), None);
}

#[test]
fn invalid_withdraw_amount_message() {
    assert_eq!(
        ErrorCode::InvalidWithdrawAmount.message(),
        "Withdraw amount must be an amount available in the vault"
    );
}
