//! The two-level ledger as a whole: one vault record and the records of all
//! its depositors, and why every operation keeps the two levels in step.

use crate::accounts::{InitializeVault, InitializeVaultAddressesView, TransfersAccounts,
    TransfersAddressesView};
use crate::instructions::{after_deposit, after_withdraw, initialized_accounts};
use crate::state::{TransferError, UserTransfers, Vault};
use vstd::prelude::*;

verus! {

/// All the records of one vault: its own, and one for each depositor.
pub struct Ledger {
    pub vault: Vault,
    pub depositors: Seq<UserTransfers>,
}

/// The sum of what the depositors have deposited.
pub open spec fn total_deposited(records: Seq<UserTransfers>) -> int
    decreases records.len(),
{
    if records.len() == 0 {
        0
    } else {
        total_deposited(records.drop_last()) + records.last().deposited_amount
    }
}

/// The sum of what the depositors have withdrawn.
pub open spec fn total_withdrawn(records: Seq<UserTransfers>) -> int
    decreases records.len(),
{
    if records.len() == 0 {
        0
    } else {
        total_withdrawn(records.drop_last()) + records.last().withdrawn_amount
    }
}

impl Ledger {
    /// The invariant of the ledger: every depositor's record is well formed,
    /// and each total of the vault is the sum of its depositors' totals.
    pub open spec fn consistent(self) -> bool {
        &&& forall|i: int| 0 <= i < self.depositors.len() ==> (#[trigger] self.depositors[i]).wf()
        &&& self.vault.deposited_amount == total_deposited(self.depositors)
        &&& self.vault.withdrawn_amount == total_withdrawn(self.depositors)
    }

    /// Whether `accounts` hold this ledger's vault record and the record of
    /// its depositor `i`.
    pub open spec fn holds(self, i: int, accounts: TransfersAccounts) -> bool {
        &&& 0 <= i < self.depositors.len()
        &&& accounts.vault.data == self.vault
        &&& accounts.user_transfers.data == self.depositors[i]
    }

    /// The ledger once the vault record and the record of depositor `i` are
    /// stored back from `accounts`.
    pub open spec fn stored(self, i: int, accounts: TransfersAccounts) -> Ledger {
        Ledger {
            vault: accounts.vault.data,
            depositors: self.depositors.update(i, accounts.user_transfers.data),
        }
    }
}

/// Replacing one record changes each sum by the difference of the two records.
pub proof fn lemma_totals_update(records: Seq<UserTransfers>, i: int, record: UserTransfers)
    requires
        0 <= i < records.len(),
    ensures
        total_deposited(records.update(i, record)) == total_deposited(records)
            - records[i].deposited_amount + record.deposited_amount,
        total_withdrawn(records.update(i, record)) == total_withdrawn(records)
            - records[i].withdrawn_amount + record.withdrawn_amount,
    decreases records.len(),
{
    let updated = records.update(i, record);
    if i == records.len() - 1 {
        assert(updated.drop_last() =~= records.drop_last());
    } else {
        assert(updated.drop_last() =~= records.drop_last().update(i, record));
        lemma_totals_update(records.drop_last(), i, record);
    }
}

/// Where no depositor has withdrawn more than deposited, the sums are in the
/// same order.
pub proof fn lemma_totals_ordered(records: Seq<UserTransfers>)
    requires
        forall|i: int| 0 <= i < records.len() ==> (#[trigger] records[i]).wf(),
    ensures
        0 <= total_withdrawn(records) <= total_deposited(records),
    decreases records.len(),
{
    if records.len() > 0 {
        assert forall|i: int| 0 <= i < records.drop_last().len() implies (
        #[trigger] records.drop_last()[i]).wf() by {
            assert(records.drop_last()[i] == records[i]);
        }
        lemma_totals_ordered(records.drop_last());
        assert(records.last().wf());
    }
}

/// In a consistent ledger the vault has not paid out more than it took in,
/// and neither has any depositor.
pub proof fn lemma_consistent_bounds(ledger: Ledger)
    requires
        ledger.consistent(),
    ensures
        ledger.vault.wf(),
        forall|i: int|
            0 <= i < ledger.depositors.len() ==> (
            #[trigger] ledger.depositors[i]).withdrawn_amount
                <= ledger.depositors[i].deposited_amount,
{
    lemma_totals_ordered(ledger.depositors);
    assert forall|i: int| 0 <= i < ledger.depositors.len() implies (
    #[trigger] ledger.depositors[i]).withdrawn_amount <= ledger.depositors[i].deposited_amount by {
        assert(ledger.depositors[i].wf());
    }
}

/// A vault that was just initialized, with no depositor yet, is a consistent
/// ledger.
pub proof fn lemma_initialize_consistent(
    accounts: InitializeVault,
    derived: InitializeVaultAddressesView,
)
    ensures
        (Ledger {
            vault: initialized_accounts(accounts, derived).vault.data,
            depositors: Seq::empty(),
        }).consistent(),
{
}

/// A ledger stays consistent when a depositor joins whose record is not yet
/// initialized and counts nothing.
pub proof fn lemma_join_consistent(ledger: Ledger, record: UserTransfers)
    requires
        ledger.consistent(),
        is_blank(record),
    ensures
        (Ledger { vault: ledger.vault, depositors: ledger.depositors.push(record) }).consistent(),
{
    let joined = ledger.depositors.push(record);
    assert(joined.drop_last() =~= ledger.depositors);
    assert forall|i: int| 0 <= i < joined.len() implies (#[trigger] joined[i]).wf() by {
        if i < ledger.depositors.len() {
            assert(ledger.depositors[i].wf());
        }
    }
}

/// A deposit keeps the ledger consistent, whether it succeeds or fails and
/// whatever the accounts, the amount and the outcome of the transfer are.
pub proof fn lemma_deposit_consistent(
    ledger: Ledger,
    i: int,
    accounts: TransfersAccounts,
    derived: TransfersAddressesView,
    amount: u64,
    transfer: Result<(), TransferError>,
)
    requires
        ledger.consistent(),
        ledger.holds(i, accounts),
    ensures
        ledger.stored(i, after_deposit(accounts, derived, amount, transfer)).consistent(),
{
    let after = after_deposit(accounts, derived, amount, transfer);
    let stored = ledger.stored(i, after);
    lemma_totals_update(ledger.depositors, i, after.user_transfers.data);
    assert(ledger.depositors[i].wf());
    assert forall|k: int| 0 <= k < stored.depositors.len() implies (
    #[trigger] stored.depositors[k]).wf() by {
        if k != i {
            assert(ledger.depositors[k].wf());
        }
    }
}

/// A withdrawal keeps the ledger consistent, whether it succeeds or fails and
/// whatever the accounts, the amount and the outcome of the transfer are.
pub proof fn lemma_withdraw_consistent(
    ledger: Ledger,
    i: int,
    accounts: TransfersAccounts,
    derived: TransfersAddressesView,
    amount: u64,
    transfer: Result<(), TransferError>,
)
    requires
        ledger.consistent(),
        ledger.holds(i, accounts),
    ensures
        ledger.stored(i, after_withdraw(accounts, derived, amount, transfer)).consistent(),
{
    let after = after_withdraw(accounts, derived, amount, transfer);
    let stored = ledger.stored(i, after);
    lemma_totals_update(ledger.depositors, i, after.user_transfers.data);
    assert(ledger.depositors[i].wf());
    assert forall|k: int| 0 <= k < stored.depositors.len() implies (
    #[trigger] stored.depositors[k]).wf() by {
        if k != i {
            assert(ledger.depositors[k].wf());
        }
    }
}

/// One step in the life of a ledger.
pub enum Step {
    /// A depositor joins, with `record`, which counts nothing yet.
    Join { record: UserTransfers },
    /// Depositor `depositor` deposits, on `accounts`.
    Deposit {
        depositor: int,
        accounts: TransfersAccounts,
        derived: TransfersAddressesView,
        amount: u64,
        transfer: Result<(), TransferError>,
    },
    /// Depositor `depositor` withdraws, on `accounts`.
    Withdraw {
        depositor: int,
        accounts: TransfersAccounts,
        derived: TransfersAddressesView,
        amount: u64,
        transfer: Result<(), TransferError>,
    },
}

/// Whether a record is that of a depositor who never deposited: not
/// initialized, and counting nothing.
pub open spec fn is_blank(record: UserTransfers) -> bool {
    !record.initialized && record.deposited_amount == 0 && record.withdrawn_amount == 0
}

impl Ledger {
    /// The ledger after one step. A depositor joins with a blank record, and
    /// a deposit or a withdrawal works on the records that the ledger holds;
    /// a step that does not changes nothing.
    pub open spec fn step(self, step: Step) -> Ledger {
        match step {
            Step::Join { record } => {
                if is_blank(record) {
                    Ledger { vault: self.vault, depositors: self.depositors.push(record) }
                } else {
                    self
                }
            },
            Step::Deposit { depositor, accounts, derived, amount, transfer } => {
                if self.holds(depositor, accounts) {
                    self.stored(depositor, after_deposit(accounts, derived, amount, transfer))
                } else {
                    self
                }
            },
            Step::Withdraw { depositor, accounts, derived, amount, transfer } => {
                if self.holds(depositor, accounts) {
                    self.stored(depositor, after_withdraw(accounts, derived, amount, transfer))
                } else {
                    self
                }
            },
        }
    }

    /// The ledger after `steps`, one after the other.
    pub open spec fn run(self, steps: Seq<Step>) -> Ledger
        decreases steps.len(),
    {
        if steps.len() == 0 {
            self
        } else {
            self.run(steps.drop_last()).step(steps.last())
        }
    }
}

/// The invariant holds in every state that can be reached: a consistent
/// ledger is consistent after any sequence of joins, deposits and
/// withdrawals, failed or not. So then the vault's totals are the sums of its
/// depositors' totals, and nobody has withdrawn more than deposited.
pub proof fn lemma_run_consistent(ledger: Ledger, steps: Seq<Step>)
    requires
        ledger.consistent(),
    ensures
        ledger.run(steps).consistent(),
        ledger.run(steps).vault.wf(),
    decreases steps.len(),
{
    if steps.len() > 0 {
        let before = ledger.run(steps.drop_last());
        lemma_run_consistent(ledger, steps.drop_last());
        match steps.last() {
            Step::Join { record } => {
                if is_blank(record) {
                    lemma_join_consistent(before, record);
                }
            },
            Step::Deposit { depositor, accounts, derived, amount, transfer } => {
                if before.holds(depositor, accounts) {
                    lemma_deposit_consistent(
                        before,
                        depositor,
                        accounts,
                        derived,
                        amount,
                        transfer,
                    );
                }
            },
            Step::Withdraw { depositor, accounts, derived, amount, transfer } => {
                if before.holds(depositor, accounts) {
                    lemma_withdraw_consistent(
                        before,
                        depositor,
                        accounts,
                        derived,
                        amount,
                        transfer,
                    );
                }
            },
        }
    }
    lemma_consistent_bounds(ledger.run(steps));
}

} // verus!
