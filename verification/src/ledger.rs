//! The mathematical model of the engine: what a ledger holds and how one
//! transaction changes it.

use vstd::prelude::*;
use crate::account::Account;
use crate::error::EngineError;
use crate::transaction::{Transaction, TransactionType};

verus! {

/// The state of the engine.
#[verifier::ext_equal]
pub struct Ledger {
    /// The account of every client that a transaction has named so far.
    pub accounts: Map<u16, Account>,
    /// The amount of every deposit and withdrawal applied so far, by its
    /// transaction id. Where an id was used twice, the first use counts.
    pub recorded: Map<u32, i64>,
    /// The ids of the transactions that are under dispute.
    pub disputed: Set<u32>,
}

/// What applying transactions to a ledger gives: the ledger afterwards, and
/// whether processing stopped with an error.
#[verifier::ext_equal]
pub struct Outcome {
    /// The ledger afterwards.
    pub ledger: Ledger,
    /// The error of the transaction that failed, if one did.
    pub result: Result<(), EngineError>,
}

/// Whether `listing` has an entry for `client_id`.
pub open spec fn has_entry(listing: Seq<Account>, client_id: u16) -> bool {
    exists|i: int| 0 <= i < listing.len() && (#[trigger] listing[i]).client_id == client_id
}

impl Ledger {
    /// The ledger before any transaction.
    pub open spec fn empty() -> Ledger {
        Ledger { accounts: Map::empty(), recorded: Map::empty(), disputed: Set::empty() }
    }

    /// Every account is filed under its own client id and is balanced.
    pub open spec fn balanced(self) -> bool {
        forall|client_id: u16| #[trigger]
            self.accounts.contains_key(client_id) ==> {
                &&& self.accounts[client_id].client_id == client_id
                &&& self.accounts[client_id].balanced()
            }
    }

    /// What holds of every ledger that the engine reaches: it is balanced,
    /// and an amount is recorded for every transaction under dispute.
    pub open spec fn wf(self) -> bool {
        &&& self.balanced()
        &&& forall|id: u32| #[trigger] self.disputed.contains(id) ==> self.recorded.contains_key(id)
    }

    /// The balances of `client_id`: those of its account, or of a fresh one
    /// if it has none yet.
    pub open spec fn account_of(self, client_id: u16) -> Account {
        if self.accounts.contains_key(client_id) {
            self.accounts[client_id]
        } else {
            Account::fresh(client_id)
        }
    }

    /// Whether `listing` holds, in ascending order of client id and each
    /// once, the accounts of the clients with an id below `bound`: every
    /// entry is such an account, the ids ascend, and no such client is left
    /// out.
    pub open spec fn lists_below(self, bound: int, listing: Seq<Account>) -> bool {
        &&& forall|i: int|
            0 <= i < listing.len() ==> {
                let account = #[trigger] listing[i];
                &&& account.client_id < bound
                &&& self.accounts.contains_key(account.client_id)
                &&& self.accounts[account.client_id] == account
            }
        &&& forall|i: int, j: int|
            0 <= i < j < listing.len() ==> (#[trigger] listing[i]).client_id < (
            #[trigger] listing[j]).client_id
        &&& forall|client_id: u16|
            client_id < bound && #[trigger] self.accounts.contains_key(client_id) ==> has_entry(
                listing,
                client_id,
            )
    }

    /// Whether `listing` holds the accounts of the ledger, each once, in
    /// ascending order of client id.
    pub open spec fn is_listing(self, listing: Seq<Account>) -> bool {
        self.lists_below(0x1_0000, listing)
    }

    /// The ledger in which `client_id` has an account: the one it had, or a
    /// fresh one.
    pub open spec fn touch(self, client_id: u16) -> Ledger {
        if self.accounts.contains_key(client_id) {
            self
        } else {
            Ledger { accounts: self.accounts.insert(client_id, Account::fresh(client_id)), ..self }
        }
    }

    /// The ledger with `account` in place of the one its client had.
    pub open spec fn put(self, account: Account) -> Ledger {
        Ledger { accounts: self.accounts.insert(account.client_id, account), ..self }
    }

    /// The ledger that remembers the amount of `tr`, unless its id is
    /// already taken.
    pub open spec fn record(self, tr: Transaction) -> Ledger {
        if self.recorded.contains_key(tr.transaction_id) {
            self
        } else {
            Ledger { recorded: self.recorded.insert(tr.transaction_id, tr.amount), ..self }
        }
    }

    /// Whether a dispute, resolve or chargeback that names `transaction_id`
    /// finds a transaction to work on: a dispute needs a recorded deposit or
    /// withdrawal, a resolve or chargeback one that is under dispute.
    pub open spec fn is_open(self, kind: TransactionType, transaction_id: u32) -> bool {
        match kind {
            TransactionType::Dispute => self.recorded.contains_key(transaction_id),
            TransactionType::Resolve | TransactionType::Chargeback => {
                self.recorded.contains_key(transaction_id) && self.disputed.contains(
                    transaction_id,
                )
            },
            _ => false,
        }
    }

    /// The amount that `tr` moves: its own for a deposit or withdrawal, for
    /// the other kinds the recorded amount of the transaction that `tr`
    /// names. `None` where `tr` finds no transaction to work on.
    pub open spec fn amount_moved(self, tr: Transaction) -> Option<int> {
        if tr.kind.is_monetary() {
            Some(tr.amount as int)
        } else if self.is_open(tr.kind, tr.transaction_id) {
            Some(self.recorded[tr.transaction_id] as int)
        } else {
            None
        }
    }

    /// The ledger that has taken note of `tr`: a deposit or withdrawal is
    /// recorded, a dispute enters the registry, a resolve or chargeback
    /// leaves it.
    pub open spec fn note(self, tr: Transaction) -> Ledger {
        match tr.kind {
            TransactionType::Deposit | TransactionType::Withdrawal => self.record(tr),
            TransactionType::Dispute => Ledger {
                disputed: self.disputed.insert(tr.transaction_id),
                ..self
            },
            TransactionType::Resolve | TransactionType::Chargeback => Ledger {
                disputed: self.disputed.remove(tr.transaction_id),
                ..self
            },
        }
    }

    /// The ledger after `tr`, with the error if `tr` failed.
    ///
    /// The client's account is opened first, whatever happens next. A
    /// dispute, resolve or chargeback that finds no transaction to work on
    /// does nothing more. A withdrawal of more than the available funds
    /// fails, and so does any transaction that would take a balance out of
    /// range; a failed transaction changes nothing more either. Otherwise
    /// the balances move as the kind says, a chargeback locks the account,
    /// and the ledger takes note of the transaction.
    pub open spec fn apply(self, tr: Transaction) -> Outcome {
        let opened = self.touch(tr.client_id);
        let account = opened.accounts[tr.client_id];
        match opened.amount_moved(tr) {
            None => Outcome { ledger: opened, result: Ok(()) },
            Some(amount) => if tr.kind == TransactionType::Withdrawal && account.available
                < amount {
                Outcome {
                    ledger: opened,
                    result: Err(EngineError::InsufficientFunds { client_id: tr.client_id }),
                }
            } else {
                match account.shifted(
                    tr.kind.available_change(amount),
                    tr.kind.held_change(amount),
                ) {
                    None => Outcome {
                        ledger: opened,
                        result: Err(EngineError::BalanceOutOfRange { client_id: tr.client_id }),
                    },
                    Some(moved) => Outcome {
                        ledger: opened.put(
                            Account {
                                locked: moved.locked || tr.kind == TransactionType::Chargeback,
                                ..moved
                            },
                        ).note(tr),
                        result: Ok(()),
                    },
                }
            },
        }
    }

    /// The ledger after the transactions of `stream`, applied in order up to
    /// and including the first that fails.
    pub open spec fn run(self, stream: Seq<Transaction>) -> Outcome
        decreases stream.len(),
    {
        if stream.len() == 0 {
            Outcome { ledger: self, result: Ok(()) }
        } else {
            let first = self.apply(stream[0]);
            if first.result is Err {
                first
            } else {
                first.ledger.run(stream.drop_first())
            }
        }
    }
}

} // verus!
