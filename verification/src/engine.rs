//! The engine: the ledger held in hash tables, and the operations on it.

use std::collections::HashMap;
use std::collections::HashSet;
use vstd::prelude::*;
use crate::account::{values, Account};
use crate::error::EngineError;
use crate::ledger::{has_entry, Ledger};
use crate::transaction::{Transaction, TransactionType};

verus! {

/// Holds the accounts, the amounts of the deposits and withdrawals seen so
/// far, and the set of disputed transactions.
pub struct Engine {
    client_account: HashMap<u16, Account>,
    recorded: HashMap<u32, i64>,
    transaction_under_dispute: HashSet<u32>,
}

impl View for Engine {
    type V = Ledger;

    closed spec fn view(&self) -> Ledger {
        Ledger {
            accounts: self.client_account@,
            recorded: self.recorded@,
            disputed: self.transaction_under_dispute@,
        }
    }
}

impl Engine {
    /// The engine holds a well-formed ledger: every account is filed under
    /// its own client id and is balanced, and every disputed transaction is
    /// a recorded one.
    pub open spec fn wf(&self) -> bool {
        self@.wf()
    }

    /// Returns the account of `client_id`, after opening one without funds
    /// if the client had none.
    fn open_account(&mut self, client_id: u16) -> (account: Account)
        requires
            old(self).wf(),
        ensures
            final(self).wf(),
            final(self)@ == old(self)@.touch(client_id),
            account == final(self)@.accounts[client_id],
    {
        match self.client_account.get(&client_id) {
            Some(account) => *account,
            None => {
                let account = Account::new(client_id);
                self.client_account.insert(client_id, account);
                assert(self@ == old(self)@.touch(client_id));
                account
            },
        }
    }

    /// Applies one transaction.
    ///
    /// The engine afterwards and the result are those of [`Ledger::apply`].
    pub fn apply(&mut self, tr: &Transaction) -> (res: Result<(), EngineError>)
        requires
            old(self).wf(),
        ensures
            final(self).wf(),
            final(self)@ == old(self)@.apply(*tr).ledger,
            res == old(self)@.apply(*tr).result,
    {
        let account = self.open_account(tr.client_id);
        let out_of_range = EngineError::BalanceOutOfRange { client_id: tr.client_id };
        match tr.kind {
            TransactionType::Deposit => {
                match account.shift(tr.amount as i128, 0) {
                    Some(moved) => {
                        self.client_account.insert(tr.client_id, moved);
                        self.record(tr);
                        Ok(())
                    },
                    None => Err(out_of_range),
                }
            },
            TransactionType::Withdrawal => {
                if account.available < tr.amount {
                    return Err(EngineError::InsufficientFunds { client_id: tr.client_id });
                }
                match account.shift(-(tr.amount as i128), 0) {
                    Some(moved) => {
                        self.client_account.insert(tr.client_id, moved);
                        self.record(tr);
                        Ok(())
                    },
                    None => Err(out_of_range),
                }
            },
            TransactionType::Dispute => {
                let amount: i128 = match self.recorded.get(&tr.transaction_id) {
                    Some(amount) => *amount as i128,
                    None => { return Ok(()); },
                };
                match account.shift(-amount, amount) {
                    Some(moved) => {
                        self.client_account.insert(tr.client_id, moved);
                        self.transaction_under_dispute.insert(tr.transaction_id);
                        Ok(())
                    },
                    None => Err(out_of_range),
                }
            },
            TransactionType::Resolve => {
                let amount: i128 = match self.disputed_amount(tr.transaction_id) {
                    Some(amount) => amount as i128,
                    None => { return Ok(()); },
                };
                match account.shift(amount, -amount) {
                    Some(moved) => {
                        self.client_account.insert(tr.client_id, moved);
                        self.transaction_under_dispute.remove(&tr.transaction_id);
                        Ok(())
                    },
                    None => Err(out_of_range),
                }
            },
            TransactionType::Chargeback => {
                let amount: i128 = match self.disputed_amount(tr.transaction_id) {
                    Some(amount) => amount as i128,
                    None => { return Ok(()); },
                };
                match account.shift(0, -amount) {
                    Some(moved) => {
                        let locked = Account {
                            client_id: moved.client_id,
                            available: moved.available,
                            held: moved.held,
                            total: moved.total,
                            locked: true,
                        };
                        self.client_account.insert(tr.client_id, locked);
                        self.transaction_under_dispute.remove(&tr.transaction_id);
                        Ok(())
                    },
                    None => Err(out_of_range),
                }
            },
        }
    }

    /// Remembers the amount of a deposit or withdrawal under its id, unless
    /// the id is already taken.
    fn record(&mut self, tr: &Transaction)
        ensures
            final(self)@ == old(self)@.record(*tr),
    {
        if !self.recorded.contains_key(&tr.transaction_id) {
            self.recorded.insert(tr.transaction_id, tr.amount);
        }
    }

    /// The recorded amount of `transaction_id`, if that transaction is known
    /// and under dispute.
    fn disputed_amount(&self, transaction_id: u32) -> (amount: Option<i64>)
        ensures
            amount is Some <==> self@.is_open(TransactionType::Resolve, transaction_id),
            amount is Some ==> amount->0 == self@.recorded[transaction_id],
    {
        if !self.transaction_under_dispute.contains(&transaction_id) {
            return None;
        }
        match self.recorded.get(&transaction_id) {
            Some(amount) => Some(*amount),
            None => None,
        }
    }

    /// Applies the transactions of a batch in order and stops at the first
    /// that fails.
    ///
    /// The engine afterwards and the result are those of [`Ledger::run`]:
    /// the transactions before the failing one have been applied, the
    /// failing one has opened its client's account, the ones after it have
    /// not been looked at.
    pub fn process_transactions(&mut self, transactions: &[Transaction]) -> (res: Result<
        (),
        EngineError,
    >)
        requires
            old(self).wf(),
        ensures
            final(self).wf(),
            final(self)@ == old(self)@.run(transactions@).ledger,
            res == old(self)@.run(transactions@).result,
    {
        let ghost whole = self@.run(transactions@);
        let mut done: usize = 0;
        assert(transactions@.skip(0) =~= transactions@);
        while done < transactions.len()
            invariant
                done <= transactions.len(),
                self.wf(),
                whole == old(self)@.run(transactions@),
                self@.run(transactions@.skip(done as int)) == whole,
            decreases transactions.len() - done,
        {
            let ghost before = self@;
            let ghost rest = transactions@.skip(done as int);
            let res = self.apply(&transactions[done]);
            proof {
                assert(rest.drop_first() =~= transactions@.skip(done + 1));
                assert(whole == if res is Err {
                    before.apply(rest[0])
                } else {
                    self@.run(rest.drop_first())
                });
            }
            if res.is_err() {
                return res;
            }
            done += 1;
        }
        Ok(())
    }
}

impl Engine {
    /// The account of `client_id`, if a transaction has named that client.
    /// It is balanced.
    pub fn get_account(&self, client_id: u16) -> (account: Option<&Account>)
        requires
            self.wf(),
        ensures
            account == if self@.accounts.contains_key(client_id) {
                Some(&self@.accounts[client_id])
            } else {
                None
            },
            account matches Some(found) ==> found.client_id == client_id && found.balanced(),
    {
        let account = self.client_account.get(&client_id);
        assert(account is Some ==> self@.accounts.contains_key(client_id));
        account
    }

    /// Files `account` under its client id, in place of the account that the
    /// client had, if any. An account whose total is not the sum of its
    /// available and held funds is refused, and the engine stays as it was.
    pub fn insert_account(&mut self, account: Account) -> (accepted: bool)
        requires
            old(self).wf(),
        ensures
            final(self).wf(),
            accepted == account.balanced(),
            final(self)@ == if accepted {
                old(self)@.put(account)
            } else {
                old(self)@
            },
    {
        let sum: i128 = account.available as i128 + account.held as i128;
        if account.total as i128 == sum {
            self.client_account.insert(account.client_id, account);
            assert(self@ == old(self)@.put(account));
            true
        } else {
            false
        }
    }

    /// The accounts of all clients that a transaction has named, each once,
    /// in ascending order of client id. Each of them is balanced.
    pub fn get_accounts(&self) -> (accounts: Vec<&Account>)
        requires
            self.wf(),
        ensures
            self@.is_listing(values(accounts@)),
            forall|i: int| 0 <= i < accounts.len() ==> (#[trigger] accounts[i]).balanced(),
    {
        let mut accounts: Vec<&Account> = Vec::new();
        let mut next: u32 = 0;
        while next <= 0xFFFF
            invariant
                next <= 0x1_0000,
                self.wf(),
                self@.lists_below(next as int, values(accounts@)),
            decreases 0x1_0000 - next,
        {
            let client_id: u16 = next as u16;
            let ghost before = values(accounts@);
            if let Some(account) = self.client_account.get(&client_id) {
                accounts.push(account);
                proof {
                    let after = values(accounts@);
                    assert(self@.accounts.contains_key(client_id));
                    assert(after =~= before.push(*account));
                    assert forall|other: u16|
                        other < next + 1 && #[trigger] self@.accounts.contains_key(
                            other,
                        ) implies has_entry(after, other) by {
                        if other == client_id {
                            assert(after[before.len() as int].client_id == other);
                        } else {
                            let i = choose|i: int|
                                0 <= i < before.len() && (#[trigger] before[i]).client_id == other;
                            assert(after[i].client_id == other);
                        }
                    }
                }
            }
            next += 1;
        }
        proof {
            let listing = values(accounts@);
            assert forall|i: int| 0 <= i < accounts.len() implies (
            #[trigger] accounts[i]).balanced() by {
                assert(listing[i] == *accounts[i]);
            }
        }
        accounts
    }
}

impl Default for Engine {
    /// An engine without accounts.
    fn default() -> (engine: Engine)
        ensures
            engine.wf(),
            engine@ == Ledger::empty(),
    {
        Engine {
            client_account: HashMap::new(),
            recorded: HashMap::new(),
            transaction_under_dispute: HashSet::new(),
        }
    }
}

} // verus!
