//! Client accounts.

use vstd::prelude::*;

verus! {

/// The balances of one client, in ten-thousandths of a unit.
#[derive(Clone, Copy, Debug, PartialEq, Eq, Structural)]
pub struct Account {
    /// The client this account belongs to.
    pub client_id: u16,
    /// Funds that are not held.
    pub available: i64,
    /// Funds frozen while a dispute is open.
    pub held: i64,
    /// Funds that are available or held.
    pub total: i64,
    /// Set for good once a chargeback was applied.
    pub locked: bool,
}

/// Whether `amount` can be held as a signed 64-bit count.
pub open spec fn fits(amount: int) -> bool {
    i64::MIN <= amount <= i64::MAX
}

/// The accounts that a sequence of references points to.
pub open spec fn values(accounts: Seq<&Account>) -> Seq<Account> {
    accounts.map_values(|account: &Account| *account)
}

impl Account {
    /// The account a client has before any transaction: no funds, not locked.
    pub open spec fn fresh(client_id: u16) -> Account {
        Account { client_id, available: 0, held: 0, total: 0, locked: false }
    }

    /// The total is the sum of the available and the held funds.
    pub open spec fn balanced(self) -> bool {
        self.total == self.available + self.held
    }

    /// The account after `available` was added to the available funds and
    /// `held` to the held funds, or `None` if a balance would not fit. The
    /// total moves by the sum of the two, so a balanced account stays balanced.
    pub open spec fn shifted(self, available: int, held: int) -> Option<Account> {
        let new_available: int = self.available + available;
        let new_held: int = self.held + held;
        let new_total: int = self.total + available + held;
        if fits(new_available) && fits(new_held) && fits(new_total) {
            Some(
                Account {
                    available: new_available as i64,
                    held: new_held as i64,
                    total: new_total as i64,
                    ..self
                },
            )
        } else {
            None
        }
    }

    /// Opens an account without funds for `client_id`.
    pub fn new(client_id: u16) -> (account: Account)
        ensures
            account == Account::fresh(client_id),
    {
        Account { client_id, available: 0, held: 0, total: 0, locked: false }
    }

    /// Adds `available` to the available funds and `held` to the held funds,
    /// and their sum to the total. Returns `None` if a balance would not fit.
    /// Each of the two is an amount of a transaction, or the opposite of one.
    pub(crate) fn shift(&self, available: i128, held: i128) -> (moved: Option<Account>)
        requires
            i64::MIN <= available <= -i64::MIN,
            i64::MIN <= held <= -i64::MIN,
        ensures
            moved == self.shifted(available as int, held as int),
    {
        let new_available: i128 = self.available as i128 + available;
        let new_held: i128 = self.held as i128 + held;
        let new_total: i128 = self.total as i128 + available + held;
        if in_range(new_available) && in_range(new_held) && in_range(new_total) {
            Some(
                Account {
                    client_id: self.client_id,
                    available: new_available as i64,
                    held: new_held as i64,
                    total: new_total as i64,
                    locked: self.locked,
                },
            )
        } else {
            None
        }
    }
}

/// Tests whether `amount` can be held as a signed 64-bit count.
fn in_range(amount: i128) -> (ok: bool)
    ensures
        ok == fits(amount as int),
{
    i64::MIN as i128 <= amount && amount <= i64::MAX as i128
}

impl Default for Account {
    fn default() -> (account: Account)
        ensures
            account == Account::fresh(0),
    {
        Account::new(0)
    }
}

} // verus!
