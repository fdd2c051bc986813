//! Transactions, the events that the engine consumes.

use vstd::prelude::*;

verus! {

/// What a transaction asks for.
#[derive(Clone, Copy, Debug, PartialEq, Eq, Structural)]
pub enum TransactionType {
    /// Adds funds to a client's account.
    Deposit,
    /// Takes funds out of a client's account.
    Withdrawal,
    /// Puts the funds of an earlier deposit or withdrawal on hold.
    Dispute,
    /// Ends a dispute and releases the held funds.
    Resolve,
    /// Ends a dispute, removes the held funds and locks the account.
    Chargeback,
}

impl TransactionType {
    /// Deposits and withdrawals carry an amount; the other kinds refer to one
    /// of them by its transaction id.
    pub open spec fn is_monetary(self) -> bool {
        self == TransactionType::Deposit || self == TransactionType::Withdrawal
    }

    /// By how much a transaction of this kind changes the available funds
    /// when it moves `amount`.
    pub open spec fn available_change(self, amount: int) -> int {
        match self {
            TransactionType::Deposit => amount,
            TransactionType::Withdrawal => -amount,
            TransactionType::Dispute => -amount,
            TransactionType::Resolve => amount,
            TransactionType::Chargeback => 0,
        }
    }

    /// By how much a transaction of this kind changes the held funds when it
    /// moves `amount`.
    pub open spec fn held_change(self, amount: int) -> int {
        match self {
            TransactionType::Deposit => 0,
            TransactionType::Withdrawal => 0,
            TransactionType::Dispute => amount,
            TransactionType::Resolve => -amount,
            TransactionType::Chargeback => -amount,
        }
    }

    /// The kind that `name` stands for, if it is the name of one. Names are
    /// in lower case and match as a whole.
    pub open spec fn named(name: Seq<char>) -> Option<TransactionType> {
        if name == "deposit"@ {
            Some(TransactionType::Deposit)
        } else if name == "withdrawal"@ {
            Some(TransactionType::Withdrawal)
        } else if name == "dispute"@ {
            Some(TransactionType::Dispute)
        } else if name == "resolve"@ {
            Some(TransactionType::Resolve)
        } else if name == "chargeback"@ {
            Some(TransactionType::Chargeback)
        } else {
            None
        }
    }

    /// What `from_str` says of a text that names no kind.
    pub open spec fn complaint(name: Seq<char>) -> Seq<char> {
        "'"@ + name + "' is not a valid value for TransactionType"@
    }

    /// Reads the name of a kind. Any other text is refused with a message
    /// that quotes it.
    pub fn from_str(s: &str) -> (res: Result<TransactionType, String>)
        ensures
            match res {
                Ok(kind) => TransactionType::named(s@) == Some(kind),
                Err(message) => TransactionType::named(s@) is None && message@
                    == TransactionType::complaint(s@),
            },
    {
        let name = String::from_str(s);
        if name == String::from_str("deposit") {
            Ok(TransactionType::Deposit)
        } else if name == String::from_str("withdrawal") {
            Ok(TransactionType::Withdrawal)
        } else if name == String::from_str("dispute") {
            Ok(TransactionType::Dispute)
        } else if name == String::from_str("resolve") {
            Ok(TransactionType::Resolve)
        } else if name == String::from_str("chargeback") {
            Ok(TransactionType::Chargeback)
        } else {
            let mut message = String::from_str("'");
            message.append(s);
            message.append("' is not a valid value for TransactionType");
            Err(message)
        }
    }
}

/// Each kind has a name of its own: the five names are told apart.
pub proof fn lemma_kind_names()
    ensures
        TransactionType::named("deposit"@) == Some(TransactionType::Deposit),
        TransactionType::named("withdrawal"@) == Some(TransactionType::Withdrawal),
        TransactionType::named("dispute"@) == Some(TransactionType::Dispute),
        TransactionType::named("resolve"@) == Some(TransactionType::Resolve),
        TransactionType::named("chargeback"@) == Some(TransactionType::Chargeback),
{
    reveal_strlit("deposit");
    reveal_strlit("withdrawal");
    reveal_strlit("dispute");
    reveal_strlit("resolve");
    reveal_strlit("chargeback");
    assert("deposit"@[1] != "dispute"@[1]);
    assert("dispute"@[0] != "resolve"@[0]);
    assert("withdrawal"@[0] != "chargeback"@[0]);
}

/// One event of the input stream.
#[derive(Clone, Copy, Debug, PartialEq, Eq, Structural)]
pub struct Transaction {
    /// What the transaction asks for.
    pub kind: TransactionType,
    /// The client whose account the transaction works on.
    pub client_id: u16,
    /// The id of a deposit or withdrawal; for the other kinds, the id of the
    /// deposit or withdrawal that they refer to.
    pub transaction_id: u32,
    /// The amount of a deposit or withdrawal, in ten-thousandths of a unit.
    /// The other kinds do not read it.
    pub amount: i64,
}

} // verus!
