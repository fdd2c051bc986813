//! Errors that stop the engine.

use vstd::prelude::*;
use crate::four_precision_number_format::{decimal, push_decimal};

verus! {

/// A failure that ends the processing of a batch.
#[derive(Clone, Copy, Debug, PartialEq, Eq, Structural)]
pub enum EngineError {
    /// A withdrawal asked for more than the client's available funds.
    InsufficientFunds { client_id: u16 },
    /// A balance of the client would leave the range of a signed 64-bit
    /// count of ten-thousandths.
    BalanceOutOfRange { client_id: u16 },
}

impl EngineError {
    /// The client whose transaction failed.
    pub open spec fn client(self) -> u16 {
        match self {
            EngineError::InsufficientFunds { client_id } => client_id,
            EngineError::BalanceOutOfRange { client_id } => client_id,
        }
    }

    /// What the message says after the client id.
    pub open spec fn complaint(self) -> Seq<char> {
        match self {
            EngineError::InsufficientFunds { .. } => " doesn't have sufficient avalable"@,
            EngineError::BalanceOutOfRange { .. } => " has a balance out of range"@,
        }
    }

    /// The message of the error: it names the client.
    pub open spec fn message_text(self) -> Seq<char> {
        "engine error: Client ID "@ + decimal(self.client() as nat) + self.complaint()
    }

    /// The message of the error, for a person to read.
    pub fn message(&self) -> (text: String)
        ensures
            text@ == self.message_text(),
    {
        let mut text = String::new();
        text.append("engine error: Client ID ");
        match self {
            EngineError::InsufficientFunds { client_id } => {
                push_decimal(&mut text, *client_id as u64);
                text.append(" doesn't have sufficient avalable");
            },
            EngineError::BalanceOutOfRange { client_id } => {
                push_decimal(&mut text, *client_id as u64);
                text.append(" has a balance out of range");
            },
        }
        text
    }
}

} // verus!
