use vstd::prelude::*;

use crate::text::{append_decimal, decimal_of};

verus! {

/// Why creating an account failed.
#[derive(Debug, Clone, PartialEq, Eq)]
pub enum CreateError {
    /// Neither a sender's private key nor the faucet was chosen.
    MissingSenderKey,
    /// The public key of the new account is not a valid Ed25519 point.
    InvalidPublicKey,
    /// The sender's private key is not 32 bytes long.
    InvalidPrivateKey,
    /// The node or the faucet could not be reached, or answered unexpectedly.
    Network(String),
    /// The sender's account does not exist on the ledger.
    NotFound,
    /// The node's account record has no usable sequence number.
    Parse,
    /// The ledger rejected the submitted transaction.
    Validation(String),
    /// The faucet answered with a status other than 200.
    Faucet(u16),
}

impl CreateError {
    /// A configuration error: detected before any network request.
    pub open spec fn is_configuration(&self) -> bool {
        self is MissingSenderKey || self is InvalidPublicKey || self is InvalidPrivateKey
    }

    /// The one line that describes the error to the user.
    pub open spec fn text(&self) -> Seq<char> {
        match self {
            CreateError::MissingSenderKey => "One of ['--private-key', '--private-key-file', '--use-faucet'] must be provided"@,
            CreateError::InvalidPublicKey => "Invalid public key"@,
            CreateError::InvalidPrivateKey => "Invalid private key"@,
            CreateError::Network(m) => "Network error: "@ + m@,
            CreateError::NotFound => "Account not found"@,
            CreateError::Parse => "Sequence number not found"@,
            CreateError::Validation(m) => "Transaction failed: "@ + m@,
            CreateError::Faucet(s) => "Faucet issue: "@ + decimal_of(*s as nat),
        }
    }

    /// Renders the error as one line of text.
    pub fn message(&self) -> (r: String)
        ensures
            r@ == self.text(),
    {
        match self {
            CreateError::MissingSenderKey => String::from_str(
                "One of ['--private-key', '--private-key-file', '--use-faucet'] must be provided",
            ),
            CreateError::InvalidPublicKey => String::from_str("Invalid public key"),
            CreateError::InvalidPrivateKey => String::from_str("Invalid private key"),
            CreateError::Network(m) => String::from_str("Network error: ").concat(m.as_str()),
            CreateError::NotFound => String::from_str("Account not found"),
            CreateError::Parse => String::from_str("Sequence number not found"),
            CreateError::Validation(m) => String::from_str("Transaction failed: ").concat(
                m.as_str(),
            ),
            CreateError::Faucet(s) => {
                let mut r = String::from_str("Faucet issue: ");
                append_decimal(&mut r, *s as u64);
                r
            },
        }
    }
}

} // verus!
