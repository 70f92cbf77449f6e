use vstd::prelude::*;

use crate::address::{address_of_key, ed25519_public_of, key_array, public_key_of, AccountAddress};
use crate::error::CreateError;
use crate::sequence::{sequence_in_body, sequence_number_from_reply, STATUS_NOT_FOUND, STATUS_OK};
use crate::text::{append_hex_bytes, decimal_of, hex_of};

verus! {

/// Gas unit price of a create-account transaction.
pub const GAS_UNIT_PRICE: u64 = 1;

/// Gas limit of a create-account transaction.
pub const MAX_GAS_AMOUNT: u64 = 1000;

/// The faucet asked when no other is given.
pub const DEFAULT_FAUCET_URL: &'static str = "https://faucet.devnet.aptoslabs.com";

/// The faucet's request for `address`; it always asks for amount zero.
pub open spec fn faucet_request_text(faucet_url: Seq<char>, address: Seq<u8>) -> Seq<char> {
    faucet_url + "/mint?amount=0&auth_key="@ + hex_of(address)
}

/// Every faucet request asks for amount zero, whatever the faucet and the
/// address: the query that follows the faucet's URL always begins the same.
pub proof fn faucet_request_amount_is_zero(faucet_url: Seq<char>, address: Seq<u8>)
    ensures
        faucet_request_text(faucet_url, address).subrange(
            faucet_url.len() as int,
            faucet_url.len() as int + 15,
        ) == "/mint?amount=0&"@,
{
    reveal_strlit("/mint?amount=0&auth_key=");
    reveal_strlit("/mint?amount=0&");
    let t = faucet_request_text(faucet_url, address);
    assert(t.subrange(faucet_url.len() as int, faucet_url.len() as int + 15) =~= "/mint?amount=0&"@);
}

/// The node's resource that holds the account record of `address`.
pub open spec fn account_request_text(node_url: Seq<char>, address: Seq<u8>) -> Seq<char> {
    node_url + "accounts/"@ + hex_of(address)
}

/// The URL that asks the faucet to create the account at `address`.
pub fn faucet_request_url(faucet_url: &str, address: &AccountAddress) -> (r: String)
    ensures
        r@ == faucet_request_text(faucet_url@, address.view()),
{
    let mut r = String::from_str(faucet_url).concat("/mint?amount=0&auth_key=");
    append_hex_bytes(&mut r, &address.bytes);
    r
}

/// The URL of the node's account record of `address`.
pub fn account_request_url(node_url: &str, address: &AccountAddress) -> (r: String)
    ensures
        r@ == account_request_text(node_url@, address.view()),
{
    let mut r = String::from_str(node_url).concat("accounts/");
    append_hex_bytes(&mut r, &address.bytes);
    r
}

/// The command: create the account whose Ed25519 public key is `public_key`,
/// through the faucet or with a transaction signed by `private_key`.
pub struct CreateAccount {
    pub public_key: Vec<u8>,
    pub private_key: Option<Vec<u8>>,
    pub node_url: String,
    pub faucet_url: String,
    pub chain_id: u8,
    pub use_faucet: bool,
    pub gas_unit_price: u64,
    pub max_gas_amount: u64,
}

/// A create-account transaction, ready to be signed and submitted.
#[derive(Debug, Clone, PartialEq, Eq)]
pub struct TransactionRequest {
    pub sender: AccountAddress,
    pub sender_key: [u8; 32],
    pub sequence_number: u64,
    pub new_account: AccountAddress,
    pub chain_id: u8,
    pub gas_unit_price: u64,
    pub max_gas_amount: u64,
}

/// Waiting for the faucet's reply.
#[derive(Debug, Clone, PartialEq, Eq)]
pub struct FaucetWait {
    pub new_account: AccountAddress,
}

/// Waiting for the node's account record of the sender.
#[derive(Debug, Clone, PartialEq, Eq)]
pub struct SequenceWait {
    pub new_account: AccountAddress,
    pub sender: AccountAddress,
    pub sender_key: [u8; 32],
    pub chain_id: u8,
    pub gas_unit_price: u64,
    pub max_gas_amount: u64,
}

/// Waiting for the submitted transaction to be executed.
#[derive(Debug, Clone, PartialEq, Eq)]
pub struct SubmitWait {
    pub new_account: AccountAddress,
}

/// The first step: a request to make, or the outcome when none is needed.
#[derive(Debug, PartialEq, Eq)]
pub enum Start {
    /// POST to the URL, then hand the status to `FaucetWait::on_reply`.
    Faucet(FaucetWait, String),
    /// GET the URL, then hand the reply to `SequenceWait::on_reply`.
    FetchSequence(SequenceWait, String),
    /// Nothing to request.
    Done(Result<AccountAddress, CreateError>),
}

/// What came of submitting a transaction and waiting for it.
#[derive(Debug, Clone, PartialEq, Eq)]
pub enum SubmitReply {
    Executed,
    Rejected(String),
    Unreachable(String),
}

impl CreateAccount {
    /// A command with the default faucet and the fixed gas terms.
    pub fn new(
        public_key: Vec<u8>,
        private_key: Option<Vec<u8>>,
        node_url: String,
        chain_id: u8,
        use_faucet: bool,
    ) -> (r: CreateAccount)
        ensures
            r.public_key == public_key,
            r.private_key == private_key,
            r.node_url == node_url,
            r.faucet_url@ == DEFAULT_FAUCET_URL@,
            r.chain_id == chain_id,
            r.use_faucet == use_faucet,
            r.gas_unit_price == GAS_UNIT_PRICE,
            r.max_gas_amount == MAX_GAS_AMOUNT,
    {
        CreateAccount {
            public_key,
            private_key,
            node_url,
            faucet_url: String::from_str(DEFAULT_FAUCET_URL),
            chain_id,
            use_faucet,
            gas_unit_price: GAS_UNIT_PRICE,
            max_gas_amount: MAX_GAS_AMOUNT,
        }
    }

    /// Derives the new account's address, then picks the faucet or the
    /// sender's key. Without either, it fails before any request.
    pub fn start(&self) -> (r: Start)
        ensures
            !crate::address::key_decodes(self.public_key@) ==> r == Start::Done(
                Err(CreateError::InvalidPublicKey),
            ),
            !self.use_faucet && self.private_key is None ==> r is Done && r->Done_0 is Err
                && r->Done_0->Err_0.is_configuration(),
            crate::address::key_decodes(self.public_key@) && self.use_faucet ==> r is Faucet
                && r->Faucet_0.new_account.view() == address_of_key(self.public_key@)
                && r->Faucet_1@ == faucet_request_text(
                self.faucet_url@,
                address_of_key(self.public_key@),
            ),
            crate::address::key_decodes(self.public_key@) && !self.use_faucet
                && self.private_key is None ==> r == Start::Done(
                Err(CreateError::MissingSenderKey),
            ),
            crate::address::key_decodes(self.public_key@) && !self.use_faucet
                && self.private_key is Some && self.private_key->Some_0@.len() != 32 ==> r
                == Start::Done(Err(CreateError::InvalidPrivateKey)),
            crate::address::key_decodes(self.public_key@) && !self.use_faucet
                && self.private_key is Some && self.private_key->Some_0@.len() == 32 ==> {
                &&& r is FetchSequence
                &&& r->FetchSequence_0.new_account.view() == address_of_key(self.public_key@)
                &&& r->FetchSequence_0.sender_key@ == self.private_key->Some_0@
                &&& r->FetchSequence_0.sender.view() == address_of_key(
                    ed25519_public_of(self.private_key->Some_0@),
                )
                &&& r->FetchSequence_0.chain_id == self.chain_id
                &&& r->FetchSequence_0.gas_unit_price == self.gas_unit_price
                &&& r->FetchSequence_0.max_gas_amount == self.max_gas_amount
                &&& r->FetchSequence_1@ == account_request_text(
                    self.node_url@,
                    r->FetchSequence_0.sender.view(),
                )
            },
    {
        let new_account = match AccountAddress::derive(self.public_key.as_slice()) {
            Ok(a) => a,
            Err(e) => {
                return Start::Done(Err(e));
            },
        };
        if self.use_faucet {
            let url = faucet_request_url(self.faucet_url.as_str(), &new_account);
            return Start::Faucet(FaucetWait { new_account }, url);
        }
        let secret = match &self.private_key {
            Some(k) => k,
            None => {
                return Start::Done(Err(CreateError::MissingSenderKey));
            },
        };
        if secret.len() != 32 {
            return Start::Done(Err(CreateError::InvalidPrivateKey));
        }
        let sender_key = key_array(secret.as_slice());
        let sender = AccountAddress::from_key(&public_key_of(&sender_key));
        let url = account_request_url(self.node_url.as_str(), &sender);
        Start::FetchSequence(
            SequenceWait {
                new_account,
                sender,
                sender_key,
                chain_id: self.chain_id,
                gas_unit_price: self.gas_unit_price,
                max_gas_amount: self.max_gas_amount,
            },
            url,
        )
    }
}

impl FaucetWait {
    /// Reads the faucet's status, or the failure to reach it: only 200 is
    /// success.
    pub fn on_reply(&self, reply: Result<u16, String>) -> (r: Result<AccountAddress, CreateError>)
        ensures
            match reply {
                Ok(status) => if status == STATUS_OK {
                    r == Ok::<AccountAddress, CreateError>(self.new_account)
                } else {
                    r == Err::<AccountAddress, CreateError>(CreateError::Faucet(status))
                },
                Err(m) => r == Err::<AccountAddress, CreateError>(CreateError::Network(m)),
            },
    {
        match reply {
            Ok(status) => if status == STATUS_OK {
                Ok(self.new_account)
            } else {
                Err(CreateError::Faucet(status))
            },
            Err(m) => Err(CreateError::Network(m)),
        }
    }
}

impl SequenceWait {
    /// The transaction that creates the new account, signed by the sender
    /// with sequence number `n`.
    pub open spec fn transaction(&self, n: u64) -> TransactionRequest {
        TransactionRequest {
            sender: self.sender,
            sender_key: self.sender_key,
            sequence_number: n,
            new_account: self.new_account,
            chain_id: self.chain_id,
            gas_unit_price: self.gas_unit_price,
            max_gas_amount: self.max_gas_amount,
        }
    }

    /// Reads the node's reply (status and body), or the failure to reach it,
    /// and builds the transaction with exactly the sequence number that the
    /// node reported.
    pub fn on_reply(&self, reply: Result<(u16, String), String>) -> (r: Result<
        (SubmitWait, TransactionRequest),
        CreateError,
    >)
        ensures
            match reply {
                Err(m) => r == Err::<(SubmitWait, TransactionRequest), CreateError>(
                    CreateError::Network(m),
                ),
                Ok((status, body)) => {
                    &&& status == STATUS_NOT_FOUND ==> r == Err::<
                        (SubmitWait, TransactionRequest),
                        CreateError,
                    >(CreateError::NotFound)
                    &&& status == STATUS_OK ==> match sequence_in_body(body@) {
                        Ok(n) => r == Ok::<(SubmitWait, TransactionRequest), CreateError>(
                            (SubmitWait { new_account: self.new_account }, self.transaction(n)),
                        ),
                        Err(e) => r == Err::<(SubmitWait, TransactionRequest), CreateError>(e),
                    }
                    &&& status != STATUS_OK && status != STATUS_NOT_FOUND ==> r is Err
                        && r->Err_0 is Network && r->Err_0->Network_0@ == "unexpected status "@
                        + decimal_of(status as nat)
                },
            },
    {
        match reply {
            Err(m) => Err(CreateError::Network(m)),
            Ok((status, body)) => match sequence_number_from_reply(status, body.as_str()) {
                Ok(n) => Ok(
                    (
                        SubmitWait { new_account: self.new_account },
                        TransactionRequest {
                            sender: self.sender,
                            sender_key: self.sender_key,
                            sequence_number: n,
                            new_account: self.new_account,
                            chain_id: self.chain_id,
                            gas_unit_price: self.gas_unit_price,
                            max_gas_amount: self.max_gas_amount,
                        },
                    ),
                ),
                Err(e) => Err(e),
            },
        }
    }
}

impl SubmitWait {
    /// Reads what came of the submission: execution is success, a ledger
    /// rejection or a transport failure is passed on as it came.
    pub fn on_reply(&self, reply: SubmitReply) -> (r: Result<AccountAddress, CreateError>)
        ensures
            match reply {
                SubmitReply::Executed => r == Ok::<AccountAddress, CreateError>(self.new_account),
                SubmitReply::Rejected(m) => r == Err::<AccountAddress, CreateError>(
                    CreateError::Validation(m),
                ),
                SubmitReply::Unreachable(m) => r == Err::<AccountAddress, CreateError>(
                    CreateError::Network(m),
                ),
            },
    {
        match reply {
            SubmitReply::Executed => Ok(self.new_account),
            SubmitReply::Rejected(m) => Err(CreateError::Validation(m)),
            SubmitReply::Unreachable(m) => Err(CreateError::Network(m)),
        }
    }
}

/// The line that reports an outcome to the user.
pub open spec fn report_text(outcome: Result<AccountAddress, CreateError>) -> Seq<char> {
    match outcome {
        Ok(a) => "Account Created at "@ + hex_of(a.view()),
        Err(e) => e.text(),
    }
}

/// Renders an outcome as the one line that the command prints.
pub fn report(outcome: &Result<AccountAddress, CreateError>) -> (r: String)
    ensures
        r@ == report_text(*outcome),
{
    match outcome {
        Ok(a) => {
            let mut r = String::from_str("Account Created at ");
            append_hex_bytes(&mut r, &a.bytes);
            r
        },
        Err(e) => e.message(),
    }
}

} // verus!
