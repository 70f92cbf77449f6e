//! Creating an account on a ledger: either through a faucet service, or by
//! having a funded account sign and submit a create-account transaction.
//!
//! The network is driven from outside: the library decides, step by step,
//! which request to make and what a reply means.

mod address;
mod command;
mod error;
mod sequence;
mod text;

pub use address::{
    address_of_key, derivation_is_deterministic, ed25519_point_accepted, ed25519_public_of,
    key_decodes, sha3_256_of, AccountAddress, ED25519_SCHEME,
};
pub use error::CreateError;
pub use text::{
    append_decimal, append_hex_bytes, decimal_of, decode_hex, hex_bytes, hex_char_value, hex_digit,
    hex_of, is_hex_char, is_hex_text,
};
pub use sequence::{
    all_digits, decimal_u64, digits_u64, digits_value, is_digit, json_text_member, json_unsigned_member,
    parse_decimal, sequence_from_members, sequence_in_body, sequence_number_from_body,
    sequence_number_from_members, sequence_number_from_reply, SEQUENCE_MEMBER, STATUS_NOT_FOUND,
    STATUS_OK,
};
pub use command::{
    account_request_text, account_request_url, faucet_request_amount_is_zero, faucet_request_text,
    faucet_request_url, report, report_text, CreateAccount, FaucetWait, SequenceWait, Start, SubmitReply, SubmitWait,
    TransactionRequest, DEFAULT_FAUCET_URL, GAS_UNIT_PRICE, MAX_GAS_AMOUNT,
};
