//! Payments on a ledger with a native currency (EGLD) and issued tokens (DCT):
//! validated token identifiers, native-or-token identifiers and payments, their
//! binary encodings, and the contract-call builders that reduce every kind of
//! payment to one canonical call.

pub mod big_endian;
pub mod big_uint;
pub mod codec;
pub mod contract_call;
pub mod contract_call_with_any_payment;
pub mod contract_call_with_egld_or_single_dct;
pub mod contract_call_with_multi_dct;
pub mod dct_token_payment;
pub mod egld_or_dct_token_identifier;
pub mod egld_or_dct_token_payment;
pub mod egld_or_multi_dct_payment;
pub mod error;
pub mod formatter;
pub mod managed_address;
pub mod managed_arg_buffer;
pub mod managed_buffer;
pub mod token_identifier;
pub mod token_identifier_features;
pub mod wegld;

pub use big_uint::BigUint;
pub use codec::{NestedDecode, NestedEncode, TopDecode, TopEncode};
pub use contract_call::{
    ContractCall, ContractCallNoPayment, ContractCallWithEgld, DirectTransfer,
};
pub use contract_call_with_any_payment::ContractCallWithAnyPayment;
pub use contract_call_with_egld_or_single_dct::ContractCallWithEgldOrSingleDct;
pub use contract_call_with_multi_dct::{ContractCallWithMultiDct, ContractCallWithSingleDct};
pub use dct_token_payment::DctTokenPayment;
pub use egld_or_dct_token_identifier::EgldOrDctTokenIdentifier;
pub use egld_or_dct_token_payment::EgldOrDctTokenPayment;
pub use egld_or_multi_dct_payment::EgldOrMultiDctPayment;
pub use error::{DecodeError, EncodeError, PaymentError};
pub use formatter::{SCDisplay, SCLowerHex};
pub use managed_address::ManagedAddress;
pub use managed_arg_buffer::ManagedArgBuffer;
pub use managed_buffer::ManagedBuffer;
pub use token_identifier::TokenIdentifier;
pub use token_identifier_features::TokenIdentifierFeatures;
pub use wegld::{EgldDctSwap, SwapAction, SwapError};
