//! Small requests about identifiers, for trying the library out.

use crate::egld_or_dct_token_identifier::EgldOrDctTokenIdentifier;
use crate::managed_buffer::ManagedBuffer;
use crate::token_identifier::{is_valid_identifier, TokenIdentifier};
use vstd::prelude::*;

verus! {

/// The requests. There is nothing to set up.
#[derive(Debug, Clone, Copy)]
pub struct TokenIdentifierFeatures;

impl TokenIdentifierFeatures {
    /// The identifier of EGLD.
    pub fn token_identifier_egld(&self) -> (r: EgldOrDctTokenIdentifier)
        ensures
            r@ is None,
    {
        EgldOrDctTokenIdentifier::egld()
    }

    /// Whether `token_id` is EGLD or a token that follows the grammar.
    pub fn token_identifier_is_valid_1(&self, token_id: EgldOrDctTokenIdentifier) -> (r: bool)
        ensures
            r == match token_id@ {
                None => true,
                Some(bytes) => is_valid_identifier(bytes),
            },
    {
        token_id.is_valid()
    }

    /// Whether `bytes` follow the grammar of token identifiers.
    pub fn token_identifier_is_valid_2(&self, bytes: ManagedBuffer) -> (r: bool)
        ensures
            r == is_valid_identifier(bytes@),
    {
        TokenIdentifier::from(bytes).is_valid_dct_identifier()
    }
}

} // verus!
