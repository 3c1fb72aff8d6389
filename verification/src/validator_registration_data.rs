//! The registration of a validator with the servers that build blocks on its
//! behalf.

use vstd::prelude::*;

verus! {

/// The address of an account of the execution layer.
#[derive(Clone, Copy, Debug, PartialEq, Eq)]
pub struct Address(pub [u8; 20]);

/// A public key of a validator, in its compressed form.
#[derive(Clone, Copy, Debug, PartialEq, Eq)]
pub struct PublicKeyBytes(pub [u8; 48]);

/// A signature of a validator, in its compressed form.
#[derive(Clone, Copy, Debug, PartialEq, Eq)]
pub struct Signature(pub [u8; 96]);

/// Validator registration, for use in interacting with servers implementing the builder API.
#[derive(PartialEq, Debug, Clone)]
pub struct SignedValidatorRegistrationData {
    pub message: ValidatorRegistrationData,
    pub signature: Signature,
}

/// What a validator registers: where its fees go, the gas limit it wishes
/// for, and when it said so.
#[derive(PartialEq, Debug, Clone)]
pub struct ValidatorRegistrationData {
    pub fee_recipient: Address,
    pub gas_limit: u64,
    pub timestamp: u64,
    pub pubkey: PublicKeyBytes,
    pub signature: Signature,
}

} // verus!
