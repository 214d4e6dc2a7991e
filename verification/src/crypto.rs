//! Identities, keys, identifiers, detection codes, security numbers, hashes
//! and timestamps.

use crate::canonical::{canonical_pair, in_canonical_order, lemma_canonical_pair_symmetric};
use crate::failure::{reported, Argument, Failure, Operation};
use crate::hextext::{encode, hex_decoding, hex_encoding};
use crate::host::{
    bytes_argument, bytes_failure, first_failure, key_argument, key_failure, text_argument,
    text_failure,
};
use vstd::prelude::*;
use vstd::utf8::encode_utf8;

verus! {

/// A public key and the secret key that belongs to it.
#[derive(Debug, PartialEq, Eq)]
pub struct KeyPair {
    pub public: Vec<u8>,
    pub secret: Vec<u8>,
}

/// A pair of keys as hexadecimal text.
#[derive(Debug, PartialEq, Eq)]
pub struct KeyPairText {
    pub public: String,
    pub secret: String,
}

impl KeyPairText {
    /// Whether this is the text of `keys`.
    pub open spec fn reports(self, keys: KeyPair) -> bool {
        &&& self.public@ == hex_encoding(keys.public@)
        &&& self.secret@ == hex_encoding(keys.secret@)
    }
}

/// The long-term key material of the local party and its identifier. The
/// two pairs "for salt" serve only to derive the salts of a conversation.
#[derive(Debug, PartialEq, Eq)]
pub struct Identity {
    pub kyber: KeyPair,
    pub curve: KeyPair,
    pub kyber_for_salt: KeyPair,
    pub curve_for_salt: KeyPair,
    pub id: String,
}

/// A new identity as the host is given it.
#[derive(Debug, PartialEq, Eq)]
pub struct InitCrypto {
    pub id: String,
    pub own_pubkey_kyber: String,
    pub own_seckey_kyber: String,
    pub own_pubkey_curve: String,
    pub own_seckey_curve: String,
    pub own_pubkey_kyber_for_salt: String,
    pub own_seckey_kyber_for_salt: String,
    pub own_pubkey_curve_for_salt: String,
    pub own_seckey_curve_for_salt: String,
}

impl InitCrypto {
    /// Whether this is the text of `identity`: the identifier as it is,
    /// every key in hexadecimal.
    pub open spec fn reports(self, identity: Identity) -> bool {
        &&& self.id@ == identity.id@
        &&& self.own_pubkey_kyber@ == hex_encoding(identity.kyber.public@)
        &&& self.own_seckey_kyber@ == hex_encoding(identity.kyber.secret@)
        &&& self.own_pubkey_curve@ == hex_encoding(identity.curve.public@)
        &&& self.own_seckey_curve@ == hex_encoding(identity.curve.secret@)
        &&& self.own_pubkey_kyber_for_salt@ == hex_encoding(identity.kyber_for_salt.public@)
        &&& self.own_seckey_kyber_for_salt@ == hex_encoding(identity.kyber_for_salt.secret@)
        &&& self.own_pubkey_curve_for_salt@ == hex_encoding(identity.curve_for_salt.public@)
        &&& self.own_seckey_curve_for_salt@ == hex_encoding(identity.curve_for_salt.secret@)
    }
}

/// The reply to the creation of an identity.
pub fn init_crypto_reply(identity: Identity) -> (reply: InitCrypto)
    ensures
        reply.reports(identity),
{
    InitCrypto {
        own_pubkey_kyber: encode(identity.kyber.public.as_slice()),
        own_seckey_kyber: encode(identity.kyber.secret.as_slice()),
        own_pubkey_curve: encode(identity.curve.public.as_slice()),
        own_seckey_curve: encode(identity.curve.secret.as_slice()),
        own_pubkey_kyber_for_salt: encode(identity.kyber_for_salt.public.as_slice()),
        own_seckey_kyber_for_salt: encode(identity.kyber_for_salt.secret.as_slice()),
        own_pubkey_curve_for_salt: encode(identity.curve_for_salt.public.as_slice()),
        own_seckey_curve_for_salt: encode(identity.curve_for_salt.secret.as_slice()),
        id: identity.id,
    }
}

/// The reply to the generation of one pair of keys, of whichever family.
pub fn key_pair_reply(keys: KeyPair) -> (reply: KeyPairText)
    ensures
        reply.reports(keys),
{
    KeyPairText {
        public: encode(keys.public.as_slice()),
        secret: encode(keys.secret.as_slice()),
    }
}

/// The reply to the generation of a symmetric key: the key in hexadecimal.
pub fn sym_key_reply(key: &[u8]) -> (reply: String)
    ensures
        reply@ == hex_encoding(key@),
{
    encode(key)
}

/// What is wrong with the arguments of an operation on an identifier and a
/// second text.
pub open spec fn id_pair_failure(
    id: Option<String>,
    second: Option<String>,
    second_argument: Argument,
) -> Option<Failure> {
    first_failure(text_failure(id, Argument::Id), text_failure(second, second_argument))
}

/// The identifier of which a temporary identifier is asked.
pub fn get_temp_id_arguments(id: Option<String>) -> (r: Result<String, Failure>)
    ensures
        match r {
            Ok(text) => id == Some(text),
            Err(failure) => text_failure(id, Argument::Id) == Some(failure),
        },
{
    text_argument(id, Argument::Id)
}

/// The identifier and the modifier of which a temporary identifier is asked.
pub fn get_custom_temp_id_arguments(id: Option<String>, modifier: Option<String>) -> (r: Result<
    (String, String),
    Failure,
>)
    ensures
        match r {
            Ok(texts) => id == Some(texts.0) && modifier == Some(texts.1),
            Err(failure) => id_pair_failure(id, modifier, Argument::Modifier) == Some(failure),
        },
{
    let id_text = text_argument(id, Argument::Id)?;
    let modifier_text = text_argument(modifier, Argument::Modifier)?;
    Ok((id_text, modifier_text))
}

/// The identifier and the salt of which the next identifier is asked.
pub fn get_next_id_arguments(id: Option<String>, salt: Option<String>) -> (r: Result<
    (String, String),
    Failure,
>)
    ensures
        match r {
            Ok(texts) => id == Some(texts.0) && salt == Some(texts.1),
            Err(failure) => id_pair_failure(id, salt, Argument::Salt) == Some(failure),
        },
{
    let id_text = text_argument(id, Argument::Id)?;
    let salt_text = text_argument(salt, Argument::Salt)?;
    Ok((id_text, salt_text))
}

/// The reply to the derivation of a temporary identifier.
pub fn get_temp_id_reply(outcome: Result<String, String>) -> (r: Result<String, Failure>)
    ensures
        r == reported(outcome, Operation::GetTempId),
{
    match outcome {
        Ok(id) => Ok(id),
        Err(reason) => Err(Failure::Failed(Operation::GetTempId, reason)),
    }
}

/// The reply to the derivation of a temporary identifier with a modifier.
pub fn get_custom_temp_id_reply(outcome: Result<String, String>) -> (r: Result<String, Failure>)
    ensures
        r == reported(outcome, Operation::GetCustomTempId),
{
    match outcome {
        Ok(id) => Ok(id),
        Err(reason) => Err(Failure::Failed(Operation::GetCustomTempId, reason)),
    }
}

/// The reply to the derivation of the next identifier.
pub fn get_next_id_reply(outcome: Result<String, String>) -> (r: Result<String, Failure>)
    ensures
        r == reported(outcome, Operation::GetNextId),
{
    match outcome {
        Ok(id) => Ok(id),
        Err(reason) => Err(Failure::Failed(Operation::GetNextId, reason)),
    }
}

/// What is wrong with the arguments of the derivation of a detection code.
pub open spec fn gen_mdc_failure(mdc_seed: Option<String>, temp_id: Option<String>) -> Option<
    Failure,
> {
    first_failure(
        text_failure(mdc_seed, Argument::MdcSeed),
        text_failure(temp_id, Argument::TempId),
    )
}

/// The seed and the temporary identifier from which a detection code is
/// derived.
pub fn gen_mdc_arguments(mdc_seed: Option<String>, temp_id: Option<String>) -> (r: Result<
    (String, String),
    Failure,
>)
    ensures
        match r {
            Ok(texts) => mdc_seed == Some(texts.0) && temp_id == Some(texts.1),
            Err(failure) => gen_mdc_failure(mdc_seed, temp_id) == Some(failure),
        },
{
    let seed_text = text_argument(mdc_seed, Argument::MdcSeed)?;
    let temp_id_text = text_argument(temp_id, Argument::TempId)?;
    Ok((seed_text, temp_id_text))
}

/// What is wrong with the arguments of the derivation of a security number.
pub open spec fn derive_security_number_failure(
    key_a: Option<String>,
    key_b: Option<String>,
) -> Option<Failure> {
    first_failure(key_failure(key_a, Argument::KeyA), key_failure(key_b, Argument::KeyB))
}

/// The two keys from which a security number is derived: what the two
/// hexadecimal texts stand for, in canonical order.
pub open spec fn security_number_keys(key_a: Seq<char>, key_b: Seq<char>) -> (Seq<u8>, Seq<u8>) {
    canonical_pair(hex_decoding(key_a), hex_decoding(key_b))
}

/// The two keys from which a security number is derived, in canonical
/// order: the number is the same whichever of the two parties derives it.
pub fn derive_security_number_arguments(key_a: Option<String>, key_b: Option<String>) -> (r:
    Result<(Vec<u8>, Vec<u8>), Failure>)
    ensures
        match r {
            Ok(keys) => {
                &&& derive_security_number_failure(key_a, key_b) is None
                &&& (keys.0@, keys.1@) == security_number_keys(key_a->0@, key_b->0@)
            },
            Err(failure) => derive_security_number_failure(key_a, key_b) == Some(failure),
        },
{
    let a = key_argument(key_a, Argument::KeyA)?;
    let b = key_argument(key_b, Argument::KeyB)?;
    Ok(in_canonical_order(a, b))
}

/// The reply to the derivation of a security number.
pub fn derive_security_number_reply(outcome: Result<String, String>) -> (r: Result<
    String,
    Failure,
>)
    ensures
        r == reported(outcome, Operation::DeriveSecurityNumber),
{
    match outcome {
        Ok(number) => Ok(number),
        Err(reason) => Err(Failure::Failed(Operation::DeriveSecurityNumber, reason)),
    }
}

/// The bytes to hash for a text: its UTF-8 encoding.
pub fn hash_string_arguments(input: Option<String>) -> (r: Result<Vec<u8>, Failure>)
    ensures
        match r {
            Ok(bytes) => input is Some && bytes@ == encode_utf8(input->0@),
            Err(failure) => text_failure(input, Argument::Input) == Some(failure),
        },
{
    let text = text_argument(input, Argument::Input)?;
    Ok(text.as_str().as_bytes_vec())
}

/// The bytes to hash.
pub fn hash_bytes_arguments(input: Option<Vec<u8>>) -> (r: Result<Vec<u8>, Failure>)
    ensures
        match r {
            Ok(bytes) => input == Some(bytes),
            Err(failure) => bytes_failure(input, Argument::Input) == Some(failure),
        },
{
    bytes_argument(input, Argument::Input)
}

/// The reply to a hash: the digest in hexadecimal.
pub fn hash_reply(digest: &[u8]) -> (reply: String)
    ensures
        reply@ == hex_encoding(digest@),
{
    encode(digest)
}

/// The reply to the reading of the clock. Why the clock gave nothing is not
/// reported.
pub fn get_current_timestamp_reply(outcome: Option<String>) -> (r: Result<String, Failure>)
    ensures
        match outcome {
            Some(timestamp) => r == Ok::<String, Failure>(timestamp),
            None => r == Err::<String, Failure>(Failure::NoTimestamp),
        },
{
    match outcome {
        Some(timestamp) => Ok(timestamp),
        None => Err(Failure::NoTimestamp),
    }
}

/// The timestamp since which all timestamps are asked.
pub fn get_all_timestamps_since_arguments(timestamp: Option<String>) -> (r: Result<
    String,
    Failure,
>)
    ensures
        match r {
            Ok(text) => timestamp == Some(text),
            Err(failure) => text_failure(timestamp, Argument::Timestamp) == Some(failure),
        },
{
    text_argument(timestamp, Argument::Timestamp)
}

/// The reply to the listing of timestamps.
pub fn get_all_timestamps_since_reply(outcome: Result<Vec<String>, String>) -> (r: Result<
    Vec<String>,
    Failure,
>)
    ensures
        r == reported(outcome, Operation::GetAllTimestampsSince),
{
    match outcome {
        Ok(timestamps) => Ok(timestamps),
        Err(reason) => Err(Failure::Failed(Operation::GetAllTimestampsSince, reason)),
    }
}

/// A security number is derived from the same two keys in the same order,
/// whichever of them is given first.
pub proof fn lemma_security_number_keys_symmetric(key_a: Seq<char>, key_b: Seq<char>)
    ensures
        security_number_keys(key_a, key_b) == security_number_keys(key_b, key_a),
{
    lemma_canonical_pair_symmetric(hex_decoding(key_a), hex_decoding(key_b));
}

} // verus!
