//! Handles: the public keys and the name under which a party can be reached.

use crate::base64text::{base64_encoding, base64_length, encode as base64_encode};
use crate::failure::{Argument, Failure, Operation};
use crate::hextext::{encode, hex_decoding, hex_encoding, lemma_hex_round_trip};
use crate::host::{
    bytes_argument, bytes_failure, first_failure, key_argument, key_failure, text_argument,
    text_failure,
};
use vstd::prelude::*;

verus! {

/// A handle: the four public keys of a party and its display name. The two
/// keys "for salt" serve only to derive the salts of a conversation.
#[derive(Debug, PartialEq, Eq)]
pub struct Handle {
    pub init_pubkey_kyber: Vec<u8>,
    pub init_pubkey_curve: Vec<u8>,
    pub init_pubkey_kyber_for_salt: Vec<u8>,
    pub init_pubkey_curve_for_salt: Vec<u8>,
    pub name: String,
}

/// What a handle holds.
pub struct HandleView {
    pub init_pubkey_kyber: Seq<u8>,
    pub init_pubkey_curve: Seq<u8>,
    pub init_pubkey_kyber_for_salt: Seq<u8>,
    pub init_pubkey_curve_for_salt: Seq<u8>,
    pub name: Seq<char>,
}

impl View for Handle {
    type V = HandleView;

    open spec fn view(&self) -> HandleView {
        HandleView {
            init_pubkey_kyber: self.init_pubkey_kyber@,
            init_pubkey_curve: self.init_pubkey_curve@,
            init_pubkey_kyber_for_salt: self.init_pubkey_kyber_for_salt@,
            init_pubkey_curve_for_salt: self.init_pubkey_curve_for_salt@,
            name: self.name@,
        }
    }
}

/// A handle as the host is told of it: the keys in hexadecimal, the name as
/// it is.
#[derive(Debug, PartialEq, Eq)]
pub struct ParseHandle {
    pub init_pk_kyber: String,
    pub init_pk_curve: String,
    pub init_pk_kyber_for_salt: String,
    pub init_pk_curve_for_salt: String,
    pub name: String,
}

/// The handle that five texts of the host stand for: four keys in
/// hexadecimal and a name.
pub open spec fn handle_of_texts(
    init_pubkey_kyber: Seq<char>,
    init_pubkey_curve: Seq<char>,
    init_pubkey_kyber_for_salt: Seq<char>,
    init_pubkey_curve_for_salt: Seq<char>,
    name: Seq<char>,
) -> HandleView {
    HandleView {
        init_pubkey_kyber: hex_decoding(init_pubkey_kyber),
        init_pubkey_curve: hex_decoding(init_pubkey_curve),
        init_pubkey_kyber_for_salt: hex_decoding(init_pubkey_kyber_for_salt),
        init_pubkey_curve_for_salt: hex_decoding(init_pubkey_curve_for_salt),
        name: name,
    }
}

impl ParseHandle {
    /// Whether this is the text of `handle`.
    pub open spec fn reports(self, handle: HandleView) -> bool {
        &&& self.init_pk_kyber@ == hex_encoding(handle.init_pubkey_kyber)
        &&& self.init_pk_curve@ == hex_encoding(handle.init_pubkey_curve)
        &&& self.init_pk_kyber_for_salt@ == hex_encoding(handle.init_pubkey_kyber_for_salt)
        &&& self.init_pk_curve_for_salt@ == hex_encoding(handle.init_pubkey_curve_for_salt)
        &&& self.name@ == handle.name
    }
}

/// What is wrong with the arguments from which a handle is made: the first
/// of them, in the order given, that could not be read or whose key is no
/// hexadecimal text.
pub open spec fn gen_handle_failure(
    init_pubkey_kyber: Option<String>,
    init_pubkey_curve: Option<String>,
    init_pubkey_kyber_for_salt: Option<String>,
    init_pubkey_curve_for_salt: Option<String>,
    name: Option<String>,
) -> Option<Failure> {
    first_failure(
        key_failure(init_pubkey_kyber, Argument::InitPubkeyKyber),
        first_failure(
            key_failure(init_pubkey_curve, Argument::InitPubkeyCurve),
            first_failure(
                key_failure(init_pubkey_kyber_for_salt, Argument::InitPubkeyKyberForSalt),
                first_failure(
                    key_failure(init_pubkey_curve_for_salt, Argument::InitPubkeyCurveForSalt),
                    text_failure(name, Argument::Name),
                ),
            ),
        ),
    )
}

/// The keys and the name from which a handle is made.
pub fn gen_handle_arguments(
    init_pubkey_kyber: Option<String>,
    init_pubkey_curve: Option<String>,
    init_pubkey_kyber_for_salt: Option<String>,
    init_pubkey_curve_for_salt: Option<String>,
    name: Option<String>,
) -> (r: Result<Handle, Failure>)
    ensures
        match r {
            Ok(handle) => {
                &&& gen_handle_failure(
                    init_pubkey_kyber,
                    init_pubkey_curve,
                    init_pubkey_kyber_for_salt,
                    init_pubkey_curve_for_salt,
                    name,
                ) is None
                &&& handle@ == handle_of_texts(
                    init_pubkey_kyber->0@,
                    init_pubkey_curve->0@,
                    init_pubkey_kyber_for_salt->0@,
                    init_pubkey_curve_for_salt->0@,
                    name->0@,
                )
            },
            Err(failure) => gen_handle_failure(
                init_pubkey_kyber,
                init_pubkey_curve,
                init_pubkey_kyber_for_salt,
                init_pubkey_curve_for_salt,
                name,
            ) == Some(failure),
        },
{
    let kyber = key_argument(init_pubkey_kyber, Argument::InitPubkeyKyber)?;
    let curve = key_argument(init_pubkey_curve, Argument::InitPubkeyCurve)?;
    let kyber_for_salt = key_argument(
        init_pubkey_kyber_for_salt,
        Argument::InitPubkeyKyberForSalt,
    )?;
    let curve_for_salt = key_argument(
        init_pubkey_curve_for_salt,
        Argument::InitPubkeyCurveForSalt,
    )?;
    let name_text = text_argument(name, Argument::Name)?;
    Ok(
        Handle {
            init_pubkey_kyber: kyber,
            init_pubkey_curve: curve,
            init_pubkey_kyber_for_salt: kyber_for_salt,
            init_pubkey_curve_for_salt: curve_for_salt,
            name: name_text,
        },
    )
}

/// The reply to the making of a handle: its encoding as base64 text.
pub fn gen_handle_reply(encoded: &[u8]) -> (reply: String)
    requires
        base64_length(encoded@.len()) <= usize::MAX,
    ensures
        reply@ == base64_encoding(encoded@),
{
    base64_encode(encoded)
}

/// The encoded handle that is to be read.
pub fn parse_handle_arguments(handle: Option<Vec<u8>>) -> (r: Result<Vec<u8>, Failure>)
    ensures
        match r {
            Ok(bytes) => handle == Some(bytes),
            Err(failure) => bytes_failure(handle, Argument::Handle) == Some(failure),
        },
{
    bytes_argument(handle, Argument::Handle)
}

/// The reply to the reading of a handle: its keys and name, or the failure
/// with the reason given.
pub fn parse_handle_reply(outcome: Result<Handle, String>) -> (r: Result<ParseHandle, Failure>)
    ensures
        match outcome {
            Ok(handle) => r matches Ok(reply) && reply.reports(handle@),
            Err(reason) => r matches Err(failure) && failure == Failure::Failed(
                Operation::ParseHandle,
                reason,
            ),
        },
{
    match outcome {
        Ok(handle) => Ok(
            ParseHandle {
                init_pk_kyber: encode(handle.init_pubkey_kyber.as_slice()),
                init_pk_curve: encode(handle.init_pubkey_curve.as_slice()),
                init_pk_kyber_for_salt: encode(handle.init_pubkey_kyber_for_salt.as_slice()),
                init_pk_curve_for_salt: encode(handle.init_pubkey_curve_for_salt.as_slice()),
                name: handle.name,
            },
        ),
        Err(reason) => Err(Failure::Failed(Operation::ParseHandle, reason)),
    }
}

/// What the host is told of a handle it can give back as it is, to have the
/// same handle made again: every key is accepted and every field is read as
/// it was.
pub proof fn lemma_reported_handle_reads_back(handle: HandleView, reply: ParseHandle)
    requires
        reply.reports(handle),
    ensures
        gen_handle_failure(
            Some(reply.init_pk_kyber),
            Some(reply.init_pk_curve),
            Some(reply.init_pk_kyber_for_salt),
            Some(reply.init_pk_curve_for_salt),
            Some(reply.name),
        ) is None,
        handle_of_texts(
            reply.init_pk_kyber@,
            reply.init_pk_curve@,
            reply.init_pk_kyber_for_salt@,
            reply.init_pk_curve_for_salt@,
            reply.name@,
        ) == handle,
{
    lemma_hex_round_trip(handle.init_pubkey_kyber);
    lemma_hex_round_trip(handle.init_pubkey_curve);
    lemma_hex_round_trip(handle.init_pubkey_kyber_for_salt);
    lemma_hex_round_trip(handle.init_pubkey_curve_for_salt);
}

} // verus!
