//! The handshake that opens a session.
//!
//! The initiator makes an init request from the peer's handle and later
//! reads the peer's response; the responder reads the request and accepts
//! it. Each of the four steps takes key material from the host as
//! hexadecimal text and reports the new material in the same form.

use crate::base64text::{base64_encoding, base64_length, encode as base64_encode};
use crate::crypto::KeyPair;
use crate::failure::{rejection, Argument, Failure, Message, Operation};
use crate::hextext::{encode, hex_decoding, hex_encoding, is_hex_text, lemma_hex_round_trip};
use crate::host::{
    bytes_argument, bytes_failure, first_failure, key_argument, key_failure, text_argument,
    text_failure,
};
use vstd::prelude::*;

verus! {

/// What an init request is made from: the peer's public keys, the own
/// signature keys, and what the peer is to be told.
#[derive(Debug, PartialEq, Eq)]
pub struct GenInitRequestArguments {
    pub remote_pubkey_kyber: Vec<u8>,
    pub remote_pubkey_kyber_for_salt: Vec<u8>,
    pub remote_pubkey_curve: Vec<u8>,
    pub remote_pubkey_curve_pfs_2: Vec<u8>,
    pub remote_pubkey_curve_for_salt: Vec<u8>,
    pub own_pubkey_sig: Vec<u8>,
    pub own_seckey_sig: Vec<u8>,
    pub name: String,
    pub comment: String,
    pub mdc: String,
}

/// What is wrong with the arguments of an init request: the first of them,
/// in the order given, that could not be read or whose key is no
/// hexadecimal text.
pub open spec fn gen_init_request_failure(
    remote_pubkey_kyber: Option<String>,
    remote_pubkey_kyber_for_salt: Option<String>,
    remote_pubkey_curve: Option<String>,
    remote_pubkey_curve_pfs_2: Option<String>,
    remote_pubkey_curve_for_salt: Option<String>,
    own_pubkey_sig: Option<String>,
    own_seckey_sig: Option<String>,
    name: Option<String>,
    comment: Option<String>,
    mdc: Option<String>,
) -> Option<Failure> {
    first_failure(
        key_failure(remote_pubkey_kyber, Argument::RemotePubkeyKyber),
        first_failure(
            key_failure(remote_pubkey_kyber_for_salt, Argument::RemotePubkeyKyberForSalt),
            first_failure(
                key_failure(remote_pubkey_curve, Argument::RemotePubkeyCurve),
                first_failure(
                    key_failure(remote_pubkey_curve_pfs_2, Argument::RemotePubkeyCurvePfs2),
                    first_failure(
                        key_failure(
                            remote_pubkey_curve_for_salt,
                            Argument::RemotePubkeyCurveForSalt,
                        ),
                        first_failure(
                            key_failure(own_pubkey_sig, Argument::OwnPubkeySig),
                            first_failure(
                                key_failure(own_seckey_sig, Argument::OwnSeckeySig),
                                first_failure(
                                    text_failure(name, Argument::Name),
                                    first_failure(
                                        text_failure(comment, Argument::Comment),
                                        text_failure(mdc, Argument::Mdc),
                                    ),
                                ),
                            ),
                        ),
                    ),
                ),
            ),
        ),
    )
}

/// The arguments of an init request, read from the host's values.
pub fn gen_init_request_arguments(
    remote_pubkey_kyber: Option<String>,
    remote_pubkey_kyber_for_salt: Option<String>,
    remote_pubkey_curve: Option<String>,
    remote_pubkey_curve_pfs_2: Option<String>,
    remote_pubkey_curve_for_salt: Option<String>,
    own_pubkey_sig: Option<String>,
    own_seckey_sig: Option<String>,
    name: Option<String>,
    comment: Option<String>,
    mdc: Option<String>,
) -> (r: Result<GenInitRequestArguments, Failure>)
    ensures
        match r {
            Ok(arguments) => {
                &&& gen_init_request_failure(
                    remote_pubkey_kyber,
                    remote_pubkey_kyber_for_salt,
                    remote_pubkey_curve,
                    remote_pubkey_curve_pfs_2,
                    remote_pubkey_curve_for_salt,
                    own_pubkey_sig,
                    own_seckey_sig,
                    name,
                    comment,
                    mdc,
                ) is None
                &&& arguments.remote_pubkey_kyber@ == hex_decoding(remote_pubkey_kyber->0@)
                &&& arguments.remote_pubkey_kyber_for_salt@ == hex_decoding(
                    remote_pubkey_kyber_for_salt->0@,
                )
                &&& arguments.remote_pubkey_curve@ == hex_decoding(remote_pubkey_curve->0@)
                &&& arguments.remote_pubkey_curve_pfs_2@ == hex_decoding(
                    remote_pubkey_curve_pfs_2->0@,
                )
                &&& arguments.remote_pubkey_curve_for_salt@ == hex_decoding(
                    remote_pubkey_curve_for_salt->0@,
                )
                &&& arguments.own_pubkey_sig@ == hex_decoding(own_pubkey_sig->0@)
                &&& arguments.own_seckey_sig@ == hex_decoding(own_seckey_sig->0@)
                &&& arguments.name@ == name->0@
                &&& arguments.comment@ == comment->0@
                &&& arguments.mdc@ == mdc->0@
            },
            Err(failure) => gen_init_request_failure(
                remote_pubkey_kyber,
                remote_pubkey_kyber_for_salt,
                remote_pubkey_curve,
                remote_pubkey_curve_pfs_2,
                remote_pubkey_curve_for_salt,
                own_pubkey_sig,
                own_seckey_sig,
                name,
                comment,
                mdc,
            ) == Some(failure),
        },
{
    let kyber = key_argument(remote_pubkey_kyber, Argument::RemotePubkeyKyber)?;
    let kyber_for_salt = key_argument(
        remote_pubkey_kyber_for_salt,
        Argument::RemotePubkeyKyberForSalt,
    )?;
    let curve = key_argument(remote_pubkey_curve, Argument::RemotePubkeyCurve)?;
    let curve_pfs_2 = key_argument(remote_pubkey_curve_pfs_2, Argument::RemotePubkeyCurvePfs2)?;
    let curve_for_salt = key_argument(
        remote_pubkey_curve_for_salt,
        Argument::RemotePubkeyCurveForSalt,
    )?;
    let pubkey_sig = key_argument(own_pubkey_sig, Argument::OwnPubkeySig)?;
    let seckey_sig = key_argument(own_seckey_sig, Argument::OwnSeckeySig)?;
    let name_text = text_argument(name, Argument::Name)?;
    let comment_text = text_argument(comment, Argument::Comment)?;
    let mdc_text = text_argument(mdc, Argument::Mdc)?;
    Ok(
        GenInitRequestArguments {
            remote_pubkey_kyber: kyber,
            remote_pubkey_kyber_for_salt: kyber_for_salt,
            remote_pubkey_curve: curve,
            remote_pubkey_curve_pfs_2: curve_pfs_2,
            remote_pubkey_curve_for_salt: curve_for_salt,
            own_pubkey_sig: pubkey_sig,
            own_seckey_sig: seckey_sig,
            name: name_text,
            comment: comment_text,
            mdc: mdc_text,
        },
    )
}

/// What the initiator has after it made an init request: the fresh keys of
/// this session, the material for forward secrecy, the identifier of the
/// conversation with its salt, the detection code with its seed, and the
/// request to send.
#[derive(Debug, PartialEq, Eq)]
pub struct InitRequest {
    pub own_kyber: KeyPair,
    pub own_curve: KeyPair,
    pub own_pfs_key: Vec<u8>,
    pub remote_pfs_key: Vec<u8>,
    pub pfs_salt: Vec<u8>,
    pub id: String,
    pub id_salt: Vec<u8>,
    pub mdc: String,
    pub mdc_seed: String,
    pub ciphertext: Vec<u8>,
}

/// An init request as the host is told of it.
#[derive(Debug, PartialEq, Eq)]
pub struct GenInitRequest {
    pub own_pubkey_kyber: String,
    pub own_seckey_kyber: String,
    pub own_pubkey_curve: String,
    pub own_seckey_curve: String,
    pub own_pfs_key: String,
    pub remote_pfs_key: String,
    pub pfs_salt: String,
    pub id: String,
    pub id_salt: String,
    pub mdc: String,
    pub mdc_seed: String,
    pub ciphertext: String,
}

impl GenInitRequest {
    /// Whether this is the text of `request`: keys and salts in
    /// hexadecimal, the request to send in base64, the rest as it is.
    pub open spec fn reports(self, request: InitRequest) -> bool {
        &&& self.own_pubkey_kyber@ == hex_encoding(request.own_kyber.public@)
        &&& self.own_seckey_kyber@ == hex_encoding(request.own_kyber.secret@)
        &&& self.own_pubkey_curve@ == hex_encoding(request.own_curve.public@)
        &&& self.own_seckey_curve@ == hex_encoding(request.own_curve.secret@)
        &&& self.own_pfs_key@ == hex_encoding(request.own_pfs_key@)
        &&& self.remote_pfs_key@ == hex_encoding(request.remote_pfs_key@)
        &&& self.pfs_salt@ == hex_encoding(request.pfs_salt@)
        &&& self.id@ == request.id@
        &&& self.id_salt@ == hex_encoding(request.id_salt@)
        &&& self.mdc@ == request.mdc@
        &&& self.mdc_seed@ == request.mdc_seed@
        &&& self.ciphertext@ == base64_encoding(request.ciphertext@)
    }
}

/// The reply to the making of an init request: what was made, or the
/// failure with the reason given.
pub fn gen_init_request_reply(outcome: Result<InitRequest, String>) -> (r: Result<
    GenInitRequest,
    Failure,
>)
    requires
        outcome matches Ok(request) ==> base64_length(request.ciphertext@.len()) <= usize::MAX,
    ensures
        match outcome {
            Ok(request) => r matches Ok(reply) && reply.reports(request),
            Err(reason) => r matches Err(failure) && failure == Failure::Failed(
                Operation::GenInitRequest,
                reason,
            ),
        },
{
    match outcome {
        Ok(request) => Ok(
            GenInitRequest {
                own_pubkey_kyber: encode(request.own_kyber.public.as_slice()),
                own_seckey_kyber: encode(request.own_kyber.secret.as_slice()),
                own_pubkey_curve: encode(request.own_curve.public.as_slice()),
                own_seckey_curve: encode(request.own_curve.secret.as_slice()),
                own_pfs_key: encode(request.own_pfs_key.as_slice()),
                remote_pfs_key: encode(request.remote_pfs_key.as_slice()),
                pfs_salt: encode(request.pfs_salt.as_slice()),
                id_salt: encode(request.id_salt.as_slice()),
                ciphertext: base64_encode(request.ciphertext.as_slice()),
                id: request.id,
                mdc: request.mdc,
                mdc_seed: request.mdc_seed,
            },
        ),
        Err(reason) => Err(Failure::Failed(Operation::GenInitRequest, reason)),
    }
}

/// What an init request is read with: the request and the own secret keys.
#[derive(Debug, PartialEq, Eq)]
pub struct ParseInitRequestArguments {
    pub ciphertext: Vec<u8>,
    pub own_seckey_kyber: Vec<u8>,
    pub own_seckey_curve: Vec<u8>,
    pub own_seckey_curve_pfs_2: Vec<u8>,
    pub own_seckey_kyber_for_salt: Vec<u8>,
    pub own_seckey_curve_for_salt: Vec<u8>,
}

/// What is wrong with the arguments of the reading of an init request: the
/// first of them, in the order given, that could not be read or whose key
/// is no hexadecimal text.
pub open spec fn parse_init_request_failure(
    ciphertext: Option<Vec<u8>>,
    own_seckey_kyber: Option<String>,
    own_seckey_curve: Option<String>,
    own_seckey_curve_pfs_2: Option<String>,
    own_seckey_kyber_for_salt: Option<String>,
    own_seckey_curve_for_salt: Option<String>,
) -> Option<Failure> {
    first_failure(
        bytes_failure(ciphertext, Argument::Ciphertext),
        first_failure(
            key_failure(own_seckey_kyber, Argument::OwnSeckeyKyber),
            first_failure(
                key_failure(own_seckey_curve, Argument::OwnSeckeyCurve),
                first_failure(
                    key_failure(own_seckey_curve_pfs_2, Argument::OwnSeckeyCurvePfs2),
                    first_failure(
                        key_failure(own_seckey_kyber_for_salt, Argument::OwnSeckeyKyberForSalt),
                        key_failure(own_seckey_curve_for_salt, Argument::OwnSeckeyCurveForSalt),
                    ),
                ),
            ),
        ),
    )
}

/// The arguments of the reading of an init request, read from the host's
/// values.
pub fn parse_init_request_arguments(
    ciphertext: Option<Vec<u8>>,
    own_seckey_kyber: Option<String>,
    own_seckey_curve: Option<String>,
    own_seckey_curve_pfs_2: Option<String>,
    own_seckey_kyber_for_salt: Option<String>,
    own_seckey_curve_for_salt: Option<String>,
) -> (r: Result<ParseInitRequestArguments, Failure>)
    ensures
        match r {
            Ok(arguments) => {
                &&& parse_init_request_failure(
                    ciphertext,
                    own_seckey_kyber,
                    own_seckey_curve,
                    own_seckey_curve_pfs_2,
                    own_seckey_kyber_for_salt,
                    own_seckey_curve_for_salt,
                ) is None
                &&& arguments.ciphertext@ == ciphertext->0@
                &&& arguments.own_seckey_kyber@ == hex_decoding(own_seckey_kyber->0@)
                &&& arguments.own_seckey_curve@ == hex_decoding(own_seckey_curve->0@)
                &&& arguments.own_seckey_curve_pfs_2@ == hex_decoding(own_seckey_curve_pfs_2->0@)
                &&& arguments.own_seckey_kyber_for_salt@ == hex_decoding(
                    own_seckey_kyber_for_salt->0@,
                )
                &&& arguments.own_seckey_curve_for_salt@ == hex_decoding(
                    own_seckey_curve_for_salt->0@,
                )
            },
            Err(failure) => parse_init_request_failure(
                ciphertext,
                own_seckey_kyber,
                own_seckey_curve,
                own_seckey_curve_pfs_2,
                own_seckey_kyber_for_salt,
                own_seckey_curve_for_salt,
            ) == Some(failure),
        },
{
    let request = bytes_argument(ciphertext, Argument::Ciphertext)?;
    let kyber = key_argument(own_seckey_kyber, Argument::OwnSeckeyKyber)?;
    let curve = key_argument(own_seckey_curve, Argument::OwnSeckeyCurve)?;
    let curve_pfs_2 = key_argument(own_seckey_curve_pfs_2, Argument::OwnSeckeyCurvePfs2)?;
    let kyber_for_salt = key_argument(own_seckey_kyber_for_salt, Argument::OwnSeckeyKyberForSalt)?;
    let curve_for_salt = key_argument(own_seckey_curve_for_salt, Argument::OwnSeckeyCurveForSalt)?;
    Ok(
        ParseInitRequestArguments {
            ciphertext: request,
            own_seckey_kyber: kyber,
            own_seckey_curve: curve,
            own_seckey_curve_pfs_2: curve_pfs_2,
            own_seckey_kyber_for_salt: kyber_for_salt,
            own_seckey_curve_for_salt: curve_for_salt,
        },
    )
}

/// What the responder has after it read an init request: the identifier
/// of the conversation with its salt, the detection code with its seed, the
/// initiator's public keys, the material for forward secrecy, and what the
/// initiator told of itself.
#[derive(Debug, PartialEq, Eq)]
pub struct ReceivedInitRequest {
    pub id: String,
    pub id_salt: Vec<u8>,
    pub mdc: String,
    pub remote_pubkey_kyber: Vec<u8>,
    pub remote_pubkey_sig: Vec<u8>,
    pub own_pfs_key: Vec<u8>,
    pub remote_pfs_key: Vec<u8>,
    pub pfs_salt: Vec<u8>,
    pub name: String,
    pub comment: String,
    pub mdc_seed: String,
}

/// A received init request as the host is told of it.
#[derive(Debug, PartialEq, Eq)]
pub struct ParseInitRequest {
    pub id: String,
    pub id_salt: String,
    pub mdc: String,
    pub remote_pubkey_kyber: String,
    pub remote_pubkey_sig: String,
    pub own_pfs_key: String,
    pub remote_pfs_key: String,
    pub pfs_salt: String,
    pub name: String,
    pub comment: String,
    pub mdc_seed: String,
}

impl ParseInitRequest {
    /// Whether this is the text of `request`: keys and salts in
    /// hexadecimal, the rest as it is.
    pub open spec fn reports(self, request: ReceivedInitRequest) -> bool {
        &&& self.id@ == request.id@
        &&& self.id_salt@ == hex_encoding(request.id_salt@)
        &&& self.mdc@ == request.mdc@
        &&& self.remote_pubkey_kyber@ == hex_encoding(request.remote_pubkey_kyber@)
        &&& self.remote_pubkey_sig@ == hex_encoding(request.remote_pubkey_sig@)
        &&& self.own_pfs_key@ == hex_encoding(request.own_pfs_key@)
        &&& self.remote_pfs_key@ == hex_encoding(request.remote_pfs_key@)
        &&& self.pfs_salt@ == hex_encoding(request.pfs_salt@)
        &&& self.name@ == request.name@
        &&& self.comment@ == request.comment@
        &&& self.mdc_seed@ == request.mdc_seed@
    }
}

/// The reply to the reading of an init request. A request that was not
/// accepted is rejected, and nothing of it is reported, not even why.
pub fn parse_init_request_reply(outcome: Result<ReceivedInitRequest, String>) -> (r: Result<
    ParseInitRequest,
    Failure,
>)
    ensures
        match outcome {
            Ok(request) => r matches Ok(reply) && reply.reports(request),
            Err(reason) => r matches Err(failure) && failure == rejection(
                Message::InitRequest,
                reason,
            ),
        },
{
    match outcome {
        Ok(request) => Ok(
            ParseInitRequest {
                id_salt: encode(request.id_salt.as_slice()),
                remote_pubkey_kyber: encode(request.remote_pubkey_kyber.as_slice()),
                remote_pubkey_sig: encode(request.remote_pubkey_sig.as_slice()),
                own_pfs_key: encode(request.own_pfs_key.as_slice()),
                remote_pfs_key: encode(request.remote_pfs_key.as_slice()),
                pfs_salt: encode(request.pfs_salt.as_slice()),
                id: request.id,
                mdc: request.mdc,
                name: request.name,
                comment: request.comment,
                mdc_seed: request.mdc_seed,
            },
        ),
        Err(_) => Err(Failure::Rejected(Message::InitRequest)),
    }
}

/// What an init request is accepted with: the own signature keys, the
/// initiator's public key, and the state that the reading of the request
/// left.
#[derive(Debug, PartialEq, Eq)]
pub struct AcceptInitRequestArguments {
    pub own_seckey_sig: Vec<u8>,
    pub own_pubkey_sig: Vec<u8>,
    pub remote_pubkey_kyber: Vec<u8>,
    pub pfs_key: Vec<u8>,
    pub pfs_salt: Vec<u8>,
    pub id: String,
    pub mdc_seed: String,
}

/// What is wrong with the arguments of the acceptance of an init request:
/// the first of them, in the order given, that could not be read or whose
/// key is no hexadecimal text.
pub open spec fn accept_init_request_failure(
    own_seckey_sig: Option<String>,
    own_pubkey_sig: Option<String>,
    remote_pubkey_kyber: Option<String>,
    pfs_key: Option<String>,
    pfs_salt: Option<String>,
    id: Option<String>,
    mdc_seed: Option<String>,
) -> Option<Failure> {
    first_failure(
        key_failure(own_seckey_sig, Argument::OwnSeckeySig),
        first_failure(
            key_failure(own_pubkey_sig, Argument::OwnPubkeySig),
            first_failure(
                key_failure(remote_pubkey_kyber, Argument::RemotePubkeyKyber),
                first_failure(
                    key_failure(pfs_key, Argument::PfsKey),
                    first_failure(
                        key_failure(pfs_salt, Argument::PfsSalt),
                        first_failure(
                            text_failure(id, Argument::Id),
                            text_failure(mdc_seed, Argument::MdcSeed),
                        ),
                    ),
                ),
            ),
        ),
    )
}

/// The arguments of the acceptance of an init request, read from the
/// host's values.
pub fn accept_init_request_arguments(
    own_seckey_sig: Option<String>,
    own_pubkey_sig: Option<String>,
    remote_pubkey_kyber: Option<String>,
    pfs_key: Option<String>,
    pfs_salt: Option<String>,
    id: Option<String>,
    mdc_seed: Option<String>,
) -> (r: Result<AcceptInitRequestArguments, Failure>)
    ensures
        match r {
            Ok(arguments) => {
                &&& accept_init_request_failure(
                    own_seckey_sig,
                    own_pubkey_sig,
                    remote_pubkey_kyber,
                    pfs_key,
                    pfs_salt,
                    id,
                    mdc_seed,
                ) is None
                &&& arguments.own_seckey_sig@ == hex_decoding(own_seckey_sig->0@)
                &&& arguments.own_pubkey_sig@ == hex_decoding(own_pubkey_sig->0@)
                &&& arguments.remote_pubkey_kyber@ == hex_decoding(remote_pubkey_kyber->0@)
                &&& arguments.pfs_key@ == hex_decoding(pfs_key->0@)
                &&& arguments.pfs_salt@ == hex_decoding(pfs_salt->0@)
                &&& arguments.id@ == id->0@
                &&& arguments.mdc_seed@ == mdc_seed->0@
            },
            Err(failure) => accept_init_request_failure(
                own_seckey_sig,
                own_pubkey_sig,
                remote_pubkey_kyber,
                pfs_key,
                pfs_salt,
                id,
                mdc_seed,
            ) == Some(failure),
        },
{
    let seckey_sig = key_argument(own_seckey_sig, Argument::OwnSeckeySig)?;
    let pubkey_sig = key_argument(own_pubkey_sig, Argument::OwnPubkeySig)?;
    let kyber = key_argument(remote_pubkey_kyber, Argument::RemotePubkeyKyber)?;
    let key = key_argument(pfs_key, Argument::PfsKey)?;
    let salt = key_argument(pfs_salt, Argument::PfsSalt)?;
    let id_text = text_argument(id, Argument::Id)?;
    let seed_text = text_argument(mdc_seed, Argument::MdcSeed)?;
    Ok(
        AcceptInitRequestArguments {
            own_seckey_sig: seckey_sig,
            own_pubkey_sig: pubkey_sig,
            remote_pubkey_kyber: kyber,
            pfs_key: key,
            pfs_salt: salt,
            id: id_text,
            mdc_seed: seed_text,
        },
    )
}

/// What the responder has after it accepted an init request: the first
/// forward-secrecy key of the session, a fresh pair of keys, the detection
/// code, and the response to send.
#[derive(Debug, PartialEq, Eq)]
pub struct InitAcceptance {
    pub new_pfs_key: Vec<u8>,
    pub own_kyber: KeyPair,
    pub mdc: String,
    pub ciphertext: Vec<u8>,
}

/// An acceptance as the host is told of it.
#[derive(Debug, PartialEq, Eq)]
pub struct AcceptInitRequest {
    pub new_pfs_key: String,
    pub own_pubkey_kyber: String,
    pub own_seckey_kyber: String,
    pub mdc: String,
    pub ciphertext: String,
}

impl AcceptInitRequest {
    /// Whether this is the text of `acceptance`: keys in hexadecimal, the
    /// response to send in base64, the detection code as it is.
    pub open spec fn reports(self, acceptance: InitAcceptance) -> bool {
        &&& self.new_pfs_key@ == hex_encoding(acceptance.new_pfs_key@)
        &&& self.own_pubkey_kyber@ == hex_encoding(acceptance.own_kyber.public@)
        &&& self.own_seckey_kyber@ == hex_encoding(acceptance.own_kyber.secret@)
        &&& self.mdc@ == acceptance.mdc@
        &&& self.ciphertext@ == base64_encoding(acceptance.ciphertext@)
    }
}

/// The reply to the acceptance of an init request: what was made, or the
/// failure with the reason given.
pub fn accept_init_request_reply(outcome: Result<InitAcceptance, String>) -> (r: Result<
    AcceptInitRequest,
    Failure,
>)
    requires
        outcome matches Ok(acceptance) ==> base64_length(acceptance.ciphertext@.len())
            <= usize::MAX,
    ensures
        match outcome {
            Ok(acceptance) => r matches Ok(reply) && reply.reports(acceptance),
            Err(reason) => r matches Err(failure) && failure == Failure::Failed(
                Operation::AcceptInitRequest,
                reason,
            ),
        },
{
    match outcome {
        Ok(acceptance) => Ok(
            AcceptInitRequest {
                new_pfs_key: encode(acceptance.new_pfs_key.as_slice()),
                own_pubkey_kyber: encode(acceptance.own_kyber.public.as_slice()),
                own_seckey_kyber: encode(acceptance.own_kyber.secret.as_slice()),
                ciphertext: base64_encode(acceptance.ciphertext.as_slice()),
                mdc: acceptance.mdc,
            },
        ),
        Err(reason) => Err(Failure::Failed(Operation::AcceptInitRequest, reason)),
    }
}

/// What the response to an init request is read with: the response, the
/// secret key of this session, and the material for forward secrecy that
/// the request left.
#[derive(Debug, PartialEq, Eq)]
pub struct ParseInitResponseArguments {
    pub ciphertext: Vec<u8>,
    pub own_seckey_kyber: Vec<u8>,
    pub pfs_key: Vec<u8>,
    pub pfs_salt: Vec<u8>,
}

/// What is wrong with the arguments of the reading of a response: the first
/// of them, in the order given, that could not be read or whose key is no
/// hexadecimal text.
pub open spec fn parse_init_response_failure(
    ciphertext: Option<Vec<u8>>,
    own_seckey_kyber: Option<String>,
    pfs_key: Option<String>,
    pfs_salt: Option<String>,
) -> Option<Failure> {
    first_failure(
        bytes_failure(ciphertext, Argument::Ciphertext),
        first_failure(
            key_failure(own_seckey_kyber, Argument::OwnSeckeyKyber),
            first_failure(
                key_failure(pfs_key, Argument::PfsKey),
                key_failure(pfs_salt, Argument::PfsSalt),
            ),
        ),
    )
}

/// The arguments of the reading of a response, read from the host's values.
pub fn parse_init_response_arguments(
    ciphertext: Option<Vec<u8>>,
    own_seckey_kyber: Option<String>,
    pfs_key: Option<String>,
    pfs_salt: Option<String>,
) -> (r: Result<ParseInitResponseArguments, Failure>)
    ensures
        match r {
            Ok(arguments) => {
                &&& parse_init_response_failure(ciphertext, own_seckey_kyber, pfs_key, pfs_salt)
                    is None
                &&& arguments.ciphertext@ == ciphertext->0@
                &&& arguments.own_seckey_kyber@ == hex_decoding(own_seckey_kyber->0@)
                &&& arguments.pfs_key@ == hex_decoding(pfs_key->0@)
                &&& arguments.pfs_salt@ == hex_decoding(pfs_salt->0@)
            },
            Err(failure) => parse_init_response_failure(
                ciphertext,
                own_seckey_kyber,
                pfs_key,
                pfs_salt,
            ) == Some(failure),
        },
{
    let response = bytes_argument(ciphertext, Argument::Ciphertext)?;
    let kyber = key_argument(own_seckey_kyber, Argument::OwnSeckeyKyber)?;
    let key = key_argument(pfs_key, Argument::PfsKey)?;
    let salt = key_argument(pfs_salt, Argument::PfsSalt)?;
    Ok(
        ParseInitResponseArguments {
            ciphertext: response,
            own_seckey_kyber: kyber,
            pfs_key: key,
            pfs_salt: salt,
        },
    )
}

/// What the initiator has after it read the response: the responder's
/// public keys, the first forward-secrecy key of the session, and the
/// detection code.
#[derive(Debug, PartialEq, Eq)]
pub struct InitResponse {
    pub remote_pubkey_kyber: Vec<u8>,
    pub remote_pubkey_sig: Vec<u8>,
    pub new_pfs_key: Vec<u8>,
    pub mdc: String,
}

/// A response as the host is told of it.
#[derive(Debug, PartialEq, Eq)]
pub struct ParseInitResponse {
    pub remote_pubkey_kyber: String,
    pub remote_pubkey_sig: String,
    pub new_pfs_key: String,
    pub mdc: String,
}

impl ParseInitResponse {
    /// Whether this is the text of `response`: keys in hexadecimal, the
    /// detection code as it is.
    pub open spec fn reports(self, response: InitResponse) -> bool {
        &&& self.remote_pubkey_kyber@ == hex_encoding(response.remote_pubkey_kyber@)
        &&& self.remote_pubkey_sig@ == hex_encoding(response.remote_pubkey_sig@)
        &&& self.new_pfs_key@ == hex_encoding(response.new_pfs_key@)
        &&& self.mdc@ == response.mdc@
    }
}

/// The reply to the reading of a response. A response that was not
/// accepted is rejected, and nothing of it is reported, not even why.
pub fn parse_init_response_reply(outcome: Result<InitResponse, String>) -> (r: Result<
    ParseInitResponse,
    Failure,
>)
    ensures
        match outcome {
            Ok(response) => r matches Ok(reply) && reply.reports(response),
            Err(reason) => r matches Err(failure) && failure == rejection(
                Message::InitResponse,
                reason,
            ),
        },
{
    match outcome {
        Ok(response) => Ok(
            ParseInitResponse {
                remote_pubkey_kyber: encode(response.remote_pubkey_kyber.as_slice()),
                remote_pubkey_sig: encode(response.remote_pubkey_sig.as_slice()),
                new_pfs_key: encode(response.new_pfs_key.as_slice()),
                mdc: response.mdc,
            },
        ),
        Err(_) => Err(Failure::Rejected(Message::InitResponse)),
    }
}

/// What the initiator was told of its request lets it read the response:
/// the secret key of the session, either forward-secrecy key and the salt
/// are accepted as they were reported, and are read as the material that
/// the request was made with.
pub proof fn lemma_request_state_reads_back(
    request: InitRequest,
    reply: GenInitRequest,
    response: Vec<u8>,
)
    requires
        reply.reports(request),
    ensures
        parse_init_response_failure(
            Some(response),
            Some(reply.own_seckey_kyber),
            Some(reply.own_pfs_key),
            Some(reply.pfs_salt),
        ) is None,
        parse_init_response_failure(
            Some(response),
            Some(reply.own_seckey_kyber),
            Some(reply.remote_pfs_key),
            Some(reply.pfs_salt),
        ) is None,
        hex_decoding(reply.own_seckey_kyber@) == request.own_kyber.secret@,
        hex_decoding(reply.own_pfs_key@) == request.own_pfs_key@,
        hex_decoding(reply.remote_pfs_key@) == request.remote_pfs_key@,
        hex_decoding(reply.pfs_salt@) == request.pfs_salt@,
{
    lemma_hex_round_trip(request.own_kyber.secret@);
    lemma_hex_round_trip(request.own_pfs_key@);
    lemma_hex_round_trip(request.remote_pfs_key@);
    lemma_hex_round_trip(request.pfs_salt@);
}

/// What the responder was told of a request lets it accept that request:
/// with signature keys that are hexadecimal text, the initiator's key,
/// either forward-secrecy key, the salt, the identifier and the seed are
/// accepted as they were reported, and are read as what the request held.
pub proof fn lemma_received_request_state_reads_back(
    request: ReceivedInitRequest,
    reply: ParseInitRequest,
    own_seckey_sig: String,
    own_pubkey_sig: String,
)
    requires
        reply.reports(request),
        is_hex_text(own_seckey_sig@),
        is_hex_text(own_pubkey_sig@),
    ensures
        accept_init_request_failure(
            Some(own_seckey_sig),
            Some(own_pubkey_sig),
            Some(reply.remote_pubkey_kyber),
            Some(reply.own_pfs_key),
            Some(reply.pfs_salt),
            Some(reply.id),
            Some(reply.mdc_seed),
        ) is None,
        accept_init_request_failure(
            Some(own_seckey_sig),
            Some(own_pubkey_sig),
            Some(reply.remote_pubkey_kyber),
            Some(reply.remote_pfs_key),
            Some(reply.pfs_salt),
            Some(reply.id),
            Some(reply.mdc_seed),
        ) is None,
        hex_decoding(reply.remote_pubkey_kyber@) == request.remote_pubkey_kyber@,
        hex_decoding(reply.own_pfs_key@) == request.own_pfs_key@,
        hex_decoding(reply.remote_pfs_key@) == request.remote_pfs_key@,
        hex_decoding(reply.pfs_salt@) == request.pfs_salt@,
        reply.id@ == request.id@,
        reply.mdc_seed@ == request.mdc_seed@,
{
    lemma_hex_round_trip(request.remote_pubkey_kyber@);
    lemma_hex_round_trip(request.own_pfs_key@);
    lemma_hex_round_trip(request.remote_pfs_key@);
    lemma_hex_round_trip(request.pfs_salt@);
}

} // verus!
