//! The messages of an established session, and files sealed on their own.
//!
//! A message is sealed under the current forward-secrecy key, and sealing
//! or opening one gives the key for the next. The host keeps the keys as
//! hexadecimal text between the calls.

use crate::base64text::{base64_encoding, base64_length, encode as base64_encode};
use crate::failure::{rejection, Argument, Failure, Message, Operation};
use crate::hextext::{encode, hex_decoding, hex_encoding, lemma_hex_round_trip};
use crate::host::{
    bytes_argument, bytes_failure, file_argument, file_failure, first_failure, key_argument,
    key_failure, message_type, message_type_failure, optional_bytes_argument,
    optional_key_argument, optional_text_argument, text_failure,
};
use vstd::prelude::*;

verus! {

/// What a message carries: the tag of its type, and a text, bytes, both or
/// neither.
#[derive(Debug, PartialEq, Eq)]
pub struct Envelope {
    pub msg_type: u8,
    pub text: Option<String>,
    pub bytes: Option<Vec<u8>>,
}

impl Envelope {
    /// A text or bytes that are there are not empty: to the host the empty
    /// value stands for none.
    pub open spec fn wf(self) -> bool {
        &&& self.text matches Some(text) ==> text@.len() > 0
        &&& self.bytes matches Some(bytes) ==> bytes@.len() > 0
    }
}

/// The text of an envelope as the host gives or is given it: empty where
/// there is none.
pub open spec fn host_text(text: Option<String>) -> Seq<char> {
    match text {
        Some(text) => text@,
        None => Seq::empty(),
    }
}

/// The bytes of an envelope as the host gives them: empty where there are
/// none.
pub open spec fn host_bytes(bytes: Option<Vec<u8>>) -> Seq<u8> {
    match bytes {
        Some(bytes) => bytes@,
        None => Seq::empty(),
    }
}

/// What a message is sealed with: the envelope, the peer's public key, the
/// own signature key, and the current forward-secrecy key with its salt.
#[derive(Debug, PartialEq, Eq)]
pub struct SendMsgArguments {
    pub envelope: Envelope,
    pub remote_pubkey_kyber: Vec<u8>,
    pub own_seckey_sig: Vec<u8>,
    pub pfs_key: Vec<u8>,
    pub pfs_salt: Vec<u8>,
}

/// What is wrong with the arguments of the sealing of a message: the first
/// of them, in the order given, that is out of range, could not be read or
/// whose key is no hexadecimal text.
pub open spec fn send_msg_failure(
    msg_type: i16,
    msg_string: Option<String>,
    msg_bytes: Option<Vec<u8>>,
    remote_pubkey_kyber: Option<String>,
    own_seckey_sig: Option<String>,
    pfs_key: Option<String>,
    pfs_salt: Option<String>,
) -> Option<Failure> {
    first_failure(
        message_type_failure(msg_type),
        first_failure(
            text_failure(msg_string, Argument::MsgString),
            first_failure(
                bytes_failure(msg_bytes, Argument::MsgBytes),
                first_failure(
                    key_failure(remote_pubkey_kyber, Argument::RemotePubkeyKyber),
                    first_failure(
                        key_failure(own_seckey_sig, Argument::OwnSeckeySig),
                        first_failure(
                            key_failure(pfs_key, Argument::PfsKey),
                            key_failure(pfs_salt, Argument::PfsSalt),
                        ),
                    ),
                ),
            ),
        ),
    )
}

/// The arguments of the sealing of a message, read from the host's values.
/// An empty text and an empty byte array stand for none.
pub fn send_msg_arguments(
    msg_type: i16,
    msg_string: Option<String>,
    msg_bytes: Option<Vec<u8>>,
    remote_pubkey_kyber: Option<String>,
    own_seckey_sig: Option<String>,
    pfs_key: Option<String>,
    pfs_salt: Option<String>,
) -> (r: Result<SendMsgArguments, Failure>)
    ensures
        match r {
            Ok(arguments) => {
                &&& send_msg_failure(
                    msg_type,
                    msg_string,
                    msg_bytes,
                    remote_pubkey_kyber,
                    own_seckey_sig,
                    pfs_key,
                    pfs_salt,
                ) is None
                &&& arguments.envelope.wf()
                &&& arguments.envelope.msg_type == msg_type
                &&& host_text(arguments.envelope.text) == msg_string->0@
                &&& host_bytes(arguments.envelope.bytes) == msg_bytes->0@
                &&& arguments.remote_pubkey_kyber@ == hex_decoding(remote_pubkey_kyber->0@)
                &&& arguments.own_seckey_sig@ == hex_decoding(own_seckey_sig->0@)
                &&& arguments.pfs_key@ == hex_decoding(pfs_key->0@)
                &&& arguments.pfs_salt@ == hex_decoding(pfs_salt->0@)
            },
            Err(failure) => send_msg_failure(
                msg_type,
                msg_string,
                msg_bytes,
                remote_pubkey_kyber,
                own_seckey_sig,
                pfs_key,
                pfs_salt,
            ) == Some(failure),
        },
{
    let tag = message_type(msg_type)?;
    let text = optional_text_argument(msg_string, Argument::MsgString)?;
    let bytes = optional_bytes_argument(msg_bytes, Argument::MsgBytes)?;
    let kyber = key_argument(remote_pubkey_kyber, Argument::RemotePubkeyKyber)?;
    let seckey_sig = key_argument(own_seckey_sig, Argument::OwnSeckeySig)?;
    let key = key_argument(pfs_key, Argument::PfsKey)?;
    let salt = key_argument(pfs_salt, Argument::PfsSalt)?;
    Ok(
        SendMsgArguments {
            envelope: Envelope { msg_type: tag, text: text, bytes: bytes },
            remote_pubkey_kyber: kyber,
            own_seckey_sig: seckey_sig,
            pfs_key: key,
            pfs_salt: salt,
        },
    )
}

/// What the sender has after it sealed a message: the next forward-secrecy
/// key, the detection code, and the message to send.
#[derive(Debug, PartialEq, Eq)]
pub struct SentMessage {
    pub new_pfs_key: Vec<u8>,
    pub mdc: String,
    pub ciphertext: Vec<u8>,
}

/// A sealed message as the host is told of it.
#[derive(Debug, PartialEq, Eq)]
pub struct SendMessage {
    pub new_pfs_key: String,
    pub mdc: String,
    pub ciphertext: String,
}

impl SendMessage {
    /// Whether this is the text of `sent`: the key in hexadecimal, the
    /// message to send in base64, the detection code as it is.
    pub open spec fn reports(self, sent: SentMessage) -> bool {
        &&& self.new_pfs_key@ == hex_encoding(sent.new_pfs_key@)
        &&& self.mdc@ == sent.mdc@
        &&& self.ciphertext@ == base64_encoding(sent.ciphertext@)
    }
}

/// The reply to the sealing of a message: what was made, or the failure
/// with the reason given.
pub fn send_msg_reply(outcome: Result<SentMessage, String>) -> (r: Result<SendMessage, Failure>)
    requires
        outcome matches Ok(sent) ==> base64_length(sent.ciphertext@.len()) <= usize::MAX,
    ensures
        match outcome {
            Ok(sent) => r matches Ok(reply) && reply.reports(sent),
            Err(reason) => r matches Err(failure) && failure == Failure::Failed(
                Operation::SendMsg,
                reason,
            ),
        },
{
    match outcome {
        Ok(sent) => Ok(
            SendMessage {
                new_pfs_key: encode(sent.new_pfs_key.as_slice()),
                ciphertext: base64_encode(sent.ciphertext.as_slice()),
                mdc: sent.mdc,
            },
        ),
        Err(reason) => Err(Failure::Failed(Operation::SendMsg, reason)),
    }
}

/// What a message is opened with: the message, the own secret key, the
/// peer's signature key where the signature is to be checked, and the
/// current forward-secrecy key with its salt.
#[derive(Debug, PartialEq, Eq)]
pub struct ParseMsgArguments {
    pub msg_ciphertext: Vec<u8>,
    pub own_seckey_kyber: Vec<u8>,
    pub remote_pubkey_sig: Option<Vec<u8>>,
    pub pfs_key: Vec<u8>,
    pub pfs_salt: Vec<u8>,
}

/// What is wrong with the arguments of the opening of a message: the first
/// of them, in the order given, that could not be read or whose key is no
/// hexadecimal text.
pub open spec fn parse_msg_failure(
    msg_ciphertext: Option<Vec<u8>>,
    own_seckey_kyber: Option<String>,
    remote_pubkey_sig: Option<String>,
    pfs_key: Option<String>,
    pfs_salt: Option<String>,
) -> Option<Failure> {
    first_failure(
        bytes_failure(msg_ciphertext, Argument::MsgCiphertext),
        first_failure(
            key_failure(own_seckey_kyber, Argument::OwnSeckeyKyber),
            first_failure(
                key_failure(remote_pubkey_sig, Argument::RemotePubkeySig),
                first_failure(
                    key_failure(pfs_key, Argument::PfsKey),
                    key_failure(pfs_salt, Argument::PfsSalt),
                ),
            ),
        ),
    )
}

/// The peer's signature key that a text of the host stands for: none where
/// the text is empty.
pub open spec fn optional_key(text: Seq<char>) -> Option<Seq<u8>> {
    if text.len() == 0 {
        None
    } else {
        Some(hex_decoding(text))
    }
}

/// The arguments of the opening of a message, read from the host's values.
/// An empty text for the peer's signature key stands for none: the
/// signature is then not checked.
pub fn parse_msg_arguments(
    msg_ciphertext: Option<Vec<u8>>,
    own_seckey_kyber: Option<String>,
    remote_pubkey_sig: Option<String>,
    pfs_key: Option<String>,
    pfs_salt: Option<String>,
) -> (r: Result<ParseMsgArguments, Failure>)
    ensures
        match r {
            Ok(arguments) => {
                &&& parse_msg_failure(
                    msg_ciphertext,
                    own_seckey_kyber,
                    remote_pubkey_sig,
                    pfs_key,
                    pfs_salt,
                ) is None
                &&& arguments.msg_ciphertext@ == msg_ciphertext->0@
                &&& arguments.own_seckey_kyber@ == hex_decoding(own_seckey_kyber->0@)
                &&& match optional_key(remote_pubkey_sig->0@) {
                    Some(key) => arguments.remote_pubkey_sig matches Some(read) && read@ == key,
                    None => arguments.remote_pubkey_sig is None,
                }
                &&& arguments.pfs_key@ == hex_decoding(pfs_key->0@)
                &&& arguments.pfs_salt@ == hex_decoding(pfs_salt->0@)
            },
            Err(failure) => parse_msg_failure(
                msg_ciphertext,
                own_seckey_kyber,
                remote_pubkey_sig,
                pfs_key,
                pfs_salt,
            ) == Some(failure),
        },
{
    let message = bytes_argument(msg_ciphertext, Argument::MsgCiphertext)?;
    let kyber = key_argument(own_seckey_kyber, Argument::OwnSeckeyKyber)?;
    let pubkey_sig = optional_key_argument(remote_pubkey_sig, Argument::RemotePubkeySig)?;
    let key = key_argument(pfs_key, Argument::PfsKey)?;
    let salt = key_argument(pfs_salt, Argument::PfsSalt)?;
    Ok(
        ParseMsgArguments {
            msg_ciphertext: message,
            own_seckey_kyber: kyber,
            remote_pubkey_sig: pubkey_sig,
            pfs_key: key,
            pfs_salt: salt,
        },
    )
}

/// What the receiver has after it opened a message: the envelope, the next
/// forward-secrecy key, and the detection code.
#[derive(Debug, PartialEq, Eq)]
pub struct ReceivedMessage {
    pub envelope: Envelope,
    pub new_pfs_key: Vec<u8>,
    pub mdc: String,
}

/// An opened message as the host is told of it.
#[derive(Debug, PartialEq, Eq)]
pub struct ParseMessage {
    pub msg_type: u8,
    pub msg_text: String,
    pub msg_bytes: String,
    pub new_pfs_key: String,
    pub mdc: String,
}

impl ParseMessage {
    /// Whether this is the text of `received`: the type as it is, the text
    /// or the empty text, the bytes in base64 or the empty text, the key in
    /// hexadecimal, the detection code as it is.
    pub open spec fn reports(self, received: ReceivedMessage) -> bool {
        &&& self.msg_type == received.envelope.msg_type
        &&& self.msg_text@ == host_text(received.envelope.text)
        &&& self.msg_bytes@ == base64_encoding(host_bytes(received.envelope.bytes))
        &&& self.new_pfs_key@ == hex_encoding(received.new_pfs_key@)
        &&& self.mdc@ == received.mdc@
    }
}

/// The reply to the opening of a message. A message that was not accepted
/// is rejected, and nothing of it is reported, not even why.
pub fn parse_msg_reply(outcome: Result<ReceivedMessage, String>) -> (r: Result<
    ParseMessage,
    Failure,
>)
    requires
        outcome matches Ok(received) ==> base64_length(host_bytes(received.envelope.bytes).len())
            <= usize::MAX,
    ensures
        match outcome {
            Ok(received) => r matches Ok(reply) && reply.reports(received),
            Err(reason) => r matches Err(failure) && failure == rejection(Message::Msg, reason),
        },
{
    match outcome {
        Ok(received) => {
            let msg_text = match received.envelope.text {
                Some(text) => text,
                None => String::new(),
            };
            let msg_bytes = match received.envelope.bytes {
                Some(bytes) => base64_encode(bytes.as_slice()),
                None => {
                    assert(base64_encoding(Seq::<u8>::empty()) =~= Seq::<char>::empty());
                    String::new()
                },
            };
            Ok(
                ParseMessage {
                    msg_type: received.envelope.msg_type,
                    msg_text: msg_text,
                    msg_bytes: msg_bytes,
                    new_pfs_key: encode(received.new_pfs_key.as_slice()),
                    mdc: received.mdc,
                },
            )
        },
        Err(_) => Err(Failure::Rejected(Message::Msg)),
    }
}

/// The file that is to be sealed.
pub fn encrypt_file_arguments(file: Option<Vec<u8>>) -> (r: Result<Vec<u8>, Failure>)
    ensures
        match r {
            Ok(bytes) => file == Some(bytes),
            Err(failure) => file_failure(file, Argument::File) == Some(failure),
        },
{
    file_argument(file, Argument::File)
}

/// A sealed file and the fresh key it was sealed under.
#[derive(Debug, PartialEq, Eq)]
pub struct SealedFile {
    pub ciphertext: Vec<u8>,
    pub key: Vec<u8>,
}

/// A sealed file as the host is told of it.
#[derive(Debug, PartialEq, Eq)]
pub struct EncryptFile {
    pub key: String,
    pub ciphertext: String,
}

impl EncryptFile {
    /// Whether this is the text of `sealed`: key and ciphertext in
    /// hexadecimal.
    pub open spec fn reports(self, sealed: SealedFile) -> bool {
        &&& self.key@ == hex_encoding(sealed.key@)
        &&& self.ciphertext@ == hex_encoding(sealed.ciphertext@)
    }
}

/// The reply to the sealing of a file: key and ciphertext, or the failure
/// with the reason given.
pub fn encrypt_file_reply(outcome: Result<SealedFile, String>) -> (r: Result<EncryptFile, Failure>)
    ensures
        match outcome {
            Ok(sealed) => r matches Ok(reply) && reply.reports(sealed),
            Err(reason) => r matches Err(failure) && failure == Failure::Failed(
                Operation::EncryptFile,
                reason,
            ),
        },
{
    match outcome {
        Ok(sealed) => Ok(
            EncryptFile {
                key: encode(sealed.key.as_slice()),
                ciphertext: encode(sealed.ciphertext.as_slice()),
            },
        ),
        Err(reason) => Err(Failure::Failed(Operation::EncryptFile, reason)),
    }
}

/// What is wrong with the arguments of the opening of a file: the
/// ciphertext could not be read, or else the key could not be read or is no
/// hexadecimal text.
pub open spec fn decrypt_file_failure(ciphertext: Option<Vec<u8>>, key: Option<String>) -> Option<
    Failure,
> {
    first_failure(
        file_failure(ciphertext, Argument::Ciphertext),
        key_failure(key, Argument::Key),
    )
}

/// The ciphertext of a file and the key to open it with.
pub fn decrypt_file_arguments(ciphertext: Option<Vec<u8>>, key: Option<String>) -> (r: Result<
    (Vec<u8>, Vec<u8>),
    Failure,
>)
    ensures
        match r {
            Ok(arguments) => {
                &&& decrypt_file_failure(ciphertext, key) is None
                &&& arguments.0@ == ciphertext->0@
                &&& arguments.1@ == hex_decoding(key->0@)
            },
            Err(failure) => decrypt_file_failure(ciphertext, key) == Some(failure),
        },
{
    let sealed = file_argument(ciphertext, Argument::Ciphertext)?;
    let file_key = key_argument(key, Argument::Key)?;
    Ok((sealed, file_key))
}

/// The reply to the opening of a file: the file in hexadecimal, or the
/// failure with the reason given.
pub fn decrypt_file_reply(outcome: Result<Vec<u8>, String>) -> (r: Result<String, Failure>)
    ensures
        match outcome {
            Ok(file) => r matches Ok(reply) && reply@ == hex_encoding(file@),
            Err(reason) => r matches Err(failure) && failure == Failure::Failed(
                Operation::DecryptFile,
                reason,
            ),
        },
{
    match outcome {
        Ok(file) => Ok(encode(file.as_slice())),
        Err(reason) => Err(Failure::Failed(Operation::DecryptFile, reason)),
    }
}

/// The sender's next key is handed on unchanged: what the host was told
/// after a message was sealed is accepted as the forward-secrecy key of the
/// next call, and is read as the key that the ratchet gave.
pub proof fn lemma_sent_key_reads_back(sent: SentMessage, reply: SendMessage)
    requires
        reply.reports(sent),
    ensures
        key_failure(Some(reply.new_pfs_key), Argument::PfsKey) is None,
        hex_decoding(reply.new_pfs_key@) == sent.new_pfs_key@,
{
    lemma_hex_round_trip(sent.new_pfs_key@);
}

/// The receiver's next key is handed on unchanged: what the host was told
/// after a message was opened is accepted as the forward-secrecy key of
/// the next call, and is read as the key that the ratchet gave.
pub proof fn lemma_received_key_reads_back(received: ReceivedMessage, reply: ParseMessage)
    requires
        reply.reports(received),
    ensures
        key_failure(Some(reply.new_pfs_key), Argument::PfsKey) is None,
        hex_decoding(reply.new_pfs_key@) == received.new_pfs_key@,
{
    lemma_hex_round_trip(received.new_pfs_key@);
}

/// What the host is told of a sealed file lets it open that file: the key
/// as it was reported is accepted and read as the key the file was sealed
/// under, and the reported ciphertext stands for the ciphertext.
pub proof fn lemma_reported_file_key_reads_back(sealed: SealedFile, reply: EncryptFile)
    requires
        reply.reports(sealed),
    ensures
        key_failure(Some(reply.key), Argument::Key) is None,
        hex_decoding(reply.key@) == sealed.key@,
        hex_decoding(reply.ciphertext@) == sealed.ciphertext@,
{
    lemma_hex_round_trip(sealed.key@);
    lemma_hex_round_trip(sealed.ciphertext@);
}

} // verus!
