//! What can go wrong, and the status text the host is given for it.

use crate::decimal::{integer_digits, integer_text};
use vstd::prelude::*;

verus! {

/// An argument of the host, by the name the host knows it under.
#[derive(Clone, Copy, Debug, PartialEq, Eq, Structural)]
pub enum Argument {
    Id,
    Modifier,
    Salt,
    MdcSeed,
    TempId,
    KeyA,
    KeyB,
    Input,
    Timestamp,
    InitPubkeyKyber,
    InitPubkeyCurve,
    InitPubkeyKyberForSalt,
    InitPubkeyCurveForSalt,
    Name,
    Handle,
    RemotePubkeyKyber,
    RemotePubkeyKyberForSalt,
    RemotePubkeyCurve,
    RemotePubkeyCurvePfs2,
    RemotePubkeyCurveForSalt,
    OwnPubkeySig,
    OwnSeckeySig,
    Comment,
    Mdc,
    Ciphertext,
    OwnSeckeyKyber,
    OwnSeckeyCurve,
    OwnSeckeyCurvePfs2,
    OwnSeckeyKyberForSalt,
    OwnSeckeyCurveForSalt,
    PfsKey,
    PfsSalt,
    MsgString,
    MsgBytes,
    MsgCiphertext,
    RemotePubkeySig,
    Key,
    File,
}

impl Argument {
    /// The argument's name as the host writes it.
    pub open spec fn name_text(self) -> Seq<char> {
        match self {
            Argument::Id => "id"@,
            Argument::Modifier => "modifier"@,
            Argument::Salt => "salt"@,
            Argument::MdcSeed => "mdc_seed"@,
            Argument::TempId => "temp_id"@,
            Argument::KeyA => "key_a"@,
            Argument::KeyB => "key_b"@,
            Argument::Input => "input"@,
            Argument::Timestamp => "timestamp"@,
            Argument::InitPubkeyKyber => "init_pubkey_kyber"@,
            Argument::InitPubkeyCurve => "init_pubkey_curve"@,
            Argument::InitPubkeyKyberForSalt => "init_pubkey_kyber_for_salt"@,
            Argument::InitPubkeyCurveForSalt => "init_pubkey_curve_for_salt"@,
            Argument::Name => "name"@,
            Argument::Handle => "handle"@,
            Argument::RemotePubkeyKyber => "remote_pubkey_kyber"@,
            Argument::RemotePubkeyKyberForSalt => "remote_pubkey_kyber_for_salt"@,
            Argument::RemotePubkeyCurve => "remote_pubkey_curve"@,
            Argument::RemotePubkeyCurvePfs2 => "remote_pubkey_curve_pfs_2"@,
            Argument::RemotePubkeyCurveForSalt => "remote_pubkey_curve_for_salt"@,
            Argument::OwnPubkeySig => "own_pubkey_sig"@,
            Argument::OwnSeckeySig => "own_seckey_sig"@,
            Argument::Comment => "comment"@,
            Argument::Mdc => "mdc"@,
            Argument::Ciphertext => "ciphertext"@,
            Argument::OwnSeckeyKyber => "own_seckey_kyber"@,
            Argument::OwnSeckeyCurve => "own_seckey_curve"@,
            Argument::OwnSeckeyCurvePfs2 => "own_seckey_curve_pfs_2"@,
            Argument::OwnSeckeyKyberForSalt => "own_seckey_kyber_for_salt"@,
            Argument::OwnSeckeyCurveForSalt => "own_seckey_curve_for_salt"@,
            Argument::PfsKey => "pfs_key"@,
            Argument::PfsSalt => "pfs_salt"@,
            Argument::MsgString => "msg_string"@,
            Argument::MsgBytes => "msg_bytes"@,
            Argument::MsgCiphertext => "msg_ciphertext"@,
            Argument::RemotePubkeySig => "remote_pubkey_sig"@,
            Argument::Key => "key"@,
            Argument::File => "file"@,
        }
    }

    /// The argument's name as the host writes it.
    pub fn name(self) -> (r: &'static str)
        ensures
            r@ == self.name_text(),
    {
        match self {
            Argument::Id => "id",
            Argument::Modifier => "modifier",
            Argument::Salt => "salt",
            Argument::MdcSeed => "mdc_seed",
            Argument::TempId => "temp_id",
            Argument::KeyA => "key_a",
            Argument::KeyB => "key_b",
            Argument::Input => "input",
            Argument::Timestamp => "timestamp",
            Argument::InitPubkeyKyber => "init_pubkey_kyber",
            Argument::InitPubkeyCurve => "init_pubkey_curve",
            Argument::InitPubkeyKyberForSalt => "init_pubkey_kyber_for_salt",
            Argument::InitPubkeyCurveForSalt => "init_pubkey_curve_for_salt",
            Argument::Name => "name",
            Argument::Handle => "handle",
            Argument::RemotePubkeyKyber => "remote_pubkey_kyber",
            Argument::RemotePubkeyKyberForSalt => "remote_pubkey_kyber_for_salt",
            Argument::RemotePubkeyCurve => "remote_pubkey_curve",
            Argument::RemotePubkeyCurvePfs2 => "remote_pubkey_curve_pfs_2",
            Argument::RemotePubkeyCurveForSalt => "remote_pubkey_curve_for_salt",
            Argument::OwnPubkeySig => "own_pubkey_sig",
            Argument::OwnSeckeySig => "own_seckey_sig",
            Argument::Comment => "comment",
            Argument::Mdc => "mdc",
            Argument::Ciphertext => "ciphertext",
            Argument::OwnSeckeyKyber => "own_seckey_kyber",
            Argument::OwnSeckeyCurve => "own_seckey_curve",
            Argument::OwnSeckeyCurvePfs2 => "own_seckey_curve_pfs_2",
            Argument::OwnSeckeyKyberForSalt => "own_seckey_kyber_for_salt",
            Argument::OwnSeckeyCurveForSalt => "own_seckey_curve_for_salt",
            Argument::PfsKey => "pfs_key",
            Argument::PfsSalt => "pfs_salt",
            Argument::MsgString => "msg_string",
            Argument::MsgBytes => "msg_bytes",
            Argument::MsgCiphertext => "msg_ciphertext",
            Argument::RemotePubkeySig => "remote_pubkey_sig",
            Argument::Key => "key",
            Argument::File => "file",
        }
    }
}

/// An operation whose failure is reported with the reason the protocol
/// primitives give.
#[derive(Clone, Copy, Debug, PartialEq, Eq, Structural)]
pub enum Operation {
    /// Deriving a temporary id.
    GetTempId,
    /// Deriving a temporary id with a modifier.
    GetCustomTempId,
    /// Deriving the next id.
    GetNextId,
    /// Deriving a security number.
    DeriveSecurityNumber,
    /// Listing the timestamps since a given one.
    GetAllTimestampsSince,
    /// Reading a handle.
    ParseHandle,
    /// Making an init request.
    GenInitRequest,
    /// Accepting an init request.
    AcceptInitRequest,
    /// Sealing a message.
    SendMsg,
    /// Sealing a file.
    EncryptFile,
    /// Opening a file.
    DecryptFile,
}

impl Operation {
    /// What is written before the reason of a failure.
    pub open spec fn context_text(self) -> Seq<char> {
        match self {
            Operation::GetTempId => "Encountered an error while trying to derive temporary id: "@,
            Operation::GetCustomTempId => "Encountered an error while trying to derive temporary id: "@,
            Operation::GetNextId => "Encountered an error while trying to derive next id: "@,
            Operation::DeriveSecurityNumber => "Could not derive security number: "@,
            Operation::GetAllTimestampsSince => "Could not calculate timestamps: "@,
            Operation::ParseHandle => "Standard Library returned error: "@,
            Operation::GenInitRequest => "Could not generate init request: "@,
            Operation::AcceptInitRequest => "Could not create init accept message: "@,
            Operation::SendMsg => ""@,
            Operation::EncryptFile => ""@,
            Operation::DecryptFile => ""@,
        }
    }

    /// What is written before the reason of a failure.
    pub fn context(self) -> (r: &'static str)
        ensures
            r@ == self.context_text(),
    {
        match self {
            Operation::GetTempId => "Encountered an error while trying to derive temporary id: ",
            Operation::GetCustomTempId => "Encountered an error while trying to derive temporary id: ",
            Operation::GetNextId => "Encountered an error while trying to derive next id: ",
            Operation::DeriveSecurityNumber => "Could not derive security number: ",
            Operation::GetAllTimestampsSince => "Could not calculate timestamps: ",
            Operation::ParseHandle => "Standard Library returned error: ",
            Operation::GenInitRequest => "Could not generate init request: ",
            Operation::AcceptInitRequest => "Could not create init accept message: ",
            Operation::SendMsg => "",
            Operation::EncryptFile => "",
            Operation::DecryptFile => "",
        }
    }
}

/// A protocol message that arrived from the network. Why one was rejected
/// is never reported: a wrong key, a wrong signature and a changed
/// ciphertext all give the same failure.
#[derive(Clone, Copy, Debug, PartialEq, Eq, Structural)]
pub enum Message {
    /// An init request.
    InitRequest,
    /// The response to an init request.
    InitResponse,
    /// A message of an established session.
    Msg,
}

impl Message {
    /// The one text that reports the rejection of such a message.
    pub open spec fn rejection_text(self) -> Seq<char> {
        match self {
            Message::InitRequest => "Could not parse init request"@,
            Message::InitResponse => "init response could not be parsed"@,
            Message::Msg => "message could not be parsed"@,
        }
    }

    /// The one text that reports the rejection of such a message.
    pub fn rejection(self) -> (r: &'static str)
        ensures
            r@ == self.rejection_text(),
    {
        match self {
            Message::InitRequest => "Could not parse init request",
            Message::InitResponse => "init response could not be parsed",
            Message::Msg => "message could not be parsed",
        }
    }
}

/// Why an operation gave no result.
#[derive(Debug, PartialEq, Eq)]
pub enum Failure {
    /// The host's value for an argument could not be read.
    Unreadable(Argument),
    /// The host's byte array for a file or its ciphertext could not be read.
    UnreadableFile(Argument),
    /// An argument that holds key material is no hexadecimal text.
    InvalidKey(Argument),
    /// The message type does not fit in a byte.
    InvalidMessageType(i16),
    /// The clock gave no timestamp.
    NoTimestamp,
    /// The protocol primitives refused, for the reason given.
    Failed(Operation, String),
    /// A protocol message was rejected.
    Rejected(Message),
    /// A reply could not be written down for the host.
    NotSerialized,
    /// The host took no text for a reply.
    NoHostString,
}

/// The kinds of failure that the protocol knows. Every failure is of one of
/// them.
#[derive(Clone, Copy, Debug, PartialEq, Eq, Structural)]
pub enum ErrorKind {
    /// Key material is malformed.
    KeyFormat,
    /// The encoding of a handle is malformed.
    HandleFormat,
    /// A step of the handshake failed.
    Handshake,
    /// A sealed file could not be opened.
    Decryption,
    /// A protocol message was rejected: it could not be opened or its
    /// signature did not hold, and which of the two is not told.
    Rejection,
    /// The generic kind: whatever else was malformed, missing or could not
    /// be done.
    Input,
}

/// What every status text of a failure begins with.
pub open spec fn status_prefix() -> Seq<char> {
    "@dawn-stdlib-android: "@
}

/// The status text of success.
pub open spec fn ok_text() -> Seq<char> {
    "ok"@
}

impl Failure {
    /// The message of this failure, without the prefix.
    pub open spec fn message_text(self) -> Seq<char> {
        match self {
            Failure::Unreadable(argument) => "Could not get java variable: "@
                + argument.name_text(),
            Failure::UnreadableFile(argument) => "Could not read "@ + argument.name_text(),
            Failure::InvalidKey(argument) => argument.name_text() + " invalid"@,
            Failure::InvalidMessageType(given) => "Invalid message type provided: "@
                + integer_digits(given as int),
            Failure::NoTimestamp => "Could not get timestamp"@,
            Failure::Failed(operation, reason) => operation.context_text() + reason@,
            Failure::Rejected(message) => message.rejection_text(),
            Failure::NotSerialized => "Could not serialize json"@,
            Failure::NoHostString => "Could not create new java string"@,
        }
    }

    /// The kind of this failure.
    pub open spec fn kind_of(self) -> ErrorKind {
        match self {
            Failure::InvalidKey(_) => ErrorKind::KeyFormat,
            Failure::Rejected(_) => ErrorKind::Rejection,
            Failure::Failed(operation, _) => match operation {
                Operation::GetTempId | Operation::GetCustomTempId | Operation::GetNextId =>
                    ErrorKind::KeyFormat,
                Operation::ParseHandle => ErrorKind::HandleFormat,
                Operation::GenInitRequest | Operation::AcceptInitRequest => ErrorKind::Handshake,
                Operation::DecryptFile => ErrorKind::Decryption,
                _ => ErrorKind::Input,
            },
            _ => ErrorKind::Input,
        }
    }

    /// The kind of this failure.
    pub fn kind(&self) -> (r: ErrorKind)
        ensures
            r == self.kind_of(),
    {
        match self {
            Failure::InvalidKey(_) => ErrorKind::KeyFormat,
            Failure::Rejected(_) => ErrorKind::Rejection,
            Failure::Failed(operation, _) => match operation {
                Operation::GetTempId | Operation::GetCustomTempId | Operation::GetNextId =>
                    ErrorKind::KeyFormat,
                Operation::ParseHandle => ErrorKind::HandleFormat,
                Operation::GenInitRequest | Operation::AcceptInitRequest => ErrorKind::Handshake,
                Operation::DecryptFile => ErrorKind::Decryption,
                _ => ErrorKind::Input,
            },
            _ => ErrorKind::Input,
        }
    }

    /// The status text the host is given for this failure.
    pub open spec fn status_text(self) -> Seq<char> {
        status_prefix() + self.message_text()
    }

    /// The status text the host is given for this failure.
    pub fn status(&self) -> (r: String)
        ensures
            r@ == self.status_text(),
    {
        let mut text = String::from_str("@dawn-stdlib-android: ");
        match self {
            Failure::Unreadable(argument) => {
                text.append("Could not get java variable: ");
                text.append(argument.name());
                assert(text@ =~= self.status_text());
            },
            Failure::UnreadableFile(argument) => {
                text.append("Could not read ");
                text.append(argument.name());
                assert(text@ =~= self.status_text());
            },
            Failure::InvalidKey(argument) => {
                text.append(argument.name());
                text.append(" invalid");
                assert(text@ =~= self.status_text());
            },
            Failure::InvalidMessageType(given) => {
                text.append("Invalid message type provided: ");
                let digits = integer_text(*given);
                text.append(digits.as_str());
                assert(text@ =~= self.status_text());
            },
            Failure::NoTimestamp => {
                text.append("Could not get timestamp");
            },
            Failure::Failed(operation, reason) => {
                text.append(operation.context());
                text.append(reason.as_str());
                assert(text@ =~= self.status_text());
            },
            Failure::Rejected(message) => {
                text.append(message.rejection());
            },
            Failure::NotSerialized => {
                text.append("Could not serialize json");
            },
            Failure::NoHostString => {
                text.append("Could not create new java string");
            },
        }
        text
    }
}

/// What the primitives returned, or their failure with the reason they
/// gave for it.
pub open spec fn reported<T>(outcome: Result<T, String>, operation: Operation) -> Result<
    T,
    Failure,
> {
    match outcome {
        Ok(value) => Ok(value),
        Err(reason) => Err(Failure::Failed(operation, reason)),
    }
}

/// The failure that reports the rejection of a protocol message. The reason
/// that the primitives gave is no part of it.
pub open spec fn rejection(message: Message, reason: String) -> Failure {
    Failure::Rejected(message)
}

/// The status text of an outcome: `ok`, or that of the failure.
pub open spec fn outcome_status_text<T>(outcome: Result<T, Failure>) -> Seq<char> {
    match outcome {
        Ok(_) => ok_text(),
        Err(failure) => failure.status_text(),
    }
}

/// The status text of an outcome: `ok`, or that of the failure.
pub fn status_of<T>(outcome: &Result<T, Failure>) -> (r: String)
    ensures
        r@ == outcome_status_text(*outcome),
{
    match outcome {
        Ok(_) => String::from_str("ok"),
        Err(failure) => failure.status(),
    }
}

/// A rejected protocol message is reported in the same way whatever the
/// reason of the rejection was: the failure and its status text hold
/// nothing of it.
pub proof fn lemma_rejection_hides_reason(message: Message, first: String, second: String)
    ensures
        rejection(message, first) == rejection(message, second),
        rejection(message, first).status_text() == status_prefix() + message.rejection_text(),
        rejection(message, first).kind_of() == ErrorKind::Rejection,
{
}

/// No failure is reported with the status of success.
pub proof fn lemma_failure_is_not_ok(failure: Failure)
    ensures
        failure.status_text() != ok_text(),
{
    reveal_strlit("@dawn-stdlib-android: ");
    reveal_strlit("ok");
    assert(failure.status_text()[0] == '@');
    assert(ok_text()[0] == 'o');
}

} // verus!
