//! The host-facing layer of the Dawn messaging protocol.
//!
//! The host, an app on Android, knows keys as hexadecimal text and
//! ciphertexts as byte arrays or base64 text, and reads every reply as a
//! status with named fields. The protocol itself works on bytes. This crate
//! stands between the two, and each operation of the protocol has two
//! functions here:
//!
//! - `..._arguments` reads what the host gave. It decides whether every
//!   argument is acceptable and, if one is not, which failure is reported:
//!   the first in the order of the arguments.
//! - `..._reply` takes what the protocol returned, or the reason why it
//!   refused, and shapes the reply for the host.
//!
//! Between the two the caller runs the protocol. Nothing here reads from
//! the host or calls the protocol by itself.
//!
//! Key material is never altered on its way: what the host is told as text
//! it can give back as text, and it is read as the same bytes. A protocol
//! message that is not accepted is rejected without a reason, so that
//! nobody learns from the reply whether the key, the signature or the
//! ciphertext was wrong.

pub mod base64text;
pub mod canonical;
pub mod crypto;
pub mod decimal;
pub mod failure;
pub mod handles;
pub mod hextext;
pub mod host;
pub mod init;
pub mod messaging;
