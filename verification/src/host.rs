//! Reading the arguments of the host.
//!
//! The host's values arrive as `Option`s: `None` stands for a value that
//! could not be read from the host at all. Key material arrives as
//! hexadecimal text. An empty text or byte array stands for a value that is
//! absent.

use crate::failure::{Argument, Failure};
use crate::hextext::{decode, hex_decoding, hex_encoding, is_hex_text, lemma_hex_round_trip};
use vstd::prelude::*;

verus! {

/// The first of two failures: the earlier one where there is one.
pub open spec fn first_failure(earlier: Option<Failure>, later: Option<Failure>) -> Option<
    Failure,
> {
    if earlier is Some {
        earlier
    } else {
        later
    }
}

/// What is wrong with a text argument: only that it could not be read.
pub open spec fn text_failure(value: Option<String>, argument: Argument) -> Option<Failure> {
    if value is Some {
        None
    } else {
        Some(Failure::Unreadable(argument))
    }
}

/// What is wrong with a byte array argument: only that it could not be read.
pub open spec fn bytes_failure(value: Option<Vec<u8>>, argument: Argument) -> Option<Failure> {
    if value is Some {
        None
    } else {
        Some(Failure::Unreadable(argument))
    }
}

/// What is wrong with the byte array of a file or of its ciphertext: only
/// that it could not be read.
pub open spec fn file_failure(value: Option<Vec<u8>>, argument: Argument) -> Option<Failure> {
    if value is Some {
        None
    } else {
        Some(Failure::UnreadableFile(argument))
    }
}

/// What is wrong with an argument that holds key material: it could not be
/// read, or it is no hexadecimal text.
pub open spec fn key_failure(value: Option<String>, argument: Argument) -> Option<Failure> {
    match value {
        None => Some(Failure::Unreadable(argument)),
        Some(text) => if is_hex_text(text@) {
            None
        } else {
            Some(Failure::InvalidKey(argument))
        },
    }
}

/// What is wrong with a message type: it does not fit in a byte.
pub open spec fn message_type_failure(given: i16) -> Option<Failure> {
    if 0 <= given <= 255 {
        None
    } else {
        Some(Failure::InvalidMessageType(given))
    }
}

/// A text argument as it was given.
pub fn text_argument(value: Option<String>, argument: Argument) -> (r: Result<String, Failure>)
    ensures
        match r {
            Ok(text) => value == Some(text),
            Err(failure) => text_failure(value, argument) == Some(failure),
        },
{
    match value {
        Some(text) => Ok(text),
        None => Err(Failure::Unreadable(argument)),
    }
}

/// A text argument for which the empty text stands for an absent value.
pub fn optional_text_argument(value: Option<String>, argument: Argument) -> (r: Result<
    Option<String>,
    Failure,
>)
    ensures
        match r {
            Ok(None) => value is Some && value->0@.len() == 0,
            Ok(Some(text)) => value == Some(text) && text@.len() > 0,
            Err(failure) => text_failure(value, argument) == Some(failure),
        },
{
    match value {
        Some(text) => if text.as_str().is_empty() {
            Ok(None)
        } else {
            Ok(Some(text))
        },
        None => Err(Failure::Unreadable(argument)),
    }
}

/// A byte array argument as it was given.
pub fn bytes_argument(value: Option<Vec<u8>>, argument: Argument) -> (r: Result<Vec<u8>, Failure>)
    ensures
        match r {
            Ok(bytes) => value == Some(bytes),
            Err(failure) => bytes_failure(value, argument) == Some(failure),
        },
{
    match value {
        Some(bytes) => Ok(bytes),
        None => Err(Failure::Unreadable(argument)),
    }
}

/// A byte array argument for which the empty array stands for an absent
/// value.
pub fn optional_bytes_argument(value: Option<Vec<u8>>, argument: Argument) -> (r: Result<
    Option<Vec<u8>>,
    Failure,
>)
    ensures
        match r {
            Ok(None) => value is Some && value->0@.len() == 0,
            Ok(Some(bytes)) => value == Some(bytes) && bytes@.len() > 0,
            Err(failure) => bytes_failure(value, argument) == Some(failure),
        },
{
    match value {
        Some(bytes) => if bytes.len() == 0 {
            Ok(None)
        } else {
            Ok(Some(bytes))
        },
        None => Err(Failure::Unreadable(argument)),
    }
}

/// The byte array of a file or of its ciphertext as it was given.
pub fn file_argument(value: Option<Vec<u8>>, argument: Argument) -> (r: Result<Vec<u8>, Failure>)
    ensures
        match r {
            Ok(bytes) => value == Some(bytes),
            Err(failure) => file_failure(value, argument) == Some(failure),
        },
{
    match value {
        Some(bytes) => Ok(bytes),
        None => Err(Failure::UnreadableFile(argument)),
    }
}

/// The key material that an argument holds as hexadecimal text.
pub fn key_argument(value: Option<String>, argument: Argument) -> (r: Result<Vec<u8>, Failure>)
    ensures
        match r {
            Ok(key) => key_failure(value, argument) is None && key@ == hex_decoding(value->0@),
            Err(failure) => key_failure(value, argument) == Some(failure),
        },
{
    match value {
        Some(text) => match decode(text.as_str()) {
            Ok(key) => Ok(key),
            Err(_) => Err(Failure::InvalidKey(argument)),
        },
        None => Err(Failure::Unreadable(argument)),
    }
}

/// The key material that an argument holds as hexadecimal text, where the
/// empty text stands for an absent key.
pub fn optional_key_argument(value: Option<String>, argument: Argument) -> (r: Result<
    Option<Vec<u8>>,
    Failure,
>)
    ensures
        match r {
            Ok(None) => value is Some && value->0@.len() == 0,
            Ok(Some(key)) => {
                &&& key_failure(value, argument) is None
                &&& value->0@.len() > 0
                &&& key@ == hex_decoding(value->0@)
            },
            Err(failure) => key_failure(value, argument) == Some(failure),
        },
{
    match value {
        Some(text) => if text.as_str().is_empty() {
            Ok(None)
        } else {
            match decode(text.as_str()) {
                Ok(key) => Ok(Some(key)),
                Err(_) => Err(Failure::InvalidKey(argument)),
            }
        },
        None => Err(Failure::Unreadable(argument)),
    }
}

/// The message type as a byte.
pub fn message_type(given: i16) -> (r: Result<u8, Failure>)
    ensures
        match r {
            Ok(msg_type) => message_type_failure(given) is None && msg_type == given,
            Err(failure) => message_type_failure(given) == Some(failure),
        },
{
    if 0 <= given && given <= 255 {
        Ok(given as u8)
    } else {
        Err(Failure::InvalidMessageType(given))
    }
}

/// Key material that the host was told in hexadecimal is accepted when the
/// host gives it back, under whichever argument, and is read as the same
/// bytes.
pub proof fn lemma_reported_key_reads_back(key: Seq<u8>, text: String, argument: Argument)
    requires
        text@ == hex_encoding(key),
    ensures
        key_failure(Some(text), argument) is None,
        hex_decoding(text@) == key,
{
    lemma_hex_round_trip(key);
}

} // verus!
