//! Messages for credential-vault failures.

use vstd::prelude::*;
use crate::text::{decimal, push_decimal};

verus! {

/// A failure of the operating system's credential vault, holding what the
/// message reads of it.
pub enum KeyringError {
    /// The platform's storage API failed; its description.
    PlatformFailure(String),
    /// The storage could not be accessed; the platform's description.
    NoStorageAccess(String),
    /// No credential matches.
    NoEntry,
    /// The stored secret is not UTF-8; its bytes.
    BadEncoding(Vec<u8>),
    /// The stored secret has an unexpected format; its bytes and the description.
    BadDataFormat(Vec<u8>, String),
    /// The store itself is malformed; the description.
    BadStoreFormat(String),
    /// An attribute is too long; its name and the platform's limit.
    TooLong(String, u32),
    /// An invalid parameter; its name and the problem.
    Invalid(String, String),
    /// Several credentials match; how many.
    Ambiguous(usize),
    /// No default store is configured.
    NoDefaultStore,
    /// The store does not support the operation; why.
    NotSupportedByStore(String),
    /// A failure this library does not know.
    Unrecognized,
}

/// The message shown for a vault failure.
pub open spec fn keyring_error_message(error: KeyringError) -> Seq<char> {
    match error {
        KeyringError::PlatformFailure(inner) => "System API error (e.g., Windows CryptoAPI or macOS Security framework failed): "@
            + inner@,
        KeyringError::NoStorageAccess(inner) => "Access denied. The OS denied Vulcan permission to touch the storage layer: "@
            + inner@,
        KeyringError::NoEntry => "No credential matching that username was found in the vault."@,
        KeyringError::BadEncoding(bytes) => "The stored token contains invalid text encoding. Raw byte count: "@
            + decimal(bytes@.len()),
        KeyringError::BadDataFormat(bytes, inner) => "The item format in the storage vault is corrupted or modified: "@
            + inner@ + " (Bytes: "@ + decimal(bytes@.len()) + ")"@,
        KeyringError::BadStoreFormat(message) => "The underlying OS credential store is in an invalid state: "@
            + message@,
        KeyringError::TooLong(field, max_len) => "The "@ + field@
            + " parameter is too long for this OS vault. Max capacity is "@ + decimal(max_len as nat)
            + " bytes."@,
        KeyringError::Invalid(field, message) => "Invalid input provided for '"@ + field@ + "': "@
            + message@,
        KeyringError::Ambiguous(count) => "Multiple matching credentials found! Found "@ + decimal(
            count as nat,
        ) + " matching records."@,
        KeyringError::NoDefaultStore => "No default secure storage system could be located. (Common on Linux headless servers without D-Bus/Gnome Keyring active)."@,
        KeyringError::NotSupportedByStore(feature) => "The native OS vault does not support this operation: "@
            + feature@,
        KeyringError::Unrecognized => "An unknown or newly introduced keyring error occurred."@,
    }
}

/// Explains a vault failure in words.
pub fn handle_keyring_error(error: &KeyringError) -> (message: String)
    ensures
        message@ == keyring_error_message(*error),
{
    match error {
        KeyringError::PlatformFailure(inner) => {
            let mut m = String::from_str(
                "System API error (e.g., Windows CryptoAPI or macOS Security framework failed): ",
            );
            m.append(inner.as_str());
            m
        },
        KeyringError::NoStorageAccess(inner) => {
            let mut m = String::from_str(
                "Access denied. The OS denied Vulcan permission to touch the storage layer: ",
            );
            m.append(inner.as_str());
            m
        },
        KeyringError::NoEntry => String::from_str(
            "No credential matching that username was found in the vault.",
        ),
        KeyringError::BadEncoding(bytes) => {
            let mut m = String::from_str(
                "The stored token contains invalid text encoding. Raw byte count: ",
            );
            push_decimal(&mut m, bytes.len() as u64);
            m
        },
        KeyringError::BadDataFormat(bytes, inner) => {
            let mut m = String::from_str(
                "The item format in the storage vault is corrupted or modified: ",
            );
            m.append(inner.as_str());
            m.append(" (Bytes: ");
            push_decimal(&mut m, bytes.len() as u64);
            m.append(")");
            m
        },
        KeyringError::BadStoreFormat(message) => {
            let mut m = String::from_str(
                "The underlying OS credential store is in an invalid state: ",
            );
            m.append(message.as_str());
            m
        },
        KeyringError::TooLong(field, max_len) => {
            let mut m = String::from_str("The ");
            m.append(field.as_str());
            m.append(" parameter is too long for this OS vault. Max capacity is ");
            push_decimal(&mut m, *max_len as u64);
            m.append(" bytes.");
            m
        },
        KeyringError::Invalid(field, message) => {
            let mut m = String::from_str("Invalid input provided for '");
            m.append(field.as_str());
            m.append("': ");
            m.append(message.as_str());
            m
        },
        KeyringError::Ambiguous(count) => {
            let mut m = String::from_str("Multiple matching credentials found! Found ");
            push_decimal(&mut m, *count as u64);
            m.append(" matching records.");
            m
        },
        KeyringError::NoDefaultStore => String::from_str(
            "No default secure storage system could be located. (Common on Linux headless servers without D-Bus/Gnome Keyring active).",
        ),
        KeyringError::NotSupportedByStore(feature) => {
            let mut m = String::from_str("The native OS vault does not support this operation: ");
            m.append(feature.as_str());
            m
        },
        KeyringError::Unrecognized => String::from_str(
            "An unknown or newly introduced keyring error occurred.",
        ),
    }
}

} // verus!
