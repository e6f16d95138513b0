use vulcan::storage::{handle_keyring_error, KeyringError};

#[test]
fn keyring_messages() {
    assert_eq!(
        handle_keyring_error(&KeyringError::PlatformFailure(String::from("dbus down"))),
        "System API error (e.g., Windows CryptoAPI or macOS Security framework failed): dbus down"
    );
    assert_eq!(
        handle_keyring_error(&KeyringError::NoStorageAccess(String::from("locked"))),
        "Access denied. The OS denied Vulcan permission to touch the storage layer: locked"
    );
    assert_eq!(handle_keyring_error(&KeyringError::NoEntry), "No credential matching that username was found in the vault.");
    assert_eq!(
        handle_keyring_error(&KeyringError::BadEncoding(vec![0xff; 12])),
        "The stored token contains invalid text encoding. Raw byte count: 12"
    );
    assert_eq!(
        handle_keyring_error(&KeyringError::BadDataFormat(vec![1, 2, 3], String::from("bad blob"))),
        "The item format in the storage vault is corrupted or modified: bad blob (Bytes: 3)"
    );
    assert_eq!(
        handle_keyring_error(&KeyringError::BadStoreFormat(String::from("corrupt"))),
        "The underlying OS credential store is in an invalid state: corrupt"
    );
    assert_eq!(
        handle_keyring_error(&KeyringError::TooLong(String::from("user"), 1024)),
        "The user parameter is too long for this OS vault. Max capacity is 1024 bytes."
    );
    assert_eq!(
        handle_keyring_error(&KeyringError::Invalid(String::from("service"), String::from("empty"))),
        "Invalid input provided for 'service': empty"
    );
    assert_eq!(
        handle_keyring_error(&KeyringError::Ambiguous(2)),
        "Multiple matching credentials found! Found 2 matching records."
    );
    assert_eq!(
        handle_keyring_error(&KeyringError::NoDefaultStore),
        "No default secure storage system could be located. (Common on Linux headless servers without D-Bus/Gnome Keyring active)."
    );
    assert_eq!(
        handle_keyring_error(&KeyringError::NotSupportedByStore(String::from("delete"))),
        "The native OS vault does not support this operation: delete"
    );
    assert_eq!(handle_keyring_error(&KeyringError::Unrecognized), "An unknown or newly introduced keyring error occurred.");
}

#[test]
fn keyring_message_numbers_are_decimal() {
    assert_eq!(
        handle_keyring_error(&KeyringError::TooLong(String::from("x"), 0)),
        "The x parameter is too long for this OS vault. Max capacity is 0 bytes."
    );
    assert_eq!(
        handle_keyring_error(&KeyringError::TooLong(String::from("x"), u32::MAX)),
        "The x parameter is too long for this OS vault. Max capacity is 4294967295 bytes."
    );
    assert_eq!(
        handle_keyring_error(&KeyringError::Ambiguous(10)),
        "Multiple matching credentials found! Found 10 matching records."
    );
}
