//! The desktop client's refresh token in the platform credential store.
use vstd::prelude::*;
use vstd::string::*;
use keyring::Entry;

verus! {

#[verifier::external_type_specification]
#[verifier::external_body]
pub struct ExKeyringError(keyring::Error);

/// Where a credential lives in the store: a service and an account.
#[derive(Debug, Clone, PartialEq, Eq)]
pub struct KeyringKey {
    pub service: String,
    pub user: String,
}

/// A credential as it was written to or read from the store.
#[derive(Debug, Clone, PartialEq, Eq)]
pub struct CredentialRecord {
    pub service: String,
    pub user: String,
    pub password: String,
}

/// `Entry::new(key.service, key.user)` then `Entry::set_password(password)`:
/// stores `password` in the platform store under that key and, on success,
/// returns the key and password it handed to the store. Whether the store
/// accepts is not stated.
#[verifier::external_body]
fn store_set_password(key: &KeyringKey, password: &str) -> (written: Result<CredentialRecord, keyring::Error>)
    ensures
        written matches Ok(r) ==> r.service@ == key.service@ && r.user@ == key.user@ && r.password@
            == password@,
{
    Entry::new(&key.service, &key.user)?.set_password(password)?;
    Ok(CredentialRecord { service: key.service.clone(), user: key.user.clone(), password: password.to_string() })
}

/// `Entry::new(key.service, key.user)` then `Entry::get_password()`: reads
/// the password stored under that key and returns it with the key it handed
/// to the store. Whether the store has one is not stated.
#[verifier::external_body]
fn store_get_password(key: &KeyringKey) -> (read: Result<CredentialRecord, keyring::Error>)
    ensures
        read matches Ok(r) ==> r.service@ == key.service@ && r.user@ == key.user@,
{
    let password = Entry::new(&key.service, &key.user)?.get_password()?;
    Ok(CredentialRecord { service: key.service.clone(), user: key.user.clone(), password })
}

/// `Entry::new(key.service, key.user)` then `Entry::delete_credential()`:
/// removes the password stored under that key and returns the key it handed
/// to the store. Whether the store had one is not stated.
#[verifier::external_body]
fn store_delete_credential(key: &KeyringKey) -> (deleted: Result<KeyringKey, keyring::Error>)
    ensures
        deleted matches Ok(k) ==> k.service@ == key.service@ && k.user@ == key.user@,
{
    Entry::new(&key.service, &key.user)?.delete_credential()?;
    Ok(KeyringKey { service: key.service.clone(), user: key.user.clone() })
}

impl KeyringKey {
    /// The key of `service` and `user`.
    pub fn new(service: &str, user: &str) -> (key: KeyringKey)
        ensures
            key.service@ == service@,
            key.user@ == user@,
    {
        KeyringKey { service: String::from_str(service), user: String::from_str(user) }
    }

    /// Stores `password` under this key; on success, returns what was
    /// written and where. The store may refuse.
    pub fn set_password(&self, password: &str) -> (written: Result<CredentialRecord, keyring::Error>)
        ensures
            written matches Ok(r) ==> r.service@ == self.service@ && r.user@ == self.user@
                && r.password@ == password@,
    {
        store_set_password(self, password)
    }

    /// Reads the password stored under this key; on success, returns it with
    /// where it was read. The store may refuse.
    pub fn get_password(&self) -> (read: Result<CredentialRecord, keyring::Error>)
        ensures
            read matches Ok(r) ==> r.service@ == self.service@ && r.user@ == self.user@,
    {
        store_get_password(self)
    }

    /// Removes the credential stored under this key; on success, returns the
    /// key. The store may refuse.
    pub fn delete_credential(&self) -> (deleted: Result<KeyringKey, keyring::Error>)
        ensures
            deleted matches Ok(k) ==> k.service@ == self.service@ && k.user@ == self.user@,
    {
        store_delete_credential(self)
    }
}

/// Stores the refresh token under service `p2p_chat`, account
/// `refresh_token`; on success, returns what was written.
pub fn save_refresh_token(token: &str) -> (saved: Result<CredentialRecord, keyring::Error>)
    ensures
        saved matches Ok(r) ==> r.service@ == "p2p_chat"@ && r.user@ == "refresh_token"@
            && r.password@ == token@,
{
    let entry = KeyringKey::new("p2p_chat", "refresh_token");
    entry.set_password(token)
}

/// Reads the refresh token stored under service `p2p-chat` (with a hyphen,
/// unlike the other two operations), account `refresh_token`; on success,
/// returns it with where it was read.
pub fn load_refresh_token() -> (token: Result<CredentialRecord, keyring::Error>)
    ensures
        token matches Ok(r) ==> r.service@ == "p2p-chat"@ && r.user@ == "refresh_token"@,
{
    let entry = KeyringKey::new("p2p-chat", "refresh_token");
    entry.get_password()
}

/// Removes the refresh token stored under service `p2p_chat`, account
/// `refresh_token`; on success, returns that key.
pub fn delete_refresh_token() -> (deleted: Result<KeyringKey, keyring::Error>)
    ensures
        deleted matches Ok(k) ==> k.service@ == "p2p_chat"@ && k.user@ == "refresh_token"@,
{
    let entry = KeyringKey::new("p2p_chat", "refresh_token");
    entry.delete_credential()
}

} // verus!
