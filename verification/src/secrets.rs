//! Storage of SSH secrets in the platform credential store.
//!
//! The account names under which secrets are filed are built and verified
//! here; the store itself is the platform keyring, reached through trusted
//! declarations.  A blank secret or key path is never written: those calls
//! succeed without touching the store.

use vstd::prelude::*;
use vstd::string::StringExecFns;
use crate::text::{dec_seq, is_blank, trim_str, trimmed_of, u64_to_dec};

verus! {

/// The service name under which every secret is filed.
fn service_name() -> (r: &'static str)
    ensures
        r@ == "com.github.weedmanu.serial-ssh-term"@,
{
    "com.github.weedmanu.serial-ssh-term"
}

/// The account name for an SSH password:
/// "ssh-password:USER@HOST:PORT".
pub open spec fn password_account_seq(host: Seq<char>, port: u16, username: Seq<char>) -> Seq<
    char,
> {
    "ssh-password:"@ + username + "@"@ + host + ":"@ + dec_seq(port as nat)
}

/// The account name for an SSH key passphrase:
/// "ssh-passphrase:USER@HOST:PORT:KEYPATH", with the key path trimmed.
pub open spec fn passphrase_account_seq(
    host: Seq<char>,
    port: u16,
    username: Seq<char>,
    key_path: Seq<char>,
) -> Seq<char> {
    "ssh-passphrase:"@ + username + "@"@ + host + ":"@ + dec_seq(port as nat) + ":"@ + trimmed_of(
        key_path,
    )
}

/// Builds the account name under which the password for this host, port
/// and user is filed.
pub fn password_account(host: &str, port: u16, username: &str) -> (r: String)
    ensures
        r@ == password_account_seq(host@, port, username@),
{
    String::from_str("ssh-password:").concat(username).concat("@").concat(host).concat(
        ":",
    ).concat(u64_to_dec(port as u64).as_str())
}

/// Builds the account name under which the passphrase for this host,
/// port, user and key file is filed.
pub fn passphrase_account(host: &str, port: u16, username: &str, key_path: &str) -> (r: String)
    ensures
        r@ == passphrase_account_seq(host@, port, username@, key_path@),
{
    String::from_str("ssh-passphrase:").concat(username).concat("@").concat(host).concat(
        ":",
    ).concat(u64_to_dec(port as u64).as_str()).concat(":").concat(trim_str(key_path))
}

/// Declares keyring::Entry, the handle to one credential-store record.
#[verifier::external_type_specification]
#[verifier::external_body]
pub struct ExKeyringEntry(keyring::Entry);

/// Declares keyring::Error, the store's failure type; its variants are
/// told apart only through `is_no_entry`.
#[verifier::external_type_specification]
#[verifier::external_body]
pub struct ExKeyringError(keyring::Error);

/// Relies on keyring::Entry::new: builds the credential-store entry for a
/// service and account; fails when the platform store refuses the names.
pub assume_specification[ keyring::Entry::new ](service: &str, user: &str) -> (r: Result<
    keyring::Entry,
    keyring::Error,
>);

/// Relies on keyring::Entry::set_password: writes the password for the
/// entry into the platform store.
pub assume_specification[ keyring::Entry::set_password ](
    entry: &keyring::Entry,
    password: &str,
) -> (r: Result<(), keyring::Error>);

/// Relies on keyring::Entry::get_password: reads the password stored for
/// the entry; what comes back depends on the platform store.
pub assume_specification[ keyring::Entry::get_password ](entry: &keyring::Entry) -> (r: Result<
    String,
    keyring::Error,
>);

/// Relies on keyring::Entry::delete_credential: removes the credential,
/// failing with Error::NoEntry when none was stored.
pub assume_specification[ keyring::Entry::delete_credential ](entry: &keyring::Entry) -> (r:
    Result<(), keyring::Error>);

/// Relies on matching keyring::Error::NoEntry: tells a missing credential
/// apart from any other keyring failure.
#[verifier::external_body]
fn is_no_entry(e: &keyring::Error) -> bool {
    matches!(e, keyring::Error::NoEntry)
}

/// Relies on keyring::Error's Display implementation for the failure text.
#[verifier::external_body]
fn keyring_error_text(e: &keyring::Error) -> String {
    e.to_string()
}

fn keyring_failure(prefix: &str, e: &keyring::Error) -> String {
    String::from_str(prefix).concat(keyring_error_text(e).as_str())
}

fn save_secret(account: &str, value: &str) -> (r: Result<(), String>)
    ensures
        trimmed_of(value@).len() == 0 ==> r is Ok,
{
    if is_blank(value) {
        return Ok(());
    }
    match keyring::Entry::new(service_name(), account) {
        Ok(entry) => match entry.set_password(value) {
            Ok(u) => Ok(u),
            Err(e) => Err(keyring_failure("cannot write the secret to the keyring: ", &e)),
        },
        Err(e) => Err(keyring_failure("cannot initialize the keyring: ", &e)),
    }
}

fn delete_secret(account: &str) -> Result<(), String> {
    match keyring::Entry::new(service_name(), account) {
        Ok(entry) => match entry.delete_credential() {
            Ok(u) => Ok(u),
            Err(e) => if is_no_entry(&e) {
                Ok(())
            } else {
                Err(keyring_failure("cannot delete the secret from the keyring: ", &e))
            },
        },
        Err(e) => Err(keyring_failure("cannot initialize the keyring: ", &e)),
    }
}

fn load_secret(account: &str) -> Option<String> {
    match keyring::Entry::new(service_name(), account) {
        Ok(entry) => match entry.get_password() {
            Ok(value) => Some(value),
            Err(_) => None,
        },
        Err(_) => None,
    }
}

/// Stores the SSH password for this host, port and user.  A blank
/// password is not written and the call succeeds.
pub fn save_ssh_password(host: &str, port: u16, username: &str, password: &str) -> (r: Result<
    (),
    String,
>)
    ensures
        trimmed_of(password@).len() == 0 ==> r is Ok,
{
    save_secret(password_account(host, port, username).as_str(), password)
}

/// Loads the SSH password stored for this host, port and user, if the
/// platform store holds one.
pub fn load_ssh_password(host: &str, port: u16, username: &str) -> Option<String> {
    load_secret(password_account(host, port, username).as_str())
}

/// Deletes the SSH password stored for this host, port and user; an
/// absent entry is not an error.
pub fn delete_ssh_password(host: &str, port: u16, username: &str) -> Result<(), String> {
    delete_secret(password_account(host, port, username).as_str())
}

/// Stores the passphrase for this key file.  A blank key path or blank
/// passphrase is not written and the call succeeds.
pub fn save_ssh_key_passphrase(
    host: &str,
    port: u16,
    username: &str,
    key_path: &str,
    passphrase: &str,
) -> (r: Result<(), String>)
    ensures
        trimmed_of(key_path@).len() == 0 ==> r is Ok,
        trimmed_of(passphrase@).len() == 0 ==> r is Ok,
{
    if is_blank(key_path) {
        return Ok(());
    }
    save_secret(passphrase_account(host, port, username, key_path).as_str(), passphrase)
}

/// Loads the passphrase stored for this key file; a blank key path has no
/// entry by construction, so the answer is immediately `None`.
pub fn load_ssh_key_passphrase(host: &str, port: u16, username: &str, key_path: &str) -> (r:
    Option<String>)
    ensures
        trimmed_of(key_path@).len() == 0 ==> r is None,
{
    if is_blank(key_path) {
        return None;
    }
    load_secret(passphrase_account(host, port, username, key_path).as_str())
}

/// Deletes the passphrase stored for this key file; a blank key path has
/// no entry, so the call succeeds without touching the store.
pub fn delete_ssh_key_passphrase(host: &str, port: u16, username: &str, key_path: &str) -> (r:
    Result<(), String>)
    ensures
        trimmed_of(key_path@).len() == 0 ==> r is Ok,
{
    if is_blank(key_path) {
        return Ok(());
    }
    delete_secret(passphrase_account(host, port, username, key_path).as_str())
}

} // verus!
