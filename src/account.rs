//! Account credentials and the fingerprint that detects their change.
use crate::encoding::{hex_encode, hex_of, json_text, json_text_of, sha256, sha256_of};
use vstd::prelude::*;
use vstd::utf8::encode_utf8;

verus! {

/// Explicit credentials for the remote service.
#[derive(Clone, Debug, PartialEq, Eq)]
pub struct Account {
    pub username: String,
    pub password: String,
}

/// The compact JSON object that records an account: its username, then its
/// password.
pub open spec fn account_json(username: Seq<char>, password: Seq<char>) -> Seq<char> {
    "{\"username\":"@ + json_text_of(username) + ",\"password\":"@ + json_text_of(password)
        + "}"@
}

/// The fingerprint of an account: the hexadecimal SHA-256 digest of the UTF-8
/// bytes of its JSON record.
pub open spec fn fingerprint(username: Seq<char>, password: Seq<char>) -> Seq<char> {
    hex_of(sha256_of(encode_utf8(account_json(username, password))))
}

impl Account {
    pub fn new(username: String, password: String) -> (r: Account)
        ensures
            r.username == username,
            r.password == password,
    {
        Account { username, password }
    }

    /// Both the username and the password are present.
    pub open spec fn is_configured(&self) -> bool {
        self.username@.len() > 0 && self.password@.len() > 0
    }

    pub open spec fn fingerprint(&self) -> Seq<char> {
        fingerprint(self.username@, self.password@)
    }

    pub fn has_credentials(&self) -> (r: bool)
        ensures
            r == self.is_configured(),
    {
        !self.username.as_str().is_empty() && !self.password.as_str().is_empty()
    }

    /// The account's fingerprint, stable for equal credentials.
    pub fn get_hash(&self) -> (r: String)
        ensures
            r@ == self.fingerprint(),
    {
        let mut record = "{\"username\":".to_owned();
        let username = json_text(self.username.as_str());
        record.append(username.as_str());
        record.append(",\"password\":");
        let password = json_text(self.password.as_str());
        record.append(password.as_str());
        record.append("}");
        let digest = sha256(record.as_str().as_bytes());
        hex_encode(digest.as_slice())
    }
}

} // verus!
