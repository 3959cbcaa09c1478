//! Session credentials and the login request built from them on every attempt.

use vstd::prelude::*;
use vstd::string::*;
use crate::signer::{decimal_of, decimal_string, sign, signature_of};

verus! {

/// The three values that authenticate a session; read once, never changed.
pub struct Credentials {
    pub api_key: String,
    pub secret: String,
    pub passphrase: String,
}

/// A signed login request.
pub struct LoginRequest {
    pub key: String,
    pub signature: String,
    pub timestamp: i64,
    pub passphrase: String,
}

/// A string written as a JSON string literal, quotes and escapes included.
pub uninterp spec fn json_string_of(s: Seq<char>) -> Seq<char>;

/// The login frame text for the given field values.
pub open spec fn login_json(
    key: Seq<char>,
    signature: Seq<char>,
    timestamp: i64,
    passphrase: Seq<char>,
) -> Seq<char> {
    "{\"type\":\"login\",\"key\":"@ + json_string_of(key) + ",\"signature\":"@ + json_string_of(
        signature,
    ) + ",\"timestamp\":"@ + decimal_of(timestamp as int) + ",\"passphrase\":"@ + json_string_of(
        passphrase,
    ) + "}"@
}

/// Relies on serde_json::to_string on a `str`: the string as a JSON string
/// literal. Serializing a `str` into memory has no failing path.
#[verifier::external_body]
fn json_quote(s: &str) -> (r: String)
    ensures
        r@ == json_string_of(s@),
{
    match serde_json::to_string(s) {
        Ok(t) => t,
        Err(_) => String::new(),
    }
}

/// Relies on chrono::Utc::now and DateTime::timestamp_millis: the wall-clock
/// time in milliseconds since the Unix epoch. Nothing is known of its value.
#[verifier::external_body]
fn now_millis() -> (r: i64) {
    chrono::Utc::now().timestamp_millis()
}

impl LoginRequest {
    /// Holds when this request carries `creds` signed at `timestamp`.
    pub open spec fn signs(&self, creds: &Credentials, timestamp: i64) -> bool {
        &&& self.key@ == creds.api_key@
        &&& self.signature@ == signature_of(timestamp, creds.secret@)
        &&& self.timestamp == timestamp
        &&& self.passphrase@ == creds.passphrase@
    }

    /// The login request for `creds` signed at `timestamp` (epoch milliseconds).
    pub fn new(creds: &Credentials, timestamp: i64) -> (r: LoginRequest)
        ensures
            r.signs(creds, timestamp),
    {
        LoginRequest {
            key: creds.api_key.clone(),
            signature: sign(timestamp, creds.secret.as_str()),
            timestamp,
            passphrase: creds.passphrase.clone(),
        }
    }

    /// The login request for `creds` signed at the current wall-clock time.
    pub fn fresh(creds: &Credentials) -> (r: LoginRequest)
        ensures
            r.signs(creds, r.timestamp),
    {
        let timestamp = now_millis();
        LoginRequest::new(creds, timestamp)
    }

    /// The login frame: a JSON object with the members `type` (always
    /// `"login"`), `key`, `signature`, `timestamp` (an integer) and `passphrase`.
    pub fn to_json(&self) -> (r: String)
        ensures
            r@ == login_json(self.key@, self.signature@, self.timestamp, self.passphrase@),
    {
        let mut s = String::from_str("{\"type\":\"login\",\"key\":");
        s.append(json_quote(self.key.as_str()).as_str());
        s.append(",\"signature\":");
        s.append(json_quote(self.signature.as_str()).as_str());
        s.append(",\"timestamp\":");
        s.append(decimal_string(self.timestamp).as_str());
        s.append(",\"passphrase\":");
        s.append(json_quote(self.passphrase.as_str()).as_str());
        s.append("}");
        s
    }
}

/// The login frame of a request signed for `creds` at `timestamp` holds the
/// five members, each from its source: the key and passphrase as given, the
/// signature of that timestamp under the secret, and the timestamp itself.
pub proof fn lemma_login_frame_fields(r: LoginRequest, creds: Credentials, timestamp: i64)
    requires
        r.signs(&creds, timestamp),
    ensures
        login_json(r.key@, r.signature@, r.timestamp, r.passphrase@) == login_json(
            creds.api_key@,
            signature_of(timestamp, creds.secret@),
            timestamp,
            creds.passphrase@,
        ),
{
}

} // verus!
