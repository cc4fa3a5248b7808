//! Validated value objects: e-mail addresses, session tokens and lifetimes,
//! user ids, client addresses and API route names.
use crate::errors::AppError;
use crate::primitives::{random_alphanumeric, spec_is_ascii_alphanumeric};
use crate::text::{
    contains_char, has_whitespace, owned, push_char, spec_is_whitespace, spec_lowercase,
    spec_trim, to_lowercase, trim,
};
use vstd::prelude::*;
use vstd::string::StringSliceAdditionalSpecFns;
use vstd::utf8::{encode_utf8, is_ascii_chars, is_ascii_chars_encode_utf8};

verus! {

/// The operations the API exposes, by name.
#[derive(Debug, Clone, Copy, PartialEq, Eq, Structural)]
pub enum ApiRoute {
    EncryptKey,
    DecryptKey,
    SignData,
    VerifySignature,
    KmsRotateMaster,
    KmsRewrap,
    HealthCheck,
}

/// The dotted name of each route.
pub open spec fn spec_route_name(r: ApiRoute) -> Seq<char> {
    match r {
        ApiRoute::EncryptKey => "keys.encrypt"@,
        ApiRoute::DecryptKey => "keys.decrypt"@,
        ApiRoute::SignData => "keys.sign"@,
        ApiRoute::VerifySignature => "keys.verify"@,
        ApiRoute::KmsRotateMaster => "admin.kms.rotate"@,
        ApiRoute::KmsRewrap => "admin.kms.rewrap"@,
        ApiRoute::HealthCheck => "system.health"@,
    }
}

impl ApiRoute {
    /// The route's dotted name.
    pub fn as_str(&self) -> (r: &'static str)
        ensures
            r@ == spec_route_name(*self),
    {
        match self {
            ApiRoute::EncryptKey => "keys.encrypt",
            ApiRoute::DecryptKey => "keys.decrypt",
            ApiRoute::SignData => "keys.sign",
            ApiRoute::VerifySignature => "keys.verify",
            ApiRoute::KmsRotateMaster => "admin.kms.rotate",
            ApiRoute::KmsRewrap => "admin.kms.rewrap",
            ApiRoute::HealthCheck => "system.health",
        }
    }
}

/// The address a request came from, as text.
pub struct ClientIp(String);

impl View for ClientIp {
    type V = Seq<char>;

    closed spec fn view(&self) -> Seq<char> {
        self.0@
    }
}

impl ClientIp {
    pub fn new(ip: String) -> (r: ClientIp)
        ensures
            r@ == ip@,
    {
        ClientIp(ip)
    }

    pub fn as_str(&self) -> (r: &str)
        ensures
            r@ == self@,
    {
        self.0.as_str()
    }
}

/// A normalised e-mail address: trimmed, lowercased, non-empty and holding an `@`.
#[derive(Debug, Clone, PartialEq, Eq, Hash)]
pub struct Email(String);

impl View for Email {
    type V = Seq<char>;

    closed spec fn view(&self) -> Seq<char> {
        self.0@
    }
}

/// The normal form of an address: trimmed, then lowercased.
pub open spec fn spec_normalize_email(value: Seq<char>) -> Seq<char> {
    spec_lowercase(spec_trim(value))
}

/// Whether a normalised address is acceptable.
pub open spec fn spec_email_ok(normalized: Seq<char>) -> bool {
    normalized.len() > 0 && normalized.contains('@')
}

impl Email {
    /// Normalises `value` (trim, then lowercase) and accepts it when the result
    /// is non-empty and holds an `@`.
    pub fn new(value: String) -> (r: Result<Email, AppError>)
        ensures
            match r {
                Ok(e) => spec_email_ok(spec_normalize_email(value@)) && e@ == spec_normalize_email(
                    value@,
                ),
                Err(e) => !spec_email_ok(spec_normalize_email(value@)) && (e matches AppError::ValidationError(m)
                    && m@ == "Invalid email format"@),
            },
    {
        let trimmed = trim(value.as_str());
        let normalized = to_lowercase(trimmed.as_str());
        Email::from_normalized(normalized)
    }

    /// Accepts an already normalised address when it is non-empty and holds an `@`.
    pub fn from_normalized(normalized: String) -> (r: Result<Email, AppError>)
        ensures
            match r {
                Ok(e) => spec_email_ok(normalized@) && e@ == normalized@,
                Err(e) => !spec_email_ok(normalized@) && (e matches AppError::ValidationError(m)
                    && m@ == "Invalid email format"@),
            },
    {
        if normalized.as_str().is_empty() || !contains_char(normalized.as_str(), '@') {
            return Err(AppError::ValidationError(owned("Invalid email format")));
        }
        Ok(Email(normalized))
    }

    /// The address.
    pub fn as_str(&self) -> (r: &str)
        ensures
            r@ == self@,
    {
        self.0.as_str()
    }

    /// The address, consuming the value.
    pub fn into_inner(self) -> (r: String)
        ensures
            r@ == self@,
    {
        self.0
    }

    /// The address as a new string (what it displays as).
    pub fn to_text(&self) -> (r: String)
        ensures
            r@ == self@,
    {
        self.0.clone()
    }

    /// The address as a `String` value.
    pub closed spec fn spec_text(self) -> String {
        self.0
    }

    /// The text of an address is its view.
    pub proof fn lemma_text_is_view(self)
        ensures
            self.spec_text()@ == self@,
    {
    }
}

impl From<Email> for String {
    /// The address, consuming the value.
    fn from(email: Email) -> (r: String) {
        email.0
    }
}

impl vstd::std_specs::convert::FromSpecImpl<Email> for String {
    open spec fn obeys_from_spec() -> bool {
        true
    }

    open spec fn from_spec(v: Email) -> String {
        v.spec_text()
    }
}

impl AsRef<str> for Email {
    /// The address.
    fn as_ref(&self) -> (r: &str) {
        self.0.as_str()
    }
}

/// A session token: at least 32 bytes long and free of white space.
#[derive(Debug, Clone, PartialEq, Eq, Hash)]
pub struct SessionToken(String);

impl View for SessionToken {
    type V = Seq<char>;

    closed spec fn view(&self) -> Seq<char> {
        self.0@
    }
}

/// Whether `value` is an acceptable session token: at least 32 bytes of UTF-8
/// and no white-space character.
pub open spec fn spec_token_ok(value: Seq<char>) -> bool {
    encode_utf8(value).len() >= 32 && !(exists|j: int|
        0 <= j < value.len() && spec_is_whitespace(#[trigger] value[j]))
}

/// Length of a generated session token, in characters.
pub const SESSION_TOKEN_LEN: usize = 64;

impl SessionToken {
    /// Accepts tokens of at least 32 bytes without white space.
    pub fn new(value: String) -> (r: Result<SessionToken, AppError>)
        ensures
            match r {
                Ok(t) => spec_token_ok(value@) && t@ == value@,
                Err(e) => !spec_token_ok(value@) && (e matches AppError::ValidationError(m) && m@
                    == "Invalid session token"@),
            },
    {
        if value.as_str().as_bytes().len() < 32 || has_whitespace(value.as_str()) {
            return Err(AppError::ValidationError(owned("Invalid session token")));
        }
        Ok(SessionToken(value))
    }

    /// A fresh token of 64 random ASCII letters and digits.
    pub fn generate() -> (r: SessionToken)
        ensures
            r@.len() == SESSION_TOKEN_LEN,
            forall|j: int| 0 <= j < r@.len() ==> spec_is_ascii_alphanumeric(#[trigger] r@[j]),
    {
        let mut token = String::new();
        let mut i: usize = 0;
        while i < SESSION_TOKEN_LEN
            invariant
                i <= SESSION_TOKEN_LEN,
                token@.len() == i,
                forall|j: int| 0 <= j < token@.len() ==> spec_is_ascii_alphanumeric(#[trigger] token@[j]),
            decreases SESSION_TOKEN_LEN - i,
        {
            let c = random_alphanumeric();
            push_char(&mut token, c);
            i = i + 1;
        }
        SessionToken(token)
    }

    /// The token text.
    pub fn as_str(&self) -> (r: &str)
        ensures
            r@ == self@,
    {
        self.0.as_str()
    }
}

/// Law: every generated session token is one that [`SessionToken::new`] accepts.
pub proof fn law_generated_token_valid(token: Seq<char>)
    requires
        token.len() == SESSION_TOKEN_LEN,
        forall|j: int| 0 <= j < token.len() ==> spec_is_ascii_alphanumeric(#[trigger] token[j]),
    ensures
        spec_token_ok(token),
{
    assert(is_ascii_chars(token));
    is_ascii_chars_encode_utf8(token);
}

/// How long a session lives, in seconds.
#[derive(Debug, Clone, Copy, PartialEq, Eq, Structural)]
pub struct SessionTtl(u64);

impl SessionTtl {
    pub fn from_secs(secs: u64) -> (r: SessionTtl)
        ensures
            r.spec_secs() == secs,
    {
        SessionTtl(secs)
    }

    pub fn as_secs(&self) -> (r: u64)
        ensures
            r == self.spec_secs(),
    {
        self.0
    }

    /// The lifetime in seconds.
    pub closed spec fn spec_secs(&self) -> u64 {
        self.0
    }
}

/// The identifier of a user, as text.
#[derive(Debug, Clone, PartialEq, Eq, Hash)]
pub struct UserId(String);

impl View for UserId {
    type V = Seq<char>;

    closed spec fn view(&self) -> Seq<char> {
        self.0@
    }
}

impl UserId {
    pub fn new(id: String) -> (r: UserId)
        ensures
            r@ == id@,
    {
        UserId(id)
    }

    /// Accepts any text that is not empty once trimmed; the text is kept as given.
    pub fn parse(value: &str) -> (r: Result<UserId, AppError>)
        ensures
            match r {
                Ok(u) => spec_trim(value@).len() > 0 && u@ == value@,
                Err(e) => spec_trim(value@).len() == 0 && (e matches AppError::ValidationError(m)
                    && m@ == "UserId cannot be empty"@),
            },
    {
        let trimmed = trim(value);
        if trimmed.as_str().is_empty() {
            return Err(AppError::ValidationError(owned("UserId cannot be empty")));
        }
        Ok(UserId(owned(value)))
    }

    pub fn as_inner(&self) -> (r: &str)
        ensures
            r@ == self@,
    {
        self.0.as_str()
    }

    pub fn into_inner(self) -> (r: String)
        ensures
            r@ == self@,
    {
        self.0
    }

    /// The id's text; database ids are the hexadecimal form of the record id.
    pub fn to_hex(&self) -> (r: String)
        ensures
            r@ == self@,
    {
        self.0.clone()
    }
}

} // verus!
