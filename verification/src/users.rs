//! User identities and credential checking. Passwords are stored as the digest
//! the client protocol calls for, and checking one is a pure function of the
//! stored bytes and the presented bytes.

use vstd::prelude::*;

use sha2::Digest;
use vstd::string::StringSliceAdditionalSpecFns;
use vstd::string::StrSliceExecFns;

use crate::alist::AssocKey;
use crate::errors::ErrorCode;

verus! {

/// How a user authenticates.
#[derive(Clone, Copy, Debug, PartialEq, Eq, Structural)]
pub enum AuthType {
    /// No credential asked for.
    NoPassword,
    /// The password compared byte for byte.
    PlainText,
    /// The stored bytes are `sha1(sha1(password))`; the wire already carries
    /// one application, so the check applies one more.
    DoubleSha1,
    /// The stored bytes are `sha256(password)`.
    Sha256,
}

/// A user of the catalog, as persisted.
#[derive(Debug, PartialEq, Eq)]
pub struct UserInfo {
    pub name: String,
    pub hostname: String,
    pub password: Vec<u8>,
    pub auth_type: AuthType,
}

#[verifier::ext_equal]
pub ghost struct UserInfoG {
    pub name: Seq<char>,
    pub hostname: Seq<char>,
    pub password: Seq<u8>,
    pub auth_type: AuthType,
}

impl View for UserInfo {
    type V = UserInfoG;

    open spec fn view(&self) -> UserInfoG {
        UserInfoG {
            name: self.name@,
            hostname: self.hostname@,
            password: self.password@,
            auth_type: self.auth_type,
        }
    }
}

impl UserInfo {
    pub fn new(name: String, hostname: String, password: Vec<u8>, auth_type: AuthType) -> (r: Self)
        ensures
            r@ == (UserInfoG {
                name: name@,
                hostname: hostname@,
                password: password@,
                auth_type,
            }),
    {
        let r = UserInfo { name, hostname, password, auth_type };
        proof {
            assert(r@ =~= UserInfoG {
                name: r.name@,
                hostname: r.hostname@,
                password: r.password@,
                auth_type: r.auth_type,
            });
        }
        r
    }
}

/// A user as named at session setup.
pub struct User {
    pub name: String,
    pub hostname: String,
    pub password: Vec<u8>,
    pub auth_type: AuthType,
}

impl User {
    pub fn new(name: &str, hostname: &str, password: &str, auth_type: AuthType) -> (r: Self)
        ensures
            r.name@ == name@,
            r.hostname@ == hostname@,
            r.password@ == password.spec_bytes(),
            r.auth_type == auth_type,
    {
        User {
            name: name.to_owned(),
            hostname: hostname.to_owned(),
            password: password.as_bytes_vec(),
            auth_type,
        }
    }

    /// The persisted form of this user.
    pub fn into_user_info(self) -> (r: UserInfo)
        ensures
            r@ == (UserInfoG {
                name: self.name@,
                hostname: self.hostname@,
                password: self.password@,
                auth_type: self.auth_type,
            }),
    {
        UserInfo::new(self.name, self.hostname, self.password, self.auth_type)
    }
}

/// What a client presented at session setup.
pub struct CertifiedInfo {
    pub user_name: String,
    pub user_password: Vec<u8>,
    pub user_client_address: String,
}

impl CertifiedInfo {
    pub fn new(user_name: String, user_password: Vec<u8>, user_client_address: String) -> (r: Self)
        ensures
            r.user_name@ == user_name@,
            r.user_password@ == user_password@,
            r.user_client_address@ == user_client_address@,
    {
        CertifiedInfo { user_name, user_password, user_client_address }
    }
}

/// The SHA-1 digest of the bytes: a function of the input alone.
pub uninterp spec fn sha1_of(data: Seq<u8>) -> Seq<u8>;

/// The SHA-256 digest of the bytes: a function of the input alone.
pub uninterp spec fn sha256_of(data: Seq<u8>) -> Seq<u8>;

/// Relies on sha1::Sha1 (update, then digest): the 20-byte SHA-1 digest of the
/// input, depending on the input bytes alone.
#[verifier::external_body]
fn sha1_digest(data: &[u8]) -> (r: Vec<u8>)
    ensures
        r@ == sha1_of(data@),
        r@.len() == 20,
{
    let mut m = sha1::Sha1::new();
    m.update(data);
    m.digest().bytes().to_vec()
}

/// Relies on sha2::Sha256::digest: the 32-byte SHA-256 digest of the input,
/// depending on the input bytes alone.
#[verifier::external_body]
fn sha256_digest(data: &[u8]) -> (r: Vec<u8>)
    ensures
        r@ == sha256_of(data@),
        r@.len() == 32,
{
    sha2::Sha256::digest(data).to_vec()
}

/// When the stored credential accepts the presented password.
pub open spec fn spec_auth(auth_type: AuthType, stored: Seq<u8>, given: Seq<u8>) -> bool {
    match auth_type {
        AuthType::NoPassword => true,
        AuthType::PlainText => stored == given,
        AuthType::DoubleSha1 => stored == sha1_of(sha1_of(given)),
        AuthType::Sha256 => stored == sha256_of(given),
    }
}

/// The user-facing credential API.
pub struct UserApiProvider {}

impl UserApiProvider {
    pub fn create() -> (r: Self) {
        UserApiProvider {  }
    }

    /// Check the presented password against the stored credential, under the
    /// user's auth type. Always answers; a rejection is `Ok(false)`, never an
    /// error.
    pub fn auth_user(&self, user: &UserInfo, info: &CertifiedInfo) -> (r: Result<bool, ErrorCode>)
        ensures
            r == Ok::<bool, ErrorCode>(spec_auth(user@.auth_type, user@.password, info.user_password@)),
    {
        match user.auth_type {
            AuthType::NoPassword => Ok(true),
            AuthType::PlainText => Ok(user.password.same_key(&info.user_password)),
            AuthType::DoubleSha1 => {
                let once = sha1_digest(info.user_password.as_slice());
                let twice = sha1_digest(once.as_slice());
                Ok(user.password.same_key(&twice))
            },
            AuthType::Sha256 => {
                let digest = sha256_digest(info.user_password.as_slice());
                Ok(user.password.same_key(&digest))
            },
        }
    }
}

} // verus!
