//! Credential checking against the real digest implementations.

use databend::users::AuthType;
use databend::users::CertifiedInfo;
use databend::users::User;
use databend::users::UserApiProvider;
use databend::users::UserInfo;

use sha2::Digest;

fn info(password: &[u8]) -> CertifiedInfo {
    CertifiedInfo::new("u".to_string(), password.to_vec(), "127.0.0.1".to_string())
}

#[test]
fn test_auth_none_accepts_anything() {
    let api = UserApiProvider::create();
    let user = User::new("u", "%", "", AuthType::NoPassword).into_user_info();
    assert_eq!(api.auth_user(&user, &info(b"whatever")), Ok(true));
}

#[test]
fn test_auth_plaintext() {
    let api = UserApiProvider::create();
    let user = User::new("u", "%", "secret", AuthType::PlainText).into_user_info();
    assert_eq!(api.auth_user(&user, &info(b"secret")), Ok(true));
    assert_eq!(api.auth_user(&user, &info(b"wrong")), Ok(false));
}

#[test]
fn test_auth_double_sha1() {
    let api = UserApiProvider::create();

    // The wire carries sha1(password) once; the store holds sha1 applied twice.
    let presented = b"client-side-bytes".to_vec();
    let mut m = sha1::Sha1::new();
    m.update(&presented);
    let once = m.digest().bytes();
    let mut m = sha1::Sha1::new();
    m.update(&once[..]);
    let stored = m.digest().bytes().to_vec();

    let user = UserInfo::new("u".to_string(), "%".to_string(), stored, AuthType::DoubleSha1);
    assert_eq!(api.auth_user(&user, &info(&presented)), Ok(true));
    assert_eq!(api.auth_user(&user, &info(b"other")), Ok(false));

    // Storing the presented bytes themselves must not pass: the check really
    // digests.
    let lazy = UserInfo::new(
        "u".to_string(),
        "%".to_string(),
        presented.clone(),
        AuthType::DoubleSha1,
    );
    assert_eq!(api.auth_user(&lazy, &info(&presented)), Ok(false));
}

#[test]
fn test_auth_sha256() {
    let api = UserApiProvider::create();
    let presented = b"pass-bytes".to_vec();
    let stored = sha2::Sha256::digest(&presented).to_vec();

    let user = UserInfo::new("u".to_string(), "%".to_string(), stored, AuthType::Sha256);
    assert_eq!(api.auth_user(&user, &info(&presented)), Ok(true));
    assert_eq!(api.auth_user(&user, &info(b"nope")), Ok(false));

    let lazy = UserInfo::new("u".to_string(), "%".to_string(), presented.clone(), AuthType::Sha256);
    assert_eq!(api.auth_user(&lazy, &info(&presented)), Ok(false));
}
