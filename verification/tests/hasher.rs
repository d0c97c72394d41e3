use axum_sass_template::domain::UserPassword;
use axum_sass_template::hasher::{
    hash, hashed, judge, verified, verify, HashingError, PasswordCheck, VerificationError,
};

fn valid(raw: &str) -> UserPassword {
    UserPassword::parse(raw.to_string()).ok().expect("valid password")
}

#[test]
fn hash_then_verify_same_password() {
    let h = hash(&valid("longenough1"));
    assert_ne!(h, "longenough1");
    assert_eq!(verify("longenough1", &h), Ok(true));
}

#[test]
fn verify_other_password_is_false() {
    let h = hash(&valid("longenough1"));
    assert_eq!(verify("longenough2", &h), Ok(false));
    assert_eq!(verify("", &h), Ok(false));
}

#[test]
fn hash_is_salted() {
    let p = valid("correct horse");
    let a = hash(&p);
    let b = hash(&p);
    assert_ne!(a, b);
    assert_eq!(verify("correct horse", &a), Ok(true));
    assert_eq!(verify("correct horse", &b), Ok(true));
}

#[test]
fn verify_malformed_hash_is_an_error() {
    assert_eq!(verify("longenough1", "not-a-hash"), Err(VerificationError::MalformedHash));
    assert_eq!(verify("longenough1", ""), Err(VerificationError::MalformedHash));
    assert_eq!(verify("longenough1", "longenough1"), Err(VerificationError::MalformedHash));
}

#[test]
fn judge_each_answer() {
    assert_eq!(judge(PasswordCheck::Match), Ok(true));
    assert_eq!(judge(PasswordCheck::Mismatch), Ok(false));
    assert_eq!(judge(PasswordCheck::Malformed), Err(VerificationError::MalformedHash));
}

#[test]
fn lost_worker_is_an_error() {
    assert_eq!(hashed(None), Err(HashingError::WorkerUnavailable));
    assert_eq!(hashed(Some("h".to_string())), Ok("h".to_string()));
    assert_eq!(verified(None), Err(VerificationError::WorkerUnavailable));
    assert_eq!(verified(Some(Ok(false))), Ok(false));
    assert_eq!(verified(Some(Ok(true))), Ok(true));
    assert_eq!(
        verified(Some(Err(VerificationError::MalformedHash))),
        Err(VerificationError::MalformedHash)
    );
}
