use floatctf_awd::awdp_ident::practice_judge_token;
use floatctf_awd::judge_auth::{bearer_token, check_practice_judge_auth, constant_time_eq, PracticeJudgeAuthError};

#[test]
fn constant_time_eq_compares_bytes() {
    assert!(constant_time_eq(b"abc", b"abc"));
    assert!(!constant_time_eq(b"abc", b"abd"));
    assert!(!constant_time_eq(b"abc", b"ab"));
    assert!(constant_time_eq(b"", b""));
}

#[test]
fn bearer_prefix_is_required() {
    assert_eq!(bearer_token(Some("Bearer xyz")), Some("xyz".to_string()));
    assert_eq!(bearer_token(Some("bearer xyz")), None);
    assert_eq!(bearer_token(Some("Bearer")), None);
    assert_eq!(bearer_token(None), None);
}

#[test]
fn internal_calls_need_the_derived_token() {
    let secret = b"platform-secret";
    let good = format!("Bearer {}", practice_judge_token(secret));
    assert!(check_practice_judge_auth(Some(&good), Some(secret)).is_ok());
    assert_eq!(check_practice_judge_auth(Some("Bearer nope"), Some(secret)).unwrap_err(), PracticeJudgeAuthError::InvalidToken);
    assert_eq!(check_practice_judge_auth(None, Some(secret)).unwrap_err(), PracticeJudgeAuthError::MissingToken);
    assert_eq!(check_practice_judge_auth(Some(&good), None).unwrap_err(), PracticeJudgeAuthError::ConfigMissing);
    let other = format!("Bearer {}", practice_judge_token(b"other"));
    assert_eq!(check_practice_judge_auth(Some(&other), Some(secret)).unwrap_err(), PracticeJudgeAuthError::InvalidToken);
}

#[test]
fn refusal_messages_and_status() {
    assert_eq!(PracticeJudgeAuthError::MissingToken.message(), "Missing or invalid Authorization header");
    assert_eq!(PracticeJudgeAuthError::InvalidToken.message(), "Unauthorized");
    assert_eq!(PracticeJudgeAuthError::ConfigMissing.message(), "AppConfig not available");
    assert_eq!(PracticeJudgeAuthError::InvalidToken.status_code(), 401);
}
