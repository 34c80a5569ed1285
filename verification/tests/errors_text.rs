use backend_insights::errors::AppError;
use backend_insights::models::{
    RegisterData, LoginData, VerificationRegisterData, VerificationLoginData, UsernameUpdate,
    AuthResponse, UserResponse,
};
use backend_insights::text::{code_string, is_blank, str_eq};

#[test]
fn status_codes_follow_the_http_surface() {
    assert_eq!(AppError::UserNotFound.status_code(), 404);
    assert_eq!(AppError::InvalidToken.status_code(), 401);
    assert_eq!(AppError::MissingToken.status_code(), 401);
    assert_eq!(AppError::UserAlreadyExists.status_code(), 409);
    assert_eq!(AppError::EmailError("x".to_string()).status_code(), 502);
    assert_eq!(AppError::InvalidOrExpiredCode.status_code(), 400);
    assert_eq!(AppError::InvalidInput("x".to_string()).status_code(), 400);
    assert_eq!(AppError::DatabaseError("x".to_string()).status_code(), 500);
    assert_eq!(AppError::InternalError.status_code(), 500);
    assert_eq!(AppError::HashingError.status_code(), 500);
    assert_eq!(AppError::TokenCreationError.status_code(), 500);
}

#[test]
fn messages_name_the_failure() {
    assert_eq!(AppError::UserNotFound.message(), "user not found");
    assert_eq!(AppError::InvalidOrExpiredCode.message(), "invalid or expired code");
    assert_eq!(
        AppError::DatabaseError("no route".to_string()).message(),
        "database error: no route"
    );
    assert_eq!(AppError::EmailError("bounced".to_string()).message(), "email error: bounced");
    assert_eq!(AppError::InvalidInput("Email Error".to_string()).message(),
        "invalid input: Email Error");
}

#[test]
fn blankness_counts_spacing_only() {
    assert!(is_blank(""));
    assert!(is_blank("   "));
    assert!(is_blank(" \t\r\n"));
    assert!(!is_blank(" a "));
    assert!(!is_blank("x"));
}

#[test]
fn blankness_covers_unicode_whitespace() {
    // the same characters str::trim would remove
    assert!(is_blank("\u{a0}"));
    assert!(is_blank("\u{3000}"));
    assert!(is_blank("\u{85}\u{1680}\u{2000}\u{200a}\u{2028}\u{2029}\u{202f}\u{205f}"));
    assert!(!is_blank("x\u{a0}"));
    // zero-width space is not in the Unicode white-space set
    assert!(!is_blank("\u{200b}"));
}

#[test]
fn string_equality_is_character_wise() {
    assert!(str_eq("", ""));
    assert!(str_eq("abc", "abc"));
    assert!(!str_eq("abc", "abd"));
    assert!(!str_eq("abc", "abcd"));
    assert!(str_eq("héllo", "héllo"));
    assert!(!str_eq("héllo", "hello"));
}

#[test]
fn code_rendering_is_zero_padded_decimal() {
    assert_eq!(code_string(0), "000000");
    assert_eq!(code_string(7), "000007");
    assert_eq!(code_string(123_456), "123456");
    assert_eq!(code_string(999_999), "999999");
    assert_eq!(code_string(100_000), "100000");
}

#[test]
fn request_shapes_hold_their_fields() {
    let r = RegisterData { username: "a".to_string(), email: "a@x.com".to_string() };
    assert_eq!(r.username, "a");
    assert_eq!(r.email, "a@x.com");
    let l = LoginData { email: "a@x.com".to_string() };
    assert_eq!(l.email, "a@x.com");
    let vr = VerificationRegisterData {
        username: "a".to_string(),
        email: "a@x.com".to_string(),
        code: 123_456,
    };
    assert_eq!(vr.code, 123_456);
    let vl = VerificationLoginData { email: "a@x.com".to_string(), code: 654_321 };
    assert_eq!(vl.code, 654_321);
    let u = UsernameUpdate { username: "b".to_string() };
    assert_eq!(u.username, "b");
    let t = AuthResponse { token: "tok".to_string() };
    assert_eq!(t.token, "tok");
    let ur = UserResponse { username: "a".to_string() };
    assert_eq!(ur.username, "a");
}
