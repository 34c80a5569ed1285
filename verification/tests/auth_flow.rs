use backend_insights::errors::AppError;
use backend_insights::flow::AuthService;

const T0: u64 = 1_700_000_000_000;

#[test]
fn register_verify_creates_account_and_code_is_single_use() {
    let mut svc = AuthService::new();
    let code = svc
        .request_registration("alice", "a@x.com", T0)
        .expect("fresh registration is accepted");
    assert!((100_000..=999_999).contains(&code));

    let user = svc
        .verify_registration("alice", "a@x.com", code, T0 + 1_000)
        .expect("the issued code verifies");
    assert_eq!(user.username, "alice");
    assert_eq!(user.email, "a@x.com");
    assert_eq!(user.id.len(), 24);
    assert!(backend_insights::ids::is_object_id_hex(&user.id));

    // a session can be issued for the new account
    let now_secs = chrono::Utc::now().timestamp() as u64;
    let token = backend_insights::jwt::generate_jwt(&user.id, "secret", now_secs).unwrap();
    assert_eq!(
        backend_insights::jwt::verify_jwt(&token, "secret").unwrap(),
        user.id
    );

    let again = svc.verify_registration("alice", "a@x.com", code, T0 + 2_000);
    assert!(matches!(again, Err(AppError::InvalidOrExpiredCode)));
}

#[test]
fn second_registration_supersedes_first_code() {
    let mut svc = AuthService::new();
    svc.request_registration_with("bob", "b@x.com", 111_111, T0)
        .expect("first request accepted");
    svc.request_registration_with("bob", "b@x.com", 222_222, T0 + 5_000)
        .expect("second request accepted");

    let first = svc.verify_registration("bob", "b@x.com", 111_111, T0 + 6_000);
    assert!(matches!(first, Err(AppError::InvalidOrExpiredCode)));

    let second = svc.verify_registration("bob", "b@x.com", 222_222, T0 + 7_000);
    assert!(second.is_ok());
}

#[test]
fn taken_username_with_fresh_email_is_rejected_without_pending_record() {
    let mut svc = AuthService::new();
    let code = svc.request_registration("carol", "c@x.com", T0).unwrap();
    svc.verify_registration("carol", "c@x.com", code, T0 + 1_000).unwrap();

    let conflict = svc.request_registration("carol", "other@x.com", T0 + 2_000);
    assert!(matches!(conflict, Err(AppError::UserAlreadyExists)));

    // nothing was written for the fresh email: no code can verify there
    for probe in [100_000u32, 555_555, 999_999] {
        let r = svc.verify_registration("carol", "other@x.com", probe, T0 + 3_000);
        assert!(matches!(r, Err(AppError::InvalidOrExpiredCode)));
    }
}

#[test]
fn taken_email_is_rejected_the_same_way() {
    let mut svc = AuthService::new();
    let code = svc.request_registration("dan", "d@x.com", T0).unwrap();
    svc.verify_registration("dan", "d@x.com", code, T0 + 1_000).unwrap();

    let conflict = svc.request_registration("someone", "d@x.com", T0 + 2_000);
    assert!(matches!(conflict, Err(AppError::UserAlreadyExists)));
}

#[test]
fn blank_inputs_are_invalid() {
    let mut svc = AuthService::new();
    assert!(matches!(
        svc.request_registration("", "a@x.com", T0),
        Err(AppError::InvalidInput(_))
    ));
    assert!(matches!(
        svc.request_registration("   \t", "a@x.com", T0),
        Err(AppError::InvalidInput(_))
    ));
    assert!(matches!(
        svc.request_registration("eve", "  ", T0),
        Err(AppError::InvalidInput(_))
    ));
    // the username check runs first
    match svc.request_registration("", "", T0) {
        Err(AppError::InvalidInput(m)) => assert_eq!(m, "Username Error"),
        other => panic!("expected InvalidInput, got {:?}", other),
    }
    match svc.request_registration("fred", " ", T0) {
        Err(AppError::InvalidInput(m)) => assert_eq!(m, "Email Error"),
        other => panic!("expected InvalidInput, got {:?}", other),
    }
    // Unicode-only whitespace trims to empty too
    assert!(matches!(
        svc.request_registration("\u{3000}", "a@x.com", T0),
        Err(AppError::InvalidInput(_))
    ));
    assert!(matches!(
        svc.request_registration("greg", "\u{a0}\u{a0}", T0),
        Err(AppError::InvalidInput(_))
    ));
}

#[test]
fn registration_code_expires_at_the_ttl() {
    let mut svc = AuthService::new();
    svc.request_registration_with("gail", "g@x.com", 123_456, T0).unwrap();

    // one millisecond before the TTL the code still verifies; at the TTL it
    // counts as absent, regardless of being the right code
    let at_ttl = svc.verify_registration("gail", "g@x.com", 123_456, T0 + 180_000);
    assert!(matches!(at_ttl, Err(AppError::InvalidOrExpiredCode)));
    let just_before = svc.verify_registration("gail", "g@x.com", 123_456, T0 + 179_999);
    assert!(just_before.is_ok());
}

#[test]
fn login_for_unknown_email_fails_and_writes_nothing() {
    let mut svc = AuthService::new();
    let r = svc.request_login("h@x.com", T0);
    assert!(matches!(r, Err(AppError::UserNotFound)));

    // create the account afterwards: still nothing pending for it
    let code = svc.request_registration("hank", "h@x.com", T0 + 1_000).unwrap();
    svc.verify_registration("hank", "h@x.com", code, T0 + 2_000).unwrap();
    for probe in [100_000u32, 555_555, 999_999] {
        let r = svc.verify_login("h@x.com", probe, T0 + 3_000);
        assert!(matches!(r, Err(AppError::InvalidOrExpiredCode)));
    }
}

#[test]
fn login_round_trip_and_replay() {
    let mut svc = AuthService::new();
    let code = svc.request_registration("ivy", "i@x.com", T0).unwrap();
    svc.verify_registration("ivy", "i@x.com", code, T0 + 1_000).unwrap();

    let login_code = svc.request_login("i@x.com", T0 + 10_000).unwrap();
    assert!((100_000..=999_999).contains(&login_code));

    let wrong = if login_code == 100_000 { 100_001 } else { login_code - 1 };
    assert!(matches!(
        svc.verify_login("i@x.com", wrong, T0 + 11_000),
        Err(AppError::InvalidOrExpiredCode)
    ));

    let user = svc.verify_login("i@x.com", login_code, T0 + 12_000).unwrap();
    assert_eq!(user.username, "ivy");
    assert_eq!(user.email, "i@x.com");

    // the code was consumed
    assert!(matches!(
        svc.verify_login("i@x.com", login_code, T0 + 13_000),
        Err(AppError::InvalidOrExpiredCode)
    ));
}

#[test]
fn login_code_expires_at_the_ttl() {
    let mut svc = AuthService::new();
    let code = svc.request_registration("jo", "j@x.com", T0).unwrap();
    svc.verify_registration("jo", "j@x.com", code, T0 + 1_000).unwrap();

    svc.request_login_with("j@x.com", 654_321, T0 + 10_000).unwrap();
    let r = svc.verify_login("j@x.com", 654_321, T0 + 10_000 + 180_000);
    assert!(matches!(r, Err(AppError::InvalidOrExpiredCode)));
}

#[test]
fn second_login_request_supersedes_first_code() {
    let mut svc = AuthService::new();
    let code = svc.request_registration("kim", "k@x.com", T0).unwrap();
    svc.verify_registration("kim", "k@x.com", code, T0 + 1_000).unwrap();

    svc.request_login_with("k@x.com", 111_111, T0 + 10_000).unwrap();
    svc.request_login_with("k@x.com", 222_222, T0 + 11_000).unwrap();
    assert!(matches!(
        svc.verify_login("k@x.com", 111_111, T0 + 12_000),
        Err(AppError::InvalidOrExpiredCode)
    ));
    assert!(svc.verify_login("k@x.com", 222_222, T0 + 12_000).is_ok());
}

#[test]
fn blocked_insert_keeps_the_pending_code_for_retry() {
    let mut svc = AuthService::new();
    // a code is issued for the pair (lee, l@x.com) ...
    svc.request_registration_with("lee", "l@x.com", 444_444, T0).unwrap();
    // ... and meanwhile the username is taken through another registration
    let other = svc.request_registration("lee", "m@x.com", T0 + 100).unwrap();
    svc.verify_registration("lee", "m@x.com", other, T0 + 200).unwrap();

    // the code is right, but the account insert collides: a storage error,
    // and the pending record is kept
    let blocked = svc.verify_registration("lee", "l@x.com", 444_444, T0 + 1_000);
    assert!(matches!(blocked, Err(AppError::DatabaseError(_))));

    // once the collision is gone the same code still verifies
    let c = svc.request_login("m@x.com", T0 + 2_000).unwrap();
    let holder = svc.verify_login("m@x.com", c, T0 + 3_000).unwrap();
    svc.change_username(&holder.id, "lee2").unwrap();
    let retry = svc.verify_registration("lee", "l@x.com", 444_444, T0 + 4_000);
    assert!(retry.is_ok());
}

#[test]
fn get_user_and_change_username() {
    let mut svc = AuthService::new();
    let code = svc.request_registration("mia", "m@x.com", T0).unwrap();
    let user = svc.verify_registration("mia", "m@x.com", code, T0 + 1_000).unwrap();
    let id = user.id.clone();

    let found = svc.get_user(&id).unwrap();
    assert_eq!(found.username, "mia");
    assert_eq!(found.email, "m@x.com");
    assert!(matches!(
        svc.get_user("ffffffffffffffffffffffff"),
        Err(AppError::UserNotFound)
    ));

    // unknown account
    assert!(matches!(
        svc.change_username("ffffffffffffffffffffffff", "nia"),
        Err(AppError::UserNotFound)
    ));
    // blank new name
    assert!(matches!(svc.change_username(&id, "  "), Err(AppError::InvalidToken)));
    // unchanged name
    assert!(matches!(
        svc.change_username(&id, "mia"),
        Err(AppError::UserAlreadyExists)
    ));
    // name taken by someone else
    let code2 = svc.request_registration("nia", "n@x.com", T0 + 2_000).unwrap();
    svc.verify_registration("nia", "n@x.com", code2, T0 + 3_000).unwrap();
    assert!(matches!(
        svc.change_username(&id, "nia"),
        Err(AppError::UserAlreadyExists)
    ));
    // and a fresh name goes through
    svc.change_username(&id, "mia2").unwrap();
    assert_eq!(svc.get_user(&id).unwrap().username, "mia2");
}

#[test]
fn verification_codes_differ_across_users() {
    // two pending registrations for different emails stay independent
    let mut svc = AuthService::new();
    svc.request_registration_with("olga", "o@x.com", 111_111, T0).unwrap();
    svc.request_registration_with("pete", "p@x.com", 222_222, T0).unwrap();

    assert!(matches!(
        svc.verify_registration("olga", "o@x.com", 222_222, T0 + 1_000),
        Err(AppError::InvalidOrExpiredCode)
    ));
    assert!(svc.verify_registration("olga", "o@x.com", 111_111, T0 + 1_000).is_ok());
    assert!(svc.verify_registration("pete", "p@x.com", 222_222, T0 + 1_000).is_ok());
}

#[test]
fn registration_match_requires_the_same_username() {
    let mut svc = AuthService::new();
    svc.request_registration_with("quinn", "q@x.com", 123_456, T0).unwrap();
    // right email and code, different username: no match
    assert!(matches!(
        svc.verify_registration("quint", "q@x.com", 123_456, T0 + 1_000),
        Err(AppError::InvalidOrExpiredCode)
    ));
}
