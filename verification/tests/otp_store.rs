use backend_insights::otp::OtpStore;

const T0: u64 = 1_700_000_000_000;

#[test]
fn otp_is_zero_padded_to_six_digits() {
    let mut store = OtpStore::new();
    let otp = store.generate_otp_with("u1", 7, T0);
    assert_eq!(otp, "000007");
    let otp2 = store.generate_otp_with("u2", 1_234_567, T0);
    // the raw draw is reduced modulo one million
    assert_eq!(otp2, "234567");
}

#[test]
fn otp_round_trip_and_replay() {
    let mut store = OtpStore::new();
    let otp = store.generate_otp("u1", T0);
    assert_eq!(otp.len(), 6);
    assert!(otp.chars().all(|c| c.is_ascii_digit()));

    assert!(!store.verify_otp("u1", "not it", T0 + 1_000));
    assert!(!store.verify_otp("someone else", &otp, T0 + 1_000));
    assert!(store.verify_otp("u1", &otp, T0 + 1_000));
    // consumed on success
    assert!(!store.verify_otp("u1", &otp, T0 + 2_000));
}

#[test]
fn otp_expires_after_five_minutes() {
    let mut store = OtpStore::new();
    let otp = store.generate_otp_with("u1", 424_242, T0);
    assert!(!store.verify_otp("u1", &otp, T0 + 300_000));
    // a failed check does not consume it
    assert!(store.verify_otp("u1", &otp, T0 + 299_999));
}

#[test]
fn otp_is_superseded_by_a_new_draw() {
    let mut store = OtpStore::new();
    let first = store.generate_otp_with("u1", 111_111, T0);
    let second = store.generate_otp_with("u1", 222_222, T0 + 1_000);
    assert!(!store.verify_otp("u1", &first, T0 + 2_000));
    assert!(store.verify_otp("u1", &second, T0 + 2_000));
}
