use user_model::model::otp::OtpCode;
use user_model::model::recovery_codes::RecoveryCode;
use user_model::model::user::User;
use user_model::model::user::UserBuilder;
use user_model::model::user::UserBuilderError;
use user_model::model::user::UserError;
use user_model::model::user::RECOVERY_CODE_COUNT;
use uuid::Uuid;

fn drawn_letter(c: char) -> bool {
    ('A'..='Y').contains(&c) || ('a'..='y').contains(&c)
}

fn code_of(user_id: Uuid, text: &str) -> RecoveryCode {
    RecoveryCode::build(user_id, Some(text.to_string()), None, None).unwrap()
}

fn codes_of(user: &User) -> Vec<String> {
    user.recovery_codes()
        .iter()
        .map(|rc| rc.code().to_string())
        .collect()
}

#[test]
fn should_build_with_correct_data() {
    let user_id = Uuid::new_v4();
    let email = "testuser@example.com";

    let user = UserBuilder::default()
        .user_id(user_id)
        .email(email.into())
        .build();

    assert!(user.is_ok());

    let user = user.unwrap();

    assert_eq!(user_id, user.user_id());
    assert_eq!(email, user.email());
}

#[test]
fn should_not_build_with_wrong_email() {
    let user_id = Uuid::new_v4();
    let email = "testuser";

    let user = UserBuilder::default()
        .user_id(user_id)
        .email(email.into())
        .build();

    assert!(user.is_err());
}

#[test]
fn should_generate_new_recovery_codes() {
    let user_id = Uuid::new_v4();
    let email = "testuser@example.com";

    let user = UserBuilder::default()
        .user_id(user_id)
        .email(email.into())
        .build()
        .unwrap();

    let user = user.generate_new_recovery_codes().unwrap();

    assert_eq!(user.recovery_codes().len(), RECOVERY_CODE_COUNT);
}

#[test]
fn should_replenish_used_recovery_code() {
    let user_id = Uuid::new_v4();
    let email = "testuser@example.com";

    let user = UserBuilder::default()
        .user_id(user_id)
        .email(email.into())
        .build()
        .unwrap();

    let user = user.generate_new_recovery_codes().unwrap();
    let recovery_code = user.recovery_codes()[0].code().to_string();

    let user = user.use_recovery_code(&recovery_code).unwrap();

    assert_eq!(user.recovery_codes().len(), RECOVERY_CODE_COUNT);
    assert!(user
        .recovery_codes()
        .iter()
        .all(|rc| rc.code() != recovery_code));
}

#[test]
fn should_fail_to_use_invalid_recovery_code() {
    let user_id = Uuid::new_v4();
    let email = "testuser@example.com";

    let user = UserBuilder::default()
        .user_id(user_id)
        .email(email.into())
        .build()
        .unwrap();

    let result = user.generate_new_recovery_codes();

    assert!(result.is_ok());

    let invalid_code = "invalid_code";

    let use_recovery_code_result = user.use_recovery_code(invalid_code);

    assert!(use_recovery_code_result.is_err());
    assert_eq!(
        use_recovery_code_result.unwrap_err(),
        UserError::InvalidRecoveryCode
    );
}

#[test]
fn recovery_code_count_is_four() {
    assert_eq!(RECOVERY_CODE_COUNT, 4);
}

#[test]
fn error_messages() {
    assert_eq!(UserError::InvalidEmail.message(), "Invalid email");
    assert_eq!(
        UserError::InvalidRecoveryCode.message(),
        "Invalid recovery code"
    );
}

#[test]
fn build_accepts_well_formed_emails() {
    for email in [
        "a@b.com",
        "testuser@example.com",
        "weirder-email@here.and.there.com",
        "first.last+tag@sub.example.org",
        "email@[127.0.0.1]",
    ] {
        let user = User::build(Uuid::new_v4(), email.to_string(), None, None);
        assert_eq!(user.unwrap().email(), email);
    }
}

#[test]
fn build_rejects_malformed_emails_with_invalid_email() {
    for email in [
        "",
        "not-an-email",
        "testuser",
        "@",
        "a@",
        "@b.com",
        "a b@c.com",
        "a@b@c.com ",
        "a@-b.com",
    ] {
        let user = User::build(Uuid::new_v4(), email.to_string(), None, None);
        assert_eq!(user.unwrap_err(), UserError::InvalidEmail);
    }
}

#[test]
fn build_rejects_overlong_local_part() {
    let email = format!("{}@example.com", "a".repeat(65));
    let user = User::build(Uuid::new_v4(), email, None, None);
    assert_eq!(user.unwrap_err(), UserError::InvalidEmail);
    let email = format!("{}@example.com", "a".repeat(64));
    assert!(User::build(Uuid::new_v4(), email, None, None).is_ok());
}

#[test]
fn build_scenario_valid_and_invalid_email() {
    assert!(User::build(Uuid::new_v4(), "a@b.com".to_string(), None, None).is_ok());
    let refused = User::build(Uuid::new_v4(), "not-an-email".to_string(), None, None);
    assert_eq!(refused.unwrap_err(), UserError::InvalidEmail);
}

#[test]
fn build_defaults_to_empty_pool_and_no_otp() {
    let user_id = Uuid::new_v4();
    let user = User::build(user_id, "a@b.com".to_string(), None, None).unwrap();
    assert_eq!(user.user_id(), user_id);
    assert!(user.recovery_codes().is_empty());
    assert!(user.otp().is_none());
}

#[test]
fn build_keeps_pool_and_otp() {
    let user_id = Uuid::new_v4();
    let expires = chrono::NaiveDate::from_ymd_opt(2030, 1, 1)
        .unwrap()
        .and_hms_opt(0, 0, 0)
        .unwrap();
    let otp = OtpCode::new(user_id, "123456".to_string(), true, expires);
    let pool = vec![
        code_of(user_id, "aaaaaaaaaaaaaaaa"),
        code_of(user_id, "bbbbbbbbbbbbbbbb"),
    ];
    let user = User::build(user_id, "a@b.com".to_string(), Some(pool), Some(otp)).unwrap();
    assert_eq!(
        codes_of(&user),
        vec!["aaaaaaaaaaaaaaaa", "bbbbbbbbbbbbbbbb"]
    );
    let otp = user.otp().unwrap();
    assert_eq!(otp.user_id(), user_id);
    assert_eq!(otp.code(), "123456");
    assert!(otp.active());
    assert_eq!(otp.expires_at(), expires);
}

#[test]
fn verdict_follows_the_answer() {
    assert_eq!(UserBuilder::verdict(true), Ok(()));
    assert_eq!(UserBuilder::verdict(false), Err("Invalid email".to_string()));
}

#[test]
fn validate_accepts_missing_email() {
    assert_eq!(UserBuilder::default().validate(), Ok(()));
}

#[test]
fn validate_tests_the_email() {
    let mut builder = UserBuilder::default();
    builder.email("a@b.com".to_string());
    assert_eq!(builder.validate(), Ok(()));
    builder.email("not-an-email".to_string());
    assert_eq!(builder.validate(), Err("Invalid email".to_string()));
    builder.email(String::new());
    assert_eq!(builder.validate(), Err("Invalid email".to_string()));
}

#[test]
fn builder_reports_missing_fields_in_order() {
    match UserBuilder::default().build() {
        Err(UserBuilderError::UninitializedField(name)) => assert_eq!(name, "user_id"),
        other => panic!("unexpected result {:?}", other),
    }
    match UserBuilder::default().user_id(Uuid::new_v4()).build() {
        Err(UserBuilderError::UninitializedField(name)) => assert_eq!(name, "email"),
        other => panic!("unexpected result {:?}", other),
    }
    match UserBuilder::default().email("a@b.com".to_string()).build() {
        Err(UserBuilderError::UninitializedField(name)) => assert_eq!(name, "user_id"),
        other => panic!("unexpected result {:?}", other),
    }
}

#[test]
fn user_builder_validates_before_it_looks_for_missing_fields() {
    match UserBuilder::default().email("testuser".to_string()).build() {
        Err(UserBuilderError::ValidationError(reason)) => assert_eq!(reason, "Invalid email"),
        other => panic!("unexpected result {:?}", other),
    }
}

#[test]
fn builder_keeps_pool_and_otp() {
    let user_id = Uuid::new_v4();
    let expires = chrono::NaiveDate::from_ymd_opt(2030, 1, 1)
        .unwrap()
        .and_hms_opt(0, 0, 0)
        .unwrap();
    let user = UserBuilder::default()
        .user_id(user_id)
        .email("a@b.com".to_string())
        .recovery_codes(vec![code_of(user_id, "cccccccccccccccc")])
        .otp(Some(OtpCode::new(user_id, "654321".to_string(), false, expires)))
        .build()
        .unwrap();
    assert_eq!(codes_of(&user), vec!["cccccccccccccccc"]);
    assert_eq!(user.otp().unwrap().code(), "654321");
    assert!(!user.otp().unwrap().active());
}

#[test]
fn generate_on_empty_pool_gives_four_codes_of_sixteen() {
    let user_id = Uuid::new_v4();
    let user = User::build(user_id, "a@b.com".to_string(), None, None).unwrap();
    assert_eq!(user.recovery_codes().len(), 0);
    let next = user.generate_new_recovery_codes().unwrap();
    assert_eq!(next.recovery_codes().len(), 4);
    for rc in next.recovery_codes() {
        assert_eq!(rc.code().chars().count(), 16);
        assert!(rc.code().chars().all(drawn_letter));
        assert_eq!(rc.user_id(), user_id);
        assert!(!rc.active());
    }
    assert_eq!(user.recovery_codes().len(), 0);
}

#[test]
fn generate_replaces_the_prior_pool() {
    let user_id = Uuid::new_v4();
    let pool = vec![
        code_of(user_id, "1111111111111111"),
        code_of(user_id, "2222222222222222"),
        code_of(user_id, "3333333333333333"),
        code_of(user_id, "4444444444444444"),
        code_of(user_id, "5555555555555555"),
    ];
    let user = User::build(user_id, "a@b.com".to_string(), Some(pool), None).unwrap();
    let next = user.generate_new_recovery_codes().unwrap();
    assert_eq!(next.recovery_codes().len(), 4);
    for code in codes_of(&next) {
        assert!(!codes_of(&user).contains(&code));
    }
    assert_eq!(next.email(), "a@b.com");
    assert_eq!(next.user_id(), user_id);
    assert_eq!(codes_of(&user).len(), 5);
}

#[test]
fn generate_with_explicit_count() {
    let user = User::build(Uuid::new_v4(), "a@b.com".to_string(), None, None).unwrap();
    assert_eq!(user.generate_recovery_codes(0).unwrap().recovery_codes().len(), 0);
    assert_eq!(user.generate_recovery_codes(1).unwrap().recovery_codes().len(), 1);
    assert_eq!(user.generate_recovery_codes(7).unwrap().recovery_codes().len(), 7);
}

#[test]
fn use_keeps_the_other_three_codes() {
    let user = User::build(Uuid::new_v4(), "a@b.com".to_string(), None, None)
        .unwrap()
        .generate_new_recovery_codes()
        .unwrap();
    let before = codes_of(&user);
    let used = before[1].clone();
    let next = user.use_recovery_code(&used).unwrap();
    let after = codes_of(&next);
    assert_eq!(after.len(), 4);
    assert!(!after.contains(&used));
    assert_eq!(after[0], before[0]);
    assert_eq!(after[1], before[2]);
    assert_eq!(after[2], before[3]);
    assert_eq!(after[3].chars().count(), 16);
    assert!(after[3].chars().all(drawn_letter));
    assert_eq!(next.recovery_codes()[3].user_id(), user.user_id());
    assert!(!next.recovery_codes()[3].active());
    assert_eq!(codes_of(&user), before);
}

#[test]
fn use_of_a_code_never_issued_fails() {
    let user = User::build(Uuid::new_v4(), "a@b.com".to_string(), None, None)
        .unwrap()
        .generate_new_recovery_codes()
        .unwrap();
    let before = codes_of(&user);
    let result = user.use_recovery_code("0000000000000000");
    assert_eq!(result.unwrap_err(), UserError::InvalidRecoveryCode);
    assert_eq!(codes_of(&user), before);
}

#[test]
fn use_on_empty_pool_fails() {
    let user = User::build(Uuid::new_v4(), "a@b.com".to_string(), None, None).unwrap();
    assert_eq!(
        user.use_recovery_code("").unwrap_err(),
        UserError::InvalidRecoveryCode
    );
}

#[test]
fn use_matches_the_exact_text_only() {
    let user_id = Uuid::new_v4();
    let pool = vec![code_of(user_id, "abcdefghijklmnop")];
    let user = User::build(user_id, "a@b.com".to_string(), Some(pool), None).unwrap();
    assert!(!user.holds_recovery_code("ABCDEFGHIJKLMNOP"));
    assert!(!user.holds_recovery_code("abcdefghijklmno"));
    assert!(user.holds_recovery_code("abcdefghijklmnop"));
    assert!(user.use_recovery_code("abcdefghijklmnop ").is_err());
    assert!(user.use_recovery_code("abcdefghijklmnop").is_ok());
}

#[test]
fn replace_puts_the_fresh_code_last() {
    let user_id = Uuid::new_v4();
    let pool = vec![
        code_of(user_id, "aaaaaaaaaaaaaaaa"),
        code_of(user_id, "bbbbbbbbbbbbbbbb"),
        code_of(user_id, "cccccccccccccccc"),
    ];
    let user = User::build(user_id, "a@b.com".to_string(), Some(pool), None).unwrap();
    let next = user
        .replace_recovery_code("bbbbbbbbbbbbbbbb", code_of(user_id, "dddddddddddddddd"))
        .unwrap();
    assert_eq!(
        codes_of(&next),
        vec!["aaaaaaaaaaaaaaaa", "cccccccccccccccc", "dddddddddddddddd"]
    );
    assert_eq!(next.email(), "a@b.com");
    assert_eq!(next.user_id(), user_id);
}

#[test]
fn replace_drops_every_entry_that_carries_the_code() {
    let user_id = Uuid::new_v4();
    let pool = vec![
        code_of(user_id, "aaaaaaaaaaaaaaaa"),
        code_of(user_id, "bbbbbbbbbbbbbbbb"),
        code_of(user_id, "aaaaaaaaaaaaaaaa"),
    ];
    let user = User::build(user_id, "a@b.com".to_string(), Some(pool), None).unwrap();
    let next = user
        .replace_recovery_code("aaaaaaaaaaaaaaaa", code_of(user_id, "dddddddddddddddd"))
        .unwrap();
    assert_eq!(
        codes_of(&next),
        vec!["bbbbbbbbbbbbbbbb", "dddddddddddddddd"]
    );
}

#[test]
fn replace_with_the_same_text_keeps_the_code_in_the_pool() {
    let user_id = Uuid::new_v4();
    let pool = vec![code_of(user_id, "aaaaaaaaaaaaaaaa")];
    let user = User::build(user_id, "a@b.com".to_string(), Some(pool), None).unwrap();
    let next = user
        .replace_recovery_code("aaaaaaaaaaaaaaaa", code_of(user_id, "aaaaaaaaaaaaaaaa"))
        .unwrap();
    assert_eq!(codes_of(&next), vec!["aaaaaaaaaaaaaaaa"]);
}

#[test]
fn replace_of_an_absent_code_fails() {
    let user_id = Uuid::new_v4();
    let pool = vec![code_of(user_id, "aaaaaaaaaaaaaaaa")];
    let user = User::build(user_id, "a@b.com".to_string(), Some(pool), None).unwrap();
    let result =
        user.replace_recovery_code("bbbbbbbbbbbbbbbb", code_of(user_id, "dddddddddddddddd"));
    assert_eq!(result.unwrap_err(), UserError::InvalidRecoveryCode);
    assert_eq!(codes_of(&user), vec!["aaaaaaaaaaaaaaaa"]);
}

#[test]
fn transitions_keep_the_otp() {
    let user_id = Uuid::new_v4();
    let expires = chrono::NaiveDate::from_ymd_opt(2031, 6, 15)
        .unwrap()
        .and_hms_opt(8, 0, 0)
        .unwrap();
    let otp = OtpCode::new(user_id, "998877".to_string(), true, expires);
    let user = User::build(user_id, "a@b.com".to_string(), None, Some(otp)).unwrap();
    let next = user.generate_new_recovery_codes().unwrap();
    assert_eq!(next.otp().unwrap().code(), "998877");
    let used = next.recovery_codes()[0].code().to_string();
    let last = next.use_recovery_code(&used).unwrap();
    assert_eq!(last.otp().unwrap().code(), "998877");
    assert_eq!(last.otp().unwrap().expires_at(), expires);
}

#[test]
fn user_clone_is_equal_in_every_field() {
    let user = User::build(Uuid::new_v4(), "a@b.com".to_string(), None, None)
        .unwrap()
        .generate_new_recovery_codes()
        .unwrap();
    let copy = user.clone();
    assert_eq!(copy.user_id(), user.user_id());
    assert_eq!(copy.email(), user.email());
    assert_eq!(codes_of(&copy), codes_of(&user));
    assert!(copy.otp().is_none());
}

#[test]
fn otp_clone_is_equal_in_every_field() {
    let user_id = Uuid::new_v4();
    let expires = chrono::NaiveDate::from_ymd_opt(2029, 12, 31)
        .unwrap()
        .and_hms_opt(23, 59, 59)
        .unwrap();
    let otp = OtpCode::new(user_id, "000111".to_string(), false, expires);
    let copy = otp.clone();
    assert_eq!(copy.user_id(), user_id);
    assert_eq!(copy.code(), "000111");
    assert!(!copy.active());
    assert_eq!(copy.expires_at(), expires);
}
