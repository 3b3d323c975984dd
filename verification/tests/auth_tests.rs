use session_engine::auth::{
    accepts, check_registration, login_failure, login_outcome, new_claims, register_failure,
    registration_outcome, token_expiry, token_failure, validate_email, validate_generic,
    validate_username, LoginError, LoginMessage, LoginPayload, RegisterError, RegisterMessage,
    RegisterPayload,
};

#[test]
fn usernames_are_letters_digits_and_underscores() {
    assert!(validate_username("alice_01"));
    assert!(validate_username("A"));
    assert!(!validate_username(""));
    assert!(!validate_username("al ice"));
    assert!(!validate_username("alice!"));
    assert!(!validate_username("alice\n"));
    assert!(!validate_username("żółw"));
}

#[test]
fn emails_need_a_name_a_host_and_a_domain() {
    assert!(validate_email("a.b+c@example.org"));
    assert!(!validate_email("a@b"));
    assert!(!validate_email("@example.org"));
    assert!(!validate_email("a@example.o"));
    assert!(!validate_email("a b@example.org"));
}

#[test]
fn generic_text_has_no_markup_characters() {
    assert!(validate_generic("pass word 123!"));
    assert!(!validate_generic(""));
    assert!(!validate_generic("a<b"));
    assert!(!validate_generic("a>b"));
    assert!(!validate_generic("it's"));
    assert!(!validate_generic("say \"x\""));
    assert!(!validate_generic("a&b"));
}

#[test]
fn only_a_plain_yes_is_accepted() {
    assert!(accepts(Some(true)));
    assert!(!accepts(Some(false)));
    assert!(!accepts(None));
}

#[test]
fn registration_form_is_checked_before_the_store_is_asked() {
    let good = RegisterMessage { username: String::from("bob"), password: String::from("secret1") };
    assert!(check_registration(&good).is_ok());
    let bad_name = RegisterMessage { username: String::from("b ob"), password: String::from("x") };
    assert!(matches!(check_registration(&bad_name), Err(RegisterError::ForbiddenFormat)));
    let bad_password = RegisterMessage { username: String::from("bob"), password: String::from("<x>") };
    assert!(matches!(check_registration(&bad_password), Err(RegisterError::ForbiddenFormat)));
}

#[test]
fn registration_outcome_names_what_went_wrong() {
    assert!(registration_outcome(true, true).is_ok());
    assert!(matches!(registration_outcome(false, true), Err(RegisterError::UsernameAlreadyRegistered)));
    assert!(matches!(registration_outcome(false, false), Err(RegisterError::UsernameAlreadyRegistered)));
    assert!(matches!(registration_outcome(true, false), Err(RegisterError::InternalError)));
}

#[test]
fn login_outcome_names_what_went_wrong() {
    assert!(login_outcome(true, Some(true)).is_ok());
    assert!(matches!(login_outcome(true, Some(false)), Err(LoginError::InvalidCredentials)));
    assert!(matches!(login_outcome(true, None), Err(LoginError::InternalError)));
    assert!(matches!(login_outcome(false, Some(true)), Err(LoginError::InvalidCredentials)));
    assert!(matches!(login_outcome(false, None), Err(LoginError::InvalidCredentials)));
}

#[test]
fn token_runs_out_two_days_after_it_was_issued() {
    assert_eq!(token_expiry(0), Some(172_800));
    assert_eq!(token_expiry(1_700_000_000), Some(1_700_172_800));
    assert_eq!(token_expiry(-172_800), Some(0));
    assert_eq!(token_expiry(-172_801), None);
    assert_eq!(token_expiry(i64::MIN), None);
    assert_eq!(token_expiry(i64::MAX), Some(i64::MAX as usize + 172_800));
}

#[test]
fn claims_hold_name_bearer_and_expiry() {
    let claims = new_claims("bob", 7, 99);
    assert_eq!((claims.username.as_str(), claims.sub, claims.exp), ("bob", 7, 99));
}

#[test]
fn login_failures_are_reported_with_their_status() {
    let report = login_failure(&LoginError::InvalidCredentials);
    assert_eq!(
        (report.message.as_str(), report.status, report.variant.as_str()),
        ("Invalid credentials", 401, "ValidationError")
    );
    let report = login_failure(&LoginError::InternalError);
    assert_eq!(
        (report.message.as_str(), report.status, report.variant.as_str()),
        ("Internal server error", 500, "InternalError")
    );
    let report = login_failure(&LoginError::DatabaseError(String::from("down")));
    assert_eq!((report.message.as_str(), report.status), ("Internal server error", 500));
    let report = token_failure();
    assert_eq!(
        (report.message.as_str(), report.status, report.variant.as_str()),
        ("Failed to generate token", 500, "InternalError")
    );
}

#[test]
fn register_failures_are_reported_with_their_status() {
    let report = register_failure(&RegisterError::ForbiddenFormat);
    assert_eq!(
        (report.message.as_str(), report.status, report.variant.as_str()),
        ("Invalid format", 400, "ValidationError")
    );
    let report = register_failure(&RegisterError::UsernameAlreadyRegistered);
    assert_eq!(
        (report.message.as_str(), report.status, report.variant.as_str()),
        ("Username already registered", 409, "FieldTaken")
    );
    let report = register_failure(&RegisterError::DieselError(String::from("connection lost")));
    assert_eq!(
        (report.message.as_str(), report.status, report.variant.as_str()),
        ("Database error: connection lost", 500, "InternalServerError")
    );
    let report = register_failure(&RegisterError::InternalError);
    assert_eq!(
        (report.message.as_str(), report.status, report.variant.as_str()),
        ("Something went wrong", 500, "InternalServerError")
    );
}

#[test]
fn auth_errors_describe_themselves() {
    assert_eq!(RegisterError::ForbiddenFormat.describe(), "Forbidden format");
    assert_eq!(RegisterError::UsernameAlreadyRegistered.describe(), "Username already registered");
    assert_eq!(RegisterError::InternalError.describe(), "Internal error");
    assert_eq!(RegisterError::DieselError(String::new()).describe(), "Diesel error");
    assert_eq!(LoginError::InvalidCredentials.describe(), "Invalid credentials");
    assert_eq!(LoginError::InternalError.describe(), "Internal error");
    assert_eq!(LoginError::DatabaseError(String::new()).describe(), "Database error");
}

#[test]
fn payloads_and_messages_hold_name_and_password() {
    let login = LoginPayload { username: String::from("u"), password: String::from("p") };
    let message = LoginMessage { username: login.username, password: login.password };
    assert_eq!((message.username.as_str(), message.password.as_str()), ("u", "p"));
    let register = RegisterPayload { username: String::from("u"), password: String::from("p") };
    let message = RegisterMessage { username: register.username, password: register.password };
    assert_eq!((message.username.as_str(), message.password.as_str()), ("u", "p"));
}

use session_engine::auth::token_from_query;

#[test]
fn token_is_read_from_the_first_token_parameter() {
    assert_eq!(token_from_query("token=abc"), Some(String::from("abc")));
    assert_eq!(token_from_query("a=1&token=xyz&b=2"), Some(String::from("xyz")));
    assert_eq!(token_from_query("token=first&token=second"), Some(String::from("first")));
    assert_eq!(token_from_query("token="), Some(String::new()));
    assert_eq!(token_from_query("x&token=&y"), Some(String::new()));
}

#[test]
fn token_ends_at_the_next_equals_sign() {
    assert_eq!(token_from_query("token=abc=def"), Some(String::from("abc")));
    assert_eq!(token_from_query("token==x"), Some(String::new()));
}

#[test]
fn query_without_token_parameter_carries_none() {
    assert_eq!(token_from_query(""), None);
    assert_eq!(token_from_query("a=1&b=2"), None);
    assert_eq!(token_from_query("token"), None);
    assert_eq!(token_from_query("xtoken=abc"), None);
    assert_eq!(token_from_query("a=token=abc"), None);
    assert_eq!(token_from_query("toke=n"), None);
    assert_eq!(token_from_query("&&"), None);
}

#[test]
fn token_may_hold_text_beyond_ascii() {
    assert_eq!(token_from_query("ż=ó&token=łódź€&x"), Some(String::from("łódź€")));
}
