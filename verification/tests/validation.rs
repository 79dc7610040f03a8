use tasks_authenticated::errors::Error;
use tasks_authenticated::models::auth::{AuthResponse, LoginUser, RegisterUser};
use tasks_authenticated::models::tasks::{NewTask, UpdateTask};
use tasks_authenticated::models::validator::{frame, has_length, report, Validate, Violation};
use tasks_authenticated::models::Validator;
use tasks_authenticated::router::health;

fn registration(email: &str, username: &str, password: &str, confirm: &str) -> RegisterUser {
    RegisterUser {
        email: email.into(),
        username: username.into(),
        password: password.into(),
        confirm_password: confirm.into(),
    }
}

fn violation(field: &str, message: &str) -> Violation {
    (field.to_string(), message.to_string())
}

#[test]
fn a_body_that_keeps_the_rules_is_handed_out() {
    let body = registration("user1@mail.com", "user1", "Password", "Password");
    let validator = Validator::new(body.clone());
    assert_eq!(validator.validate(), Ok(&body));
    assert_eq!(validator.0, body);
}

#[test]
fn every_broken_rule_is_reported_by_field() {
    let body = registration("nope", "abcd", "short", "other");
    assert_eq!(
        body.validate(),
        vec![
            violation("confirm_password", "Field error"),
            violation("email", "Invalid email"),
            violation("password", "Password must be between 8 to 48 characters long"),
            violation("username", "Username must be between 5 to 50 characters long"),
        ]
    );
}

#[test]
fn the_report_is_a_json_object() {
    let body = registration("nope", "user1", "Password", "password");
    assert_eq!(
        Validator::new(body).validate(),
        Err(Error::Validation(
            "{\"confirm_password\":\"Field error\",\"email\":\"Invalid email\"}".to_string()
        ))
    );
}

#[test]
fn a_report_of_one_rule_has_no_comma() {
    let body = NewTask { title: "milk".into(), done: false };
    let failure = Validator::new(body).validate().unwrap_err();
    assert_eq!(
        failure,
        Error::Validation(
            "{\"title\":\"Title must be between 5 to 255 characters\"}".to_string()
        )
    );
    assert_eq!(failure.response().status, 422);
    assert_eq!(
        failure.response().body.message,
        "{\"title\":\"Title must be between 5 to 255 characters\"}"
    );
}

#[test]
fn a_report_escapes_what_json_wants_escaped() {
    let list = vec![violation("na\"me", "line\nbreak \\ tab\t"), violation("b", "é")];
    assert_eq!(report(&list), "{\"na\\\"me\":\"line\\nbreak \\\\ tab\\t\",\"b\":\"é\"}");
    assert_eq!(report(&vec![]), "{}");
}

#[test]
fn usernames_have_five_to_fifty_characters() {
    let with = |username: &str| registration("user1@mail.com", username, "Password", "Password");
    let complaint = vec![violation(
        "username",
        "Username must be between 5 to 50 characters long",
    )];
    assert_eq!(with("abcd").validate(), complaint);
    assert_eq!(with("abcde").validate(), vec![]);
    assert_eq!(with(&"a".repeat(50)).validate(), vec![]);
    assert_eq!(with(&"a".repeat(51)).validate(), complaint);
    assert_eq!(with("").validate(), complaint);
}

#[test]
fn passwords_have_eight_to_forty_eight_characters() {
    let with = |password: &str| registration("user1@mail.com", "user1", password, password);
    let complaint = vec![violation(
        "password",
        "Password must be between 8 to 48 characters long",
    )];
    assert_eq!(with("1234567").validate(), complaint);
    assert_eq!(with("12345678").validate(), vec![]);
    assert_eq!(with(&"p".repeat(48)).validate(), vec![]);
    assert_eq!(with(&"p".repeat(49)).validate(), complaint);
}

#[test]
fn length_counts_characters_not_bytes() {
    assert!(has_length("héllo", 5, 5));
    assert!(!has_length("héllo", 6, 6));
    assert!(has_length("", 0, 0));
    assert!(!has_length("", 1, 9));
    assert!(!has_length("abc", 5, 2));
    let body = NewTask { title: "ééééé".into(), done: false };
    assert_eq!(body.validate(), vec![]);
}

#[test]
fn the_confirmation_must_match_the_password() {
    let body = registration("user1@mail.com", "user1", "Password", "Passwort");
    assert_eq!(body.validate(), vec![violation("confirm_password", "Field error")]);
}

#[test]
fn emails_are_judged_by_their_form() {
    let with = |email: &str| LoginUser { email: email.into(), password: "x".into() };
    let complaint = vec![violation("email", "Invalid email")];
    assert_eq!(with("user1@mail.com").validate(), vec![]);
    assert_eq!(with("first.last+tag@sub.example.org").validate(), vec![]);
    assert_eq!(with("").validate(), complaint);
    assert_eq!(with("user1").validate(), complaint);
    assert_eq!(with("user1@").validate(), complaint);
    assert_eq!(with("@mail.com").validate(), complaint);
    assert_eq!(with("user 1@mail.com").validate(), complaint);
}

#[test]
fn a_login_needs_a_password() {
    let body = LoginUser { email: "user1@mail.com".into(), password: "".into() };
    assert_eq!(body.validate(), vec![violation("password", "Password is required")]);
    let both = LoginUser { email: "x".into(), password: "".into() };
    assert_eq!(
        Validator::new(both).validate(),
        Err(Error::Validation(
            "{\"email\":\"Invalid email\",\"password\":\"Password is required\"}".to_string()
        ))
    );
}

#[test]
fn titles_have_five_to_255_characters() {
    let complaint = vec![violation("title", "Title must be between 5 to 255 characters")];
    let new = |title: &str| NewTask { title: title.into(), done: false };
    assert_eq!(new("milk").validate(), complaint);
    assert_eq!(new("bread").validate(), vec![]);
    assert_eq!(new(&"t".repeat(255)).validate(), vec![]);
    assert_eq!(new(&"t".repeat(256)).validate(), complaint);
    let change = |title: Option<&str>| UpdateTask { title: title.map(str::to_string), done: true };
    assert_eq!(change(None).validate(), vec![]);
    assert_eq!(change(Some("milk")).validate(), complaint);
    assert_eq!(change(Some("bread")).validate(), vec![]);
    assert_eq!(change(Some(&"t".repeat(256))).validate(), complaint);
    let kept = change(None);
    assert_eq!(Validator::new(kept.clone()).validate(), Ok(&kept));
}

#[test]
fn answers_carry_their_message() {
    assert_eq!(
        AuthResponse::new("Account created successful. Verify email").message,
        "Account created successful. Verify email"
    );
    assert_eq!(health().message, "Server is up and running");
}

#[test]
fn the_judgement_on_the_email_decides_its_rule() {
    let body = registration("anything", "user1", "Password", "Password");
    assert_eq!(body.check(true), vec![]);
    assert_eq!(body.check(false), vec![violation("email", "Invalid email")]);
    let login = LoginUser { email: "anything".into(), password: "".into() };
    assert_eq!(login.check(true), vec![violation("password", "Password is required")]);
    assert_eq!(
        login.check(false),
        vec![violation("email", "Invalid email"), violation("password", "Password is required")]
    );
}

#[test]
fn members_are_framed_as_an_object() {
    assert_eq!(frame(&vec![]), "{}");
    assert_eq!(frame(&vec![violation("\"a\"", "1")]), "{\"a\":1}");
    assert_eq!(
        frame(&vec![violation("\"a\"", "1"), violation("\"b\"", "\"x\""), violation("c", "")]),
        "{\"a\":1,\"b\":\"x\",c:}"
    );
}
