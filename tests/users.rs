use katas::users::dtos::{UserLoginRequest, UserLoginResponse, UserRegisterRequest, UserRegisterResponse};
use katas::users::email::{Email, EmailError};
use katas::users::hashing::hash;
use katas::users::id::{uuid_text, Id, InvalidIdError};
use katas::users::login_service::{LoginError, UserLoginService};
use katas::users::password::{strength_errors_of, Password, PasswordError, PasswordErrorType};
use katas::users::pattern::is_found;
use katas::users::register_service::{RegisterError, UserRegisterService};
use katas::users::repository::{InMemoryUserRepository, UserRepository};
use katas::users::user::{EqualPasswordError, User, UserDto};
use regex::Regex;

const UUID_PATTERN: &str =
    r"^[0-9a-fA-F]{8}-[0-9a-fA-F]{4}-[0-9a-fA-F]{4}-[0-9a-fA-F]{4}-[0-9a-fA-F]{12}$";

#[test]
fn email_create_email_with_correct_format() {
    let email = Email::new(String::from("example@example.com"));
    assert_eq!(
        email.unwrap().to_string(),
        String::from("example@example.com")
    );
}

#[test]
fn email_fails_creating_with_invalid_format() {
    let email = Email::new("invalid".to_string());
    assert_eq!(email.unwrap_err(), EmailError::InvalidFormat);
}

#[test]
fn two_emails_with_same_address_should_be_equal() {
    assert_eq!(
        Email::new("test@example.com".to_string()).unwrap(),
        Email::new("test@example.com".to_string()).unwrap()
    );
}

#[test]
fn two_emails_with_different_address_should_not_be_equal() {
    assert_ne!(
        Email::new("tes@example.com".to_string()).unwrap(),
        Email::new("test@example.com".to_string()).unwrap()
    );
}

#[test]
fn email_rejects_missing_top_level_domain() {
    assert_eq!(
        Email::new("test@examplecom".to_string()).unwrap_err(),
        EmailError::InvalidFormat
    );
    assert!(Email::new("first.last-1@mail.example.org".to_string()).is_ok());
}

#[test]
fn id_generates_valid_identifier() {
    let id = Id::generate_unique_identifier();
    let uuid_regex = Regex::new(
        r"^[0-9a-fA-F]{8}-[0-9a-fA-F]{4}-[0-9a-fA-F]{4}-[0-9a-fA-F]{4}-[0-9a-fA-F]{12}$",
    )
    .unwrap();
    assert!(uuid_regex.is_match(&id.to_string()));
}

#[test]
fn generated_identifiers_differ() {
    let a = Id::generate_unique_identifier();
    let b = Id::generate_unique_identifier();
    assert_ne!(a, b);
    assert!(Id::from(a.to_string()).is_ok());
}

#[test]
fn id_create_id_from_valid_identifier() {
    let uuid = "3e1f1e36-ecb3-42bd-9f6b-a4d6d0835495".to_string();
    let id = Id::from(uuid.clone());

    assert_eq!(id.unwrap().to_string(), uuid);
}

#[test]
fn id_does_not_allow_to_create_from_invalid_identifier() {
    assert_eq!(Id::from("invalid-id".to_string()), Err(InvalidIdError {}));
}

#[test]
fn id_two_ids_with_same_identifier_should_be_equal() {
    let id1 = Id::from("d7ee4068-42c3-4787-8701-707e4ce145cf".to_string());
    let id2 = Id::from("d7ee4068-42c3-4787-8701-707e4ce145cf".to_string());

    assert_eq!(id1, id2);
}

#[test]
fn id_two_ids_with_different_identifier_should_not_be_equal() {
    let id1 = Id::from("c7d51220-93d0-4b85-be13-7a02b598aa0e".to_string());
    let id2 = Id::from("d7ee4068-42c3-4787-8701-707e4ce145cf".to_string());

    assert_ne!(id1, id2);
}

#[test]
fn uuid_text_places_digits_and_dashes() {
    let nibbles: Vec<u8> = (0..32).map(|k| (k % 16) as u8).collect();
    let text = uuid_text(&nibbles);
    assert_eq!(text, "01234567-89ab-cdef-0123-456789abcdef");
    assert!(Regex::new(UUID_PATTERN).unwrap().is_match(&text));
}

#[test]
fn creates_correct_password() {
    assert!(Password::new(String::from("SecurePass123_")).is_ok());
}

#[test]
fn fails_creating_with_short_password() {
    assert_eq!(
        Password::new(String::from("1aA_")),
        Err(PasswordError {
            errors: vec![PasswordErrorType::TooShort]
        })
    );
}

#[test]
fn fails_creating_when_missing_a_number() {
    assert_eq!(
        Password::new(String::from("aaaaaA_")),
        Err(PasswordError {
            errors: vec![PasswordErrorType::MustContainNumber]
        })
    )
}

#[test]
fn fails_when_missing_lowercase() {
    assert_eq!(
        Password::new(String::from("1234A_")),
        Err(PasswordError {
            errors: vec![PasswordErrorType::MustContainLowercase]
        })
    )
}

#[test]
fn fails_when_missing_uppercase() {
    assert_eq!(
        Password::new(String::from("1234a_")),
        Err(PasswordError {
            errors: vec![PasswordErrorType::MustContainUppercase]
        })
    )
}

#[test]
fn fails_when_missing_underscore() {
    assert_eq!(
        Password::new(String::from("1234aA")),
        Err(PasswordError {
            errors: vec![PasswordErrorType::MustContainUnderscore]
        })
    )
}

#[test]
fn fails_when_missing_several_requirements() {
    assert_eq!(
        Password::new(String::from("abc")),
        Err(PasswordError {
            errors: vec![
                PasswordErrorType::TooShort,
                PasswordErrorType::MustContainNumber,
                PasswordErrorType::MustContainUppercase,
                PasswordErrorType::MustContainUnderscore
            ]
        })
    )
}

#[test]
fn ensures_password_is_hashed() {
    let password = Password::new(String::from("SecurePass123_")).unwrap();
    let hashed_value = password.to_string();

    let regex = Regex::new(r"[a-f-F0-9]{64}").unwrap();

    assert_ne!(hashed_value, String::from("SecurePass123_"));
    assert_eq!(hashed_value.len(), 64);
    assert!(regex.is_match(&hashed_value));
}

#[test]
fn matches_for_two_same_passwords() {
    let a_password = Password::new("SecurePass123_".to_string());
    let another_password = Password::new("SecurePass123_".to_string());

    assert_eq!(a_password, another_password);
}

#[test]
fn does_not_match_for_two_different_passwords() {
    let a_password = Password::new("SecurePass123_".to_string());
    let another_password = Password::new("SecurePass12_".to_string());

    assert_ne!(a_password, another_password);
}

#[test]
fn password_length_counts_bytes() {
    assert!(Password::new(String::from("ñA1_a")).is_ok());
    assert_eq!(
        Password::new(String::from("aA1_b")),
        Err(PasswordError {
            errors: vec![PasswordErrorType::TooShort]
        })
    );
}

#[test]
fn strength_errors_follow_the_checks() {
    assert_eq!(strength_errors_of(true, true, true, true, true), vec![]);
    assert_eq!(
        strength_errors_of(false, true, false, true, false),
        vec![
            PasswordErrorType::TooShort,
            PasswordErrorType::MustContainLowercase,
            PasswordErrorType::MustContainUnderscore
        ]
    );
}

#[test]
fn password_error_messages() {
    let error = PasswordError {
        errors: vec![PasswordErrorType::TooShort, PasswordErrorType::MustContainNumber],
    };
    assert_eq!(error.to_string(), "Password is too short, must contain a number");
    assert_eq!(
        PasswordErrorType::MustContainUnderscore.to_string(),
        "must contain an underscore"
    );
}

#[test]
fn hash_is_the_sha256_hex_digest() {
    assert_eq!(
        hash("abc"),
        "ba7816bf8f01cfea414140de5dae2223b00361a396177a9cb410ff61f20015ad"
    );
    assert_eq!(
        Password::new("SecurePass123_".to_string()).unwrap().to_string(),
        hash("SecurePass123_")
    );
}

#[test]
fn patterns_search_anywhere_and_bad_patterns_find_nothing() {
    assert!(is_found(r"\d", "abc1"));
    assert!(!is_found(r"\d", "abc"));
    assert!(!is_found(r"(", "("));
}

fn create_user() -> User {
    let id = Id::generate_unique_identifier();
    let email = Email::new("test@example.com".to_string()).unwrap();
    let password = Password::new("SafePass123_".to_string()).unwrap();

    User::new(id, email, password)
}

#[test]
fn changes_password_when_different_provided() {
    let mut user = create_user();

    let _ = user.change_password(Password::new("AnotherSafePass123_".to_string()).unwrap());

    assert!(user.is_matching_password(&Password::new("AnotherSafePass123_".to_string()).unwrap()))
}

#[test]
fn does_not_allow_to_change_with_same_password() {
    let mut user = create_user();

    assert_eq!(
        user.change_password(Password::new("SafePass123_".to_string()).unwrap()),
        Err(EqualPasswordError {})
    );
}

#[test]
fn user_exposes_its_fields() {
    let id = Id::from("3e1f1e36-ecb3-42bd-9f6b-a4d6d0835495".to_string()).unwrap();
    let user = User::new(
        id,
        Email::new("test@example.com".to_string()).unwrap(),
        Password::new("SafePass123_".to_string()).unwrap(),
    );
    assert_eq!(user.id(), "3e1f1e36-ecb3-42bd-9f6b-a4d6d0835495");
    assert_eq!(user.email(), "test@example.com");
    assert_eq!(user.password(), hash("SafePass123_"));
    let dto: UserDto = user.to_dto();
    assert_eq!(dto.id, "3e1f1e36-ecb3-42bd-9f6b-a4d6d0835495");
    assert_eq!(dto.email, "test@example.com");
    let response = UserRegisterResponse::from(user.to_dto());
    assert_eq!(
        response.to_string(),
        "id: 3e1f1e36-ecb3-42bd-9f6b-a4d6d0835495, email: test@example.com"
    );
    let response = UserLoginResponse::from(dto);
    assert_eq!(response.email, "test@example.com");
}

fn create_user_by_id(id: Id) -> User {
    let email = Email::new("test@example.com".to_string()).unwrap();
    let password = Password::new("SafePass123_".to_string()).unwrap();
    User::new(id, email, password)
}

fn create_user_by_email(email: Email) -> User {
    let id = Id::generate_unique_identifier();
    let password = Password::new("SafePass123_".to_string()).unwrap();
    User::new(id, email, password)
}

#[test]
fn find_user_by_id() {
    let id = Id::generate_unique_identifier();
    let user = create_user_by_id(id.clone());

    let mut repo = InMemoryUserRepository::new();
    let _res = repo.save(user.clone());

    let found_user = repo.find_by_id(id.clone());

    assert_eq!(found_user, Ok(Some(user)));
}

#[test]
fn find_user_by_email() {
    let email = Email::new("test@example.com".to_string()).unwrap();
    let user = create_user_by_email(email.clone());

    let mut repo = InMemoryUserRepository::new();
    let _res = repo.save(user.clone());

    let found_user = repo.find_by_email(email.clone());

    assert_eq!(found_user, Ok(Some(user)));
}

#[test]
fn does_not_find_non_existing_user_by_id() {
    let id = Id::generate_unique_identifier();

    let repo = InMemoryUserRepository::new();

    let found_user = repo.find_by_id(id.clone());

    assert_eq!(found_user, Ok(None));
}

#[test]
fn does_not_find_non_existing_user_by_email() {
    let email = Email::new("test@example.com".to_string()).unwrap();

    let repo = InMemoryUserRepository::new();

    let found_user = repo.find_by_email(email.clone());

    assert_eq!(found_user, Ok(None));
}

#[test]
fn finds_all_users() {
    let a_user = create_user_by_email(Email::new("test1@example.com".to_string()).unwrap());
    let another_user = create_user_by_email(Email::new("test2@example.com".to_string()).unwrap());
    let mut repo = InMemoryUserRepository::new();

    let _ = repo.save(a_user.clone());
    let _ = repo.save(another_user.clone());

    let users = repo.find_all();

    assert_eq!(users.as_ref().unwrap().len(), 2);
    assert_eq!(users, Ok(vec![a_user.clone(), another_user.clone()]));
}

#[test]
fn finds_no_users_when_empty() {
    let repo = InMemoryUserRepository::new();
    let users = repo.find_all();

    assert_eq!(users.as_ref().unwrap().len(), 0);
}

#[test]
fn removes_a_user() {
    let email = Email::new("test@example.com".to_string()).unwrap();
    let user = create_user_by_email(email.clone());
    let mut repo = InMemoryUserRepository::new();

    let _ = repo.save(user.clone());
    let _ = repo.remove(user.clone());

    let found_user = repo.find_by_email(email.clone());

    assert_eq!(found_user, Ok(None));
}

#[test]
fn update_user_when_exists() {
    let a_user = create_user_by_email(Email::new("test1@example.com".to_string()).unwrap());
    let mut repo = InMemoryUserRepository::new();

    let _ = repo.save(a_user.clone());
    let _ = repo.save(a_user.clone());

    let users = repo.find_all();

    assert_eq!(users.as_ref().unwrap().len(), 1);
    assert_eq!(users, Ok(vec![a_user.clone()]));
}

#[test]
fn saving_a_user_again_keeps_its_place_and_new_fields() {
    let first = create_user_by_email(Email::new("test1@example.com".to_string()).unwrap());
    let second = create_user_by_email(Email::new("test2@example.com".to_string()).unwrap());
    let mut repo = InMemoryUserRepository::default();
    let _ = repo.save(first.clone());
    let _ = repo.save(second.clone());

    let mut changed = first.clone();
    let _ = changed.change_password(Password::new("OtherPass123_".to_string()).unwrap());
    let _ = repo.save(changed.clone());

    let users = repo.find_all().unwrap();
    assert_eq!(users.len(), 2);
    assert_eq!(users[0].password(), hash("OtherPass123_"));
    assert_eq!(users[1].email(), "test2@example.com");
}

fn create_register_request() -> UserRegisterRequest {
    UserRegisterRequest {
        email: "test@example.com".to_string(),
        password: "TestPass123_".to_string(),
    }
}

#[test]
fn user_register_service_register_with_valid_credentials() {
    let register_request = create_register_request();

    let mut register_service = UserRegisterService::new(InMemoryUserRepository::new());

    let response = register_service.register(register_request).unwrap();
    assert_eq!(response.email, "test@example.com");

    let user = register_service
        .repository()
        .find_by_email(Email::new("test@example.com".to_string()).unwrap());

    assert!(user
        .unwrap()
        .unwrap()
        .is_matching_email(&Email::new("test@example.com".to_string()).unwrap()))
}

#[test]
fn does_not_allow_to_register_existing_email() {
    let register_request = create_register_request();

    let mut register_service = UserRegisterService::new(InMemoryUserRepository::new());

    let _ = register_service.register(register_request.clone());
    let res = register_service.register(register_request.clone());

    assert!(matches!(res, Err(RegisterError::ExistingUser(_))));
}

#[test]
fn register_reports_invalid_email_and_weak_password() {
    let mut register_service = UserRegisterService::new(InMemoryUserRepository::new());
    let res = register_service.register(UserRegisterRequest {
        email: "test@examplecom".to_string(),
        password: "SecurePass123_".to_string(),
    });
    assert!(matches!(res, Err(RegisterError::InvalidEmail(EmailError::InvalidFormat))));

    let res = register_service.register(UserRegisterRequest {
        email: "test@example.com".to_string(),
        password: "weak".to_string(),
    });
    match res {
        Err(RegisterError::WeakPassword(e)) => assert_eq!(
            e.errors,
            vec![
                PasswordErrorType::TooShort,
                PasswordErrorType::MustContainNumber,
                PasswordErrorType::MustContainUppercase,
                PasswordErrorType::MustContainUnderscore
            ]
        ),
        _ => panic!("expected a weak password"),
    }
    assert_eq!(register_service.repository().find_all().unwrap().len(), 0);
}

#[test]
fn user_login_service_register_with_valid_credentials() {
    let login_request = UserLoginRequest {
        email: "test@example.com".to_string(),
        password: "TestPass123_".to_string(),
    };

    let mut repo = InMemoryUserRepository::new();
    let user = User::new(
        Id::generate_unique_identifier(),
        Email::new("test@example.com".to_string()).unwrap(),
        Password::new("TestPass123_".to_string()).unwrap(),
    );
    let _ = repo.save(user);
    let login_service = UserLoginService::new(repo);

    let response = login_service.login(login_request);

    assert!(response.is_ok_and(|r| r.email == "test@example.com".to_string()));
}

#[test]
fn login_rejects_wrong_password_unknown_email_and_bad_input() {
    let mut repo = InMemoryUserRepository::new();
    let _ = repo.save(create_user());
    let login_service = UserLoginService::new(repo);

    let wrong = login_service.login(UserLoginRequest {
        email: "test@example.com".to_string(),
        password: "OtherPass123_".to_string(),
    });
    assert!(matches!(wrong, Err(LoginError::InvalidCredentials(_))));

    let unknown = login_service.login(UserLoginRequest {
        email: "other@example.com".to_string(),
        password: "SafePass123_".to_string(),
    });
    assert!(matches!(unknown, Err(LoginError::InvalidCredentials(_))));

    let bad_email = login_service.login(UserLoginRequest {
        email: "test@examplecom".to_string(),
        password: "SafePass123_".to_string(),
    });
    assert!(matches!(bad_email, Err(LoginError::InvalidEmail(_))));

    let weak = login_service.login(UserLoginRequest {
        email: "test@example.com".to_string(),
        password: "short".to_string(),
    });
    assert!(matches!(weak, Err(LoginError::WeakPassword(_))));

    let ok = login_service.login(UserLoginRequest {
        email: "test@example.com".to_string(),
        password: "SafePass123_".to_string(),
    });
    assert_eq!(ok.unwrap().email, "test@example.com");
}
