use katas::users::controllers::{UserLoginController, UserRegisterController};
use katas::users::dtos::{UserLoginRequest, UserLoginResponse, UserRegisterRequest, UserRegisterResponse};
use katas::users::email::Email;
use katas::users::http::{HttpRequest, HttpResponse};
use katas::users::id::Id;
use katas::users::login_service::{LoginError, UserLoginService};
use katas::users::password::Password;
use katas::users::register_service::{RegisterError, UserRegisterService};
use katas::users::repository::{InMemoryUserRepository, UserRepository};
use katas::users::user::User;

struct MockResponse<T> {
    status: u16,
    data: Option<T>,
}

impl<T> HttpResponse<T> for MockResponse<T> {
    fn status_code(&self) -> Option<u16> {
        Some(self.status)
    }

    fn status(&mut self, code: u16) {
        self.status = code;
    }

    fn json(&mut self, data: T) {
        self.data = Some(data);
    }
}

#[test]
fn register_a_valid_user() {
    let email = "test@example.com".to_string();
    let password = "SecurePass123_".to_string();

    let register_service = UserRegisterService::new(InMemoryUserRepository::new());
    let mut controller = UserRegisterController::new(register_service);

    let mut response: MockResponse<Result<UserRegisterResponse, RegisterError>> = MockResponse {
        status: 200,
        data: None,
    };

    controller.register(
        HttpRequest {
            body: UserRegisterRequest { email, password },
        },
        &mut response,
    );

    assert_eq!(response.status, 201);
    assert_eq!(response.data.unwrap().unwrap().email, "test@example.com");
}

#[test]
fn user_register_controller_rejects_when_invalid_email_provided() {
    let email = "test@examplecom".to_string();
    let password = "SecurePass123_".to_string();

    let register_service = UserRegisterService::new(InMemoryUserRepository::new());
    let mut controller = UserRegisterController::new(register_service);

    let mut response: MockResponse<Result<UserRegisterResponse, RegisterError>> = MockResponse {
        status: 200,
        data: None,
    };

    controller.register(
        HttpRequest {
            body: UserRegisterRequest { email, password },
        },
        &mut response,
    );

    assert_eq!(response.status, 400);
    assert!(response.data.unwrap().is_err());
}

fn create_user() -> User {
    let id = Id::generate_unique_identifier();
    let email = Email::new("test@example.com".to_string()).unwrap();
    let password = Password::new("TestPass123_".to_string()).unwrap();

    User::new(id, email, password)
}

#[test]
fn login_a_user() {
    let email = "test@example.com".to_string();
    let password = "TestPass123_".to_string();

    let mut repo = InMemoryUserRepository::new();
    let _ = repo.save(create_user());
    let login_service = UserLoginService::new(repo);
    let controller = UserLoginController::new(login_service);

    let mut response: MockResponse<Result<UserLoginResponse, LoginError>> = MockResponse {
        status: 200,
        data: None,
    };

    controller.login(
        HttpRequest {
            body: UserLoginRequest { email, password },
        },
        &mut response,
    );

    assert_eq!(response.status, 200);
    assert_eq!(response.data.unwrap().unwrap().email, "test@example.com");
}

#[test]
fn user_login_controller_rejects_when_invalid_email_provided() {
    let email = "test@examplecom".to_string();
    let password = "SecurePass123_".to_string();

    let login_service = UserLoginService::new(InMemoryUserRepository::new());
    let controller = UserLoginController::new(login_service);

    let mut response: MockResponse<Result<UserLoginResponse, LoginError>> = MockResponse {
        status: 200,
        data: None,
    };

    controller.login(
        HttpRequest {
            body: UserLoginRequest { email, password },
        },
        &mut response,
    );

    assert_eq!(response.status, 400);
    assert!(response.data.unwrap().is_err());
}

#[test]
fn login_with_wrong_password_is_a_bad_request() {
    let mut repo = InMemoryUserRepository::new();
    let _ = repo.save(create_user());
    let controller = UserLoginController::new(UserLoginService::new(repo));

    let mut response: MockResponse<Result<UserLoginResponse, LoginError>> = MockResponse {
        status: 200,
        data: None,
    };
    controller.login(
        HttpRequest {
            body: UserLoginRequest {
                email: "test@example.com".to_string(),
                password: "WrongPass123_".to_string(),
            },
        },
        &mut response,
    );

    assert_eq!(response.status, 400);
    assert!(matches!(
        response.data,
        Some(Err(LoginError::InvalidCredentials(_)))
    ));
}
