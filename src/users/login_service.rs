use vstd::prelude::*;
use crate::users::dtos::{UserLoginRequest, UserLoginResponse};
use crate::users::email::{is_valid_email, Email, EmailError};
use crate::users::hashing::sha256_hex;
use crate::users::password::{joined_messages, password_errors, Password, PasswordError};
use crate::users::repository::{first_with_email, UserRepository};
use crate::users::user::UserModel;

verus! {

#[derive(Debug, Clone, Copy, PartialEq, Eq, Structural)]
pub struct InvalidCredentialsError {}

/// Why a login was refused.
#[derive(Debug)]
pub enum LoginError {
    InvalidEmail(EmailError),
    WeakPassword(PasswordError),
    InvalidCredentials(InvalidCredentialsError),
}

impl InvalidCredentialsError {
    pub fn to_string(&self) -> (r: String)
        ensures
            r@ == "Invalid email or password"@,
    {
        String::from_str("Invalid email or password")
    }
}

impl LoginError {
    /// The message of the reason.
    pub fn to_string(&self) -> (r: String)
        ensures
            self matches LoginError::InvalidEmail(_) ==> r@ == "Invalid email format"@,
            self matches LoginError::WeakPassword(e) ==> r@ == "Password "@ + joined_messages(
                e.errors@,
                e.errors@.len(),
            ),
            self matches LoginError::InvalidCredentials(_) ==> r@ == "Invalid email or password"@,
    {
        match self {
            LoginError::InvalidEmail(e) => e.to_string(),
            LoginError::WeakPassword(e) => e.to_string(),
            LoginError::InvalidCredentials(e) => e.to_string(),
        }
    }
}

/// The first kept user of the address has the password of that text.
pub open spec fn credentials_match(users: Seq<UserModel>, email: Seq<char>, plaintext: Seq<char>) -> bool {
    exists|i: int| first_with_email(users, email, i) && users[i].2 == sha256_hex(plaintext)
}

/// Checks the credentials of users kept in a repository.
pub struct UserLoginService<R: UserRepository> {
    user_repository: R,
}

impl<R: UserRepository> UserLoginService<R> {
    /// The users kept by the service's repository.
    pub closed spec fn users(&self) -> Seq<UserModel> {
        self.user_repository.users()
    }

    pub fn new(user_repository: R) -> (r: Self)
        ensures
            r.users() == user_repository.users(),
    {
        UserLoginService { user_repository }
    }

    /// The repository where users are kept.
    pub fn repository(&self) -> (r: &R)
        ensures
            r.users() == self.users(),
    {
        &self.user_repository
    }

    /// The user whose address and password are given, if the first user kept with
    /// that address has that password.
    pub fn login(&self, request: UserLoginRequest) -> (r: Result<UserLoginResponse, LoginError>)
        ensures
            r matches Err(LoginError::WeakPassword(e)) <==> password_errors(request.password@).len()
                > 0,
            r matches Err(LoginError::WeakPassword(e)) ==> e.errors@ == password_errors(
                request.password@,
            ),
            r matches Err(LoginError::InvalidEmail(e)) <==> password_errors(request.password@).len()
                == 0 && !is_valid_email(request.email@),
            r matches Err(LoginError::InvalidEmail(e)) ==> e == EmailError::InvalidFormat,
            password_errors(request.password@).len() == 0 && is_valid_email(request.email@)
                && !credentials_match(self.users(), request.email@, request.password@) ==> r matches Err(
                LoginError::InvalidCredentials(_)),
            r matches Ok(response) ==> exists|i: int|
                {
                    &&& first_with_email(self.users(), request.email@, i)
                    &&& self.users()[i].2 == sha256_hex(request.password@)
                    &&& response.id@ == self.users()[i].0
                    &&& response.email@ == request.email@
                },
    {
        let password = match Password::new(request.password) {
            Ok(password) => password,
            Err(e) => {
                return Err(LoginError::WeakPassword(e));
            },
        };
        let email = match Email::new(request.email.clone()) {
            Ok(email) => email,
            Err(e) => {
                return Err(LoginError::InvalidEmail(e));
            },
        };
        let ghost address = email@;
        let optional_user = match self.user_repository.find_by_email(email) {
            Ok(found) => found,
            Err(_) => {
                return Err(LoginError::InvalidCredentials(InvalidCredentialsError {}));
            },
        };
        if let Some(user) = optional_user {
            if user.is_matching_password(&password) {
                let dto = user.to_dto();
                let response = UserLoginResponse::from(dto);
                proof {
                    let users = self.users();
                    let i = choose|i: int| first_with_email(users, address, i) && users[i] == user@;
                    assert(first_with_email(users, request.email@, i));
                    assert(response.id@ == users[i].0);
                }
                return Ok(response);
            }
        }
        Err(LoginError::InvalidCredentials(InvalidCredentialsError {}))
    }
}

} // verus!
