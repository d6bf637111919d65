use vstd::prelude::*;
use crate::users::dtos::{UserRegisterRequest, UserRegisterResponse};
use crate::users::email::{is_valid_email, Email, EmailError};
use crate::users::hashing::sha256_hex;
use crate::users::id::Id;
use crate::users::password::{joined_messages, password_errors, Password, PasswordError};
use crate::users::repository::{saved, UserRepository};
use crate::users::user::{User, UserModel};

verus! {

#[derive(Debug, Clone, Copy, PartialEq, Eq, Structural)]
pub struct ExistingUserError {}

/// Why a registration was refused.
#[derive(Debug)]
pub enum RegisterError {
    InvalidEmail(EmailError),
    WeakPassword(PasswordError),
    ExistingUser(ExistingUserError),
    Repository(String),
}

impl ExistingUserError {
    pub fn to_string(&self) -> (r: String)
        ensures
            r@ == "User already exists with this email"@,
    {
        String::from_str("User already exists with this email")
    }
}

impl RegisterError {
    /// The message of the reason.
    pub fn to_string(&self) -> (r: String)
        ensures
            self matches RegisterError::InvalidEmail(_) ==> r@ == "Invalid email format"@,
            self matches RegisterError::WeakPassword(e) ==> r@ == "Password "@ + joined_messages(
                e.errors@,
                e.errors@.len(),
            ),
            self matches RegisterError::ExistingUser(_) ==> r@ == "User already exists with this email"@,
            self matches RegisterError::Repository(m) ==> r@ == m@,
    {
        match self {
            RegisterError::InvalidEmail(e) => e.to_string(),
            RegisterError::WeakPassword(e) => e.to_string(),
            RegisterError::ExistingUser(e) => e.to_string(),
            RegisterError::Repository(m) => m.clone(),
        }
    }
}

/// Some kept user has the address.
pub open spec fn has_user_with_email(users: Seq<UserModel>, email: Seq<char>) -> bool {
    exists|i: int| 0 <= i < users.len() && #[trigger] users[i].1 == email
}

/// Registers new users in a repository.
pub struct UserRegisterService<R: UserRepository> {
    user_repository: R,
}

impl<R: UserRepository> UserRegisterService<R> {
    /// The users kept by the service's repository.
    pub closed spec fn users(&self) -> Seq<UserModel> {
        self.user_repository.users()
    }

    pub fn new(user_repository: R) -> (r: Self)
        ensures
            r.users() == user_repository.users(),
    {
        UserRegisterService { user_repository }
    }

    /// The repository where users are kept.
    pub fn repository(&self) -> (r: &R)
        ensures
            r.users() == self.users(),
    {
        &self.user_repository
    }

    /// Registers a user with a new identifier, unless the address is malformed or
    /// already registered, or the password is weak.
    pub fn register(&mut self, request: UserRegisterRequest) -> (r: Result<
        UserRegisterResponse,
        RegisterError,
    >)
        ensures
            r matches Err(RegisterError::InvalidEmail(e)) <==> !is_valid_email(request.email@),
            r matches Err(RegisterError::InvalidEmail(e)) ==> e == EmailError::InvalidFormat,
            r matches Err(RegisterError::ExistingUser(_)) ==> is_valid_email(request.email@)
                && has_user_with_email(old(self).users(), request.email@),
            r matches Err(RegisterError::WeakPassword(e)) ==> is_valid_email(request.email@)
                && e.errors@ == password_errors(request.password@) && e.errors@.len() > 0,
            is_valid_email(request.email@) && !has_user_with_email(old(self).users(), request.email@)
                && password_errors(request.password@).len() > 0 ==> r is Err && !(r matches Err(
                RegisterError::Repository(_))) && !(r matches Err(RegisterError::ExistingUser(_))),
            is_valid_email(request.email@) && !has_user_with_email(old(self).users(), request.email@)
                && password_errors(request.password@).len() == 0 ==> r is Ok || r matches Err(
                RegisterError::Repository(_)),
            r is Err && !(r matches Err(RegisterError::Repository(_))) ==> final(self).users()
                == old(self).users(),
            r matches Ok(response) ==> {
                &&& is_valid_email(request.email@)
                &&& password_errors(request.password@).len() == 0
                &&& response.email@ == request.email@
                &&& final(self).users() == saved(
                    old(self).users(),
                    (response.id@, request.email@, sha256_hex(request.password@)),
                )
            },
    {
        match self.ensure_user_does_not_exist(&request) {
            Ok(()) => {},
            Err(e) => {
                return Err(e);
            },
        }
        let user = match Self::create_user(request) {
            Ok(user) => user,
            Err(e) => {
                return Err(e);
            },
        };
        let dto = user.to_dto();
        match self.user_repository.save(user) {
            Ok(()) => Ok(UserRegisterResponse::from(dto)),
            Err(message) => Err(RegisterError::Repository(message)),
        }
    }

    fn ensure_user_does_not_exist(&self, request: &UserRegisterRequest) -> (r: Result<
        (),
        RegisterError,
    >)
        ensures
            r matches Err(RegisterError::InvalidEmail(e)) <==> !is_valid_email(request.email@),
            r matches Err(RegisterError::InvalidEmail(e)) ==> e == EmailError::InvalidFormat,
            r matches Err(RegisterError::ExistingUser(_)) ==> is_valid_email(request.email@)
                && has_user_with_email(self.users(), request.email@),
            r is Err ==> r matches Err(RegisterError::InvalidEmail(_)) || r matches Err(
                RegisterError::ExistingUser(_)),
            is_valid_email(request.email@) && !has_user_with_email(self.users(), request.email@)
                ==> r is Ok,
    {
        let email = match Email::new(request.email.clone()) {
            Ok(email) => email,
            Err(e) => {
                return Err(RegisterError::InvalidEmail(e));
            },
        };
        let user_found = self.user_repository.find_by_email(email);
        match user_found {
            Ok(Some(_)) => Err(RegisterError::ExistingUser(ExistingUserError {})),
            _ => Ok(()),
        }
    }

    fn create_user(request: UserRegisterRequest) -> (r: Result<User, RegisterError>)
        requires
            is_valid_email(request.email@),
        ensures
            r is Ok <==> password_errors(request.password@).len() == 0,
            r matches Err(RegisterError::WeakPassword(e)) ==> e.errors@ == password_errors(
                request.password@,
            ),
            r is Err ==> r matches Err(RegisterError::WeakPassword(_)),
            r matches Ok(user) ==> user@.1 == request.email@ && user@.2 == sha256_hex(
                request.password@,
            ),
    {
        let id = Id::generate_unique_identifier();
        let email = match Email::new(request.email) {
            Ok(email) => email,
            Err(e) => {
                return Err(RegisterError::InvalidEmail(e));
            },
        };
        let password = match Password::new(request.password) {
            Ok(password) => password,
            Err(e) => {
                return Err(RegisterError::WeakPassword(e));
            },
        };
        Ok(User::new(id, email, password))
    }
}

} // verus!
