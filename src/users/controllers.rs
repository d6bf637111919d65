use vstd::prelude::*;
use crate::users::dtos::{UserLoginRequest, UserLoginResponse, UserRegisterRequest, UserRegisterResponse};
use crate::users::email::is_valid_email;
use crate::users::hashing::sha256_hex;
use crate::users::http::{HttpRequest, HttpResponse};
use crate::users::login_service::{credentials_match, LoginError, UserLoginService};
use crate::users::password::password_errors;
use crate::users::register_service::{RegisterError, UserRegisterService};
use crate::users::repository::{saved, UserRepository};
use crate::users::user::UserModel;

verus! {

pub const CREATED: u16 = 201;

pub const OK: u16 = 200;

pub const BAD_REQUEST: u16 = 400;

/// Answers registration requests.
pub struct UserRegisterController<R: UserRepository> {
    service: UserRegisterService<R>,
}

impl<R: UserRepository> UserRegisterController<R> {
    /// The users kept by the repository behind the controller.
    pub closed spec fn users(&self) -> Seq<UserModel> {
        self.service.users()
    }

    pub fn new(service: UserRegisterService<R>) -> (r: Self)
        ensures
            r.users() == service.users(),
    {
        UserRegisterController { service }
    }

    /// Registers the user of the request: `201` and the new user, or `400` and the
    /// reason it was refused.
    pub fn register<T: HttpResponse<Result<UserRegisterResponse, RegisterError>>>(
        &mut self,
        request: HttpRequest<UserRegisterRequest>,
        response: &mut T,
    )
        ensures
            final(response).status_code() == Some(CREATED) || final(response).status_code() == Some(
                BAD_REQUEST,
            ),
            !is_valid_email(request.body.email@) ==> final(response).status_code() == Some(
                BAD_REQUEST,
            ) && final(self).users() == old(self).users(),
            is_valid_email(request.body.email@) && password_errors(request.body.password@).len() > 0
                ==> final(response).status_code() == Some(BAD_REQUEST),
            final(response).status_code() == Some(CREATED) ==> exists|id: Seq<char>|
                final(self).users() == saved(
                    old(self).users(),
                    (id, request.body.email@, sha256_hex(request.body.password@)),
                ),
    {
        let ghost body = request.body;
        match self.service.register(request.body) {
            Ok(register_response) => {
                let ghost id = register_response.id@;
                response.status(CREATED);
                response.json(Ok(register_response));
                assert(final(self).users() == saved(
                    old(self).users(),
                    (id, body.email@, sha256_hex(body.password@)),
                ));
            },
            Err(error) => {
                response.status(BAD_REQUEST);
                response.json(Err(error));
            },
        }
    }
}

/// Answers login requests.
pub struct UserLoginController<R: UserRepository> {
    service: UserLoginService<R>,
}

impl<R: UserRepository> UserLoginController<R> {
    /// The users kept by the repository behind the controller.
    pub closed spec fn users(&self) -> Seq<UserModel> {
        self.service.users()
    }

    pub fn new(service: UserLoginService<R>) -> (r: Self)
        ensures
            r.users() == service.users(),
    {
        UserLoginController { service }
    }

    /// Logs in the user of the request: `200` and the user, or `400` and the reason
    /// it was refused.
    pub fn login<T: HttpResponse<Result<UserLoginResponse, LoginError>>>(
        &self,
        request: HttpRequest<UserLoginRequest>,
        response: &mut T,
    )
        ensures
            final(response).status_code() == Some(OK) || final(response).status_code() == Some(
                BAD_REQUEST,
            ),
            final(response).status_code() == Some(OK) ==> password_errors(request.body.password@).len() == 0
                && is_valid_email(request.body.email@) && credentials_match(
                self.users(),
                request.body.email@,
                request.body.password@,
            ),
            !credentials_match(self.users(), request.body.email@, request.body.password@)
                ==> final(response).status_code() == Some(BAD_REQUEST),
    {
        match self.service.login(request.body) {
            Ok(login_response) => {
                response.status(OK);
                response.json(Ok(login_response));
            },
            Err(error) => {
                response.status(BAD_REQUEST);
                response.json(Err(error));
            },
        }
    }
}

} // verus!
