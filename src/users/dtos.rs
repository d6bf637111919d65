use vstd::prelude::*;
use crate::users::user::UserDto;

verus! {

/// Text of a response: `id: <id>, email: <email>`.
pub open spec fn response_text(id: Seq<char>, email: Seq<char>) -> Seq<char> {
    "id: "@ + id + ", email: "@ + email
}

fn write_response(id: &String, email: &String) -> (r: String)
    ensures
        r@ == response_text(id@, email@),
{
    let mut s = String::from_str("id: ");
    s.append(id.as_str());
    s.append(", email: ");
    s.append(email.as_str());
    s
}

#[derive(Clone, Debug)]
pub struct UserRegisterRequest {
    pub email: String,
    pub password: String,
}

#[derive(Debug)]
pub struct UserRegisterResponse {
    pub id: String,
    pub email: String,
}

#[derive(Clone, Debug)]
pub struct UserLoginRequest {
    pub email: String,
    pub password: String,
}

#[derive(Debug)]
pub struct UserLoginResponse {
    pub id: String,
    pub email: String,
}

impl UserRegisterResponse {
    pub fn to_string(&self) -> (r: String)
        ensures
            r@ == response_text(self.id@, self.email@),
    {
        write_response(&self.id, &self.email)
    }
}

impl UserLoginResponse {
    pub fn to_string(&self) -> (r: String)
        ensures
            r@ == response_text(self.id@, self.email@),
    {
        write_response(&self.id, &self.email)
    }
}

impl From<UserDto> for UserRegisterResponse {
    fn from(user: UserDto) -> (r: UserRegisterResponse) {
        UserRegisterResponse { id: user.id, email: user.email }
    }
}

impl vstd::std_specs::convert::FromSpecImpl<UserDto> for UserRegisterResponse {
    open spec fn obeys_from_spec() -> bool {
        true
    }

    open spec fn from_spec(user: UserDto) -> UserRegisterResponse {
        UserRegisterResponse { id: user.id, email: user.email }
    }
}

impl From<UserDto> for UserLoginResponse {
    fn from(user: UserDto) -> (r: UserLoginResponse) {
        UserLoginResponse { id: user.id, email: user.email }
    }
}

impl vstd::std_specs::convert::FromSpecImpl<UserDto> for UserLoginResponse {
    open spec fn obeys_from_spec() -> bool {
        true
    }

    open spec fn from_spec(user: UserDto) -> UserLoginResponse {
        UserLoginResponse { id: user.id, email: user.email }
    }
}

} // verus!
