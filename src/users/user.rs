use vstd::prelude::*;
use crate::users::email::Email;
use crate::users::id::Id;
use crate::users::password::Password;

verus! {

/// What a user is made of: identifier, e-mail address and password hash.
pub type UserModel = (Seq<char>, Seq<char>, Seq<char>);

#[derive(Debug, Clone, Copy, PartialEq, Eq, Structural)]
pub struct EqualPasswordError {}

impl EqualPasswordError {
    pub fn to_string(&self) -> (r: String)
        ensures
            r@ == "New password must be different"@,
    {
        String::from_str("New password must be different")
    }
}

/// A registered user.
#[derive(Debug, Clone)]
pub struct User {
    id: Id,
    email: Email,
    password: Password,
}

/// What may be shown of a user.
#[derive(Debug, Clone)]
pub struct UserDto {
    pub id: String,
    pub email: String,
}

impl View for User {
    type V = UserModel;

    closed spec fn view(&self) -> UserModel {
        (self.id@, self.email@, self.password@)
    }
}

impl User {
    pub fn new(id: Id, email: Email, password: Password) -> (r: User)
        ensures
            r@ == (id@, email@, password@),
    {
        User { id, email, password }
    }

    pub fn id(&self) -> (r: String)
        ensures
            r@ == self@.0,
    {
        self.id.to_string()
    }

    pub fn email(&self) -> (r: String)
        ensures
            r@ == self@.1,
    {
        self.email.to_string()
    }

    pub fn password(&self) -> (r: String)
        ensures
            r@ == self@.2,
    {
        self.password.to_string()
    }

    /// Replaces the password by one that differs from it.
    pub fn change_password(&mut self, new_password: Password) -> (r: Result<(), EqualPasswordError>)
        ensures
            r is Ok <==> old(self)@.2 != new_password@,
            r is Ok ==> final(self)@ == (old(self)@.0, old(self)@.1, new_password@),
            r is Err ==> final(self)@ == old(self)@,
    {
        match self.ensure_is_different_password(&new_password) {
            Ok(()) => {
                self.password = new_password;
                Ok(())
            },
            Err(e) => Err(e),
        }
    }

    fn ensure_is_different_password(&self, new_password: &Password) -> (r: Result<
        (),
        EqualPasswordError,
    >)
        ensures
            r is Ok <==> self@.2 != new_password@,
    {
        if self.is_matching_password(new_password) {
            Err(EqualPasswordError {})
        } else {
            Ok(())
        }
    }

    pub fn is_matching_password(&self, password: &Password) -> (r: bool)
        ensures
            r == (self@.2 == password@),
    {
        self.password == *password
    }

    pub fn is_matching_id(&self, id: &Id) -> (r: bool)
        ensures
            r == (self@.0 == id@),
    {
        self.id == *id
    }

    pub fn is_matching_email(&self, email: &Email) -> (r: bool)
        ensures
            r == (self@.1 == email@),
    {
        self.email == *email
    }

    pub fn to_dto(&self) -> (r: UserDto)
        ensures
            r.id@ == self@.0,
            r.email@ == self@.1,
    {
        UserDto { id: self.id.to_string(), email: self.email.to_string() }
    }

    /// The same user, in a value of its own.
    pub fn duplicate(&self) -> (r: User)
        ensures
            r@ == self@,
    {
        User { id: self.id.duplicate(), email: self.email.duplicate(), password: self.password.duplicate() }
    }
}

/// Two users are the same user when they have the same identifier.
impl PartialEq for User {
    fn eq(&self, other: &User) -> (r: bool) {
        self.id == other.id
    }
}

impl Eq for User {
}

impl vstd::std_specs::cmp::PartialEqSpecImpl for User {
    open spec fn obeys_eq_spec() -> bool {
        true
    }

    open spec fn eq_spec(&self, other: &User) -> bool {
        self@.0 == other@.0
    }
}

} // verus!
