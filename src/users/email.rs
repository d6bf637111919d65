use vstd::prelude::*;
use crate::users::pattern::{is_found, pattern_found};

verus! {

/// Shape of an e-mail address: a local part, `@`, a domain, a dot and a top-level
/// domain of two letters or more.
pub const EMAIL_FORMAT: &'static str = r"^[\w\.-]+@[a-zA-Z\d\.-]+\.[a-zA-Z]{2,}$";

pub open spec fn is_valid_email(address: Seq<char>) -> bool {
    pattern_found(EMAIL_FORMAT@, address)
}

/// An e-mail address of a valid format.
#[derive(Debug, Clone)]
pub struct Email(String);

#[derive(Debug, Clone, Copy, PartialEq, Eq, Structural)]
pub enum EmailError {
    InvalidFormat,
}

impl EmailError {
    pub fn to_string(&self) -> (r: String)
        ensures
            r@ == "Invalid email format"@,
    {
        String::from_str("Invalid email format")
    }
}

impl View for Email {
    type V = Seq<char>;

    closed spec fn view(&self) -> Seq<char> {
        self.0@
    }
}

impl Email {
    pub fn new(address: String) -> (r: Result<Email, EmailError>)
        ensures
            r is Ok <==> is_valid_email(address@),
            r matches Ok(e) ==> e@ == address@,
            r matches Err(e) ==> e == EmailError::InvalidFormat,
    {
        match Self::ensure_is_valid_email(address.as_str()) {
            Ok(()) => Ok(Email(address)),
            Err(e) => Err(e),
        }
    }

    fn ensure_is_valid_email(address: &str) -> (r: Result<(), EmailError>)
        ensures
            r is Ok <==> is_valid_email(address@),
            r matches Err(e) ==> e == EmailError::InvalidFormat,
    {
        if !is_found(EMAIL_FORMAT, address) {
            return Err(EmailError::InvalidFormat);
        }
        Ok(())
    }

    /// The address as it was given.
    pub fn to_string(&self) -> (r: String)
        ensures
            r@ == self@,
    {
        self.0.clone()
    }

    /// The same address, in a value of its own.
    pub fn duplicate(&self) -> (r: Email)
        ensures
            r@ == self@,
    {
        Email(self.0.clone())
    }
}

impl PartialEq for Email {
    fn eq(&self, other: &Email) -> (r: bool) {
        self.0 == other.0
    }
}

impl Eq for Email {
}

impl vstd::std_specs::cmp::PartialEqSpecImpl for Email {
    open spec fn obeys_eq_spec() -> bool {
        true
    }

    open spec fn eq_spec(&self, other: &Email) -> bool {
        self@ == other@
    }
}

} // verus!
