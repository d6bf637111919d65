use vstd::prelude::*;

verus! {

/// A request whose body has been read.
pub struct HttpRequest<T> {
    pub body: T,
}

/// A response under construction, as a web framework builds it.
pub trait HttpResponse<T> {
    /// The status code set last, if any.
    spec fn status_code(&self) -> Option<u16>;

    /// Sets the status code.
    fn status(&mut self, code: u16)
        requires
            100 <= code <= 999,
        ensures
            final(self).status_code() == Some(code),
    ;

    /// Sets the body, leaving the status code as it was.
    fn json(&mut self, data: T)
        ensures
            final(self).status_code() == old(self).status_code(),
    ;
}

} // verus!
