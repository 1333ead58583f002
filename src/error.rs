use vstd::prelude::*;

verus! {

/// A failure of the store's transport: network, status code or payload.
#[derive(Debug)]
pub struct TransportError {
    pub message: String,
}

impl TransportError {
    pub fn new(message: String) -> (r: TransportError)
        ensures
            r.message == message,
    {
        TransportError { message }
    }
}

/// The one error type that every collection operation returns.
#[derive(Debug)]
pub enum AccessorError {
    /// The store could not be reached or answered badly; the message is its own.
    Remote(String),
    /// No document is stored under the requested identifier.
    NotFound,
}

impl AccessorError {
    /// Wraps a transport failure, keeping its message.
    pub fn from_transport(e: TransportError) -> (r: AccessorError)
        ensures
            r == AccessorError::Remote(e.message),
    {
        AccessorError::Remote(e.message)
    }

    pub fn is_not_found(&self) -> (r: bool)
        ensures
            r == (self is NotFound),
    {
        match self {
            AccessorError::NotFound => true,
            AccessorError::Remote(_) => false,
        }
    }

    /// The message shown to the user for this error.
    pub fn message(&self) -> (r: String)
        ensures
            self is Remote ==> r@ == self->Remote_0@,
            self is NotFound ==> r@ == not_found_text(),
    {
        match self {
            AccessorError::Remote(m) => m.clone(),
            AccessorError::NotFound => {
                let t = "not found";
                proof {
                    reveal_strlit("not found");
                }
                assert(t@ =~= not_found_text());
                String::from_str(t)
            },
        }
    }
}

pub open spec fn not_found_text() -> Seq<char> {
    seq!['n', 'o', 't', ' ', 'f', 'o', 'u', 'n', 'd']
}

} // verus!
