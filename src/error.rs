use vstd::prelude::*;

verus! {

/// Message carried by every error that a failed request turns into.
pub const REQWEST_ERROR_MESSAGE: &'static str = "Reqwest Error";

/// What went wrong. Requests fail in one way only, and the kind holds its message.
#[derive(Debug)]
pub enum Kind<'a> {
    RequestError(&'a str),
}

impl<'a> Kind<'a> {
    /// The text that describes this kind.
    pub open spec fn spec_message(&self) -> Seq<char> {
        match self {
            Kind::RequestError(message) => message@,
        }
    }

    /// The text that describes this kind, as it is shown to a user.
    pub fn message(&self) -> (r: &'a str)
        ensures
            r@ == self.spec_message(),
    {
        match self {
            Kind::RequestError(message) => message,
        }
    }
}

/// An error of the client, holding its kind.
#[derive(Debug)]
pub struct ClientError {
    kind: Kind<'static>,
}

impl ClientError {
    /// The text of this error.
    pub closed spec fn spec_message(&self) -> Seq<char> {
        self.kind.spec_message()
    }

    /// The text of this error, as it is shown to a user.
    pub fn message(&self) -> (r: &'static str)
        ensures
            r@ == self.spec_message(),
    {
        self.kind.message()
    }
}

impl From<reqwest::Error> for ClientError {
    /// Any failure of reqwest becomes a request error with the fixed message; the cause is
    /// dropped.
    fn from(_error: reqwest::Error) -> (r: Self)
        ensures
            r.spec_message() == REQWEST_ERROR_MESSAGE@,
    {
        Self { kind: Kind::RequestError(REQWEST_ERROR_MESSAGE) }
    }
}

impl vstd::std_specs::convert::FromSpecImpl<reqwest::Error> for ClientError {
    open spec fn obeys_from_spec() -> bool {
        true
    }

    closed spec fn from_spec(v: reqwest::Error) -> Self {
        ClientError { kind: Kind::RequestError(REQWEST_ERROR_MESSAGE) }
    }
}

} // verus!
