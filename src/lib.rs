use vstd::prelude::*;

pub mod error;
pub mod request;

verus! {

/// The failure value of reqwest, carried through opaquely: nothing here reads it.
#[verifier::external_type_specification]
#[verifier::external_body]
pub struct ExReqwestError(reqwest::Error);

/// Message carried by every error of the catalog client.
pub const POKEAPI_ERROR_MESSAGE: &'static str = "PokeAPI Request Error";

/// Kinds of failure of a catalog request. The taxonomy is flat: whatever failed, the
/// kind is the same.
#[derive(Debug, Clone, Copy, PartialEq, Eq, Structural)]
pub enum PokemonErrorKind {
    GeneralError,
}

impl PokemonErrorKind {
    /// The text that describes this kind, as it is shown to a user.
    pub fn message(&self) -> (r: &'static str)
        ensures
            r@ == POKEAPI_ERROR_MESSAGE@,
    {
        match self {
            PokemonErrorKind::GeneralError => POKEAPI_ERROR_MESSAGE,
        }
    }
}

/// The error of a catalog request. It keeps no cause, status code or retry hint.
#[derive(Debug, PartialEq, Eq, Structural)]
pub struct PokemonError {
    kind: PokemonErrorKind,
}

impl PokemonError {
    /// The kind of this error.
    pub closed spec fn spec_kind(&self) -> PokemonErrorKind {
        self.kind
    }

    /// The kind of this error.
    pub fn kind(&self) -> (r: PokemonErrorKind)
        ensures
            r == self.spec_kind(),
    {
        self.kind
    }

    /// The text of this error, as it is shown to a user: the same for every error.
    pub fn message(&self) -> (r: &'static str)
        ensures
            r@ == POKEAPI_ERROR_MESSAGE@,
    {
        self.kind.message()
    }
}

impl From<reqwest::Error> for PokemonError {
    /// Any failure of reqwest (connection, timeout, status, decoding) becomes the general
    /// error; the cause is dropped.
    fn from(_error: reqwest::Error) -> (r: Self)
        ensures
            r.spec_kind() == PokemonErrorKind::GeneralError,
    {
        Self { kind: PokemonErrorKind::GeneralError }
    }
}

impl vstd::std_specs::convert::FromSpecImpl<reqwest::Error> for PokemonError {
    open spec fn obeys_from_spec() -> bool {
        true
    }

    closed spec fn from_spec(v: reqwest::Error) -> Self {
        PokemonError { kind: PokemonErrorKind::GeneralError }
    }
}

/// One entry of a listing page: a name and the address of the full record.
#[derive(Debug)]
pub struct PokemonDetail {
    pub name: String,
    pub url: String,
}

/// One page of the catalog, with the entries in the order the service gave them.
#[derive(Debug)]
pub struct PokemonResponse {
    pub count: u32,
    pub next: Option<String>,
    pub previous: Option<String>,
    pub results: Vec<PokemonDetail>,
}

/// The full record of one catalog item.
#[derive(Debug)]
pub struct SinglePokemonResponse {
    pub id: u16,
    pub name: String,
    pub base_experience: u16,
    pub height: u16,
    pub is_default: bool,
    pub order: u16,
    pub weight: u16,
}

/// Whether `o` is what the error mapping makes of the transport result `r`: a value passes
/// through untouched, and every failure, whatever its cause, becomes the general error.
pub open spec fn maps_outcome<T>(r: Result<T, reqwest::Error>, o: Result<T, PokemonError>) -> bool {
    match r {
        Ok(v) => o == Ok::<T, PokemonError>(v),
        Err(_) => o is Err && o->Err_0.spec_kind() == PokemonErrorKind::GeneralError,
    }
}

/// Turns the result of a request made through reqwest into a result of the catalog client.
pub fn map_request_error<T>(r: Result<T, reqwest::Error>) -> (o: Result<T, PokemonError>)
    ensures
        maps_outcome(r, o),
{
    match r {
        Ok(v) => Ok(v),
        Err(e) => Err(PokemonError::from(e)),
    }
}

/// A failure of the transport, whatever it was, is reported as the general error, and two
/// failures with different causes are reported as equal errors.
pub proof fn lemma_failures_are_indistinguishable<T>(
    e1: reqwest::Error,
    e2: reqwest::Error,
    o1: Result<T, PokemonError>,
    o2: Result<T, PokemonError>,
)
    requires
        maps_outcome(Err(e1), o1),
        maps_outcome(Err(e2), o2),
    ensures
        o1 is Err,
        o1->Err_0.spec_kind() == PokemonErrorKind::GeneralError,
        o1 == o2,
{
}

/// The entries of a listing page come out of the client in the order the service sent
/// them, none added, dropped or changed.
pub proof fn lemma_listing_order_kept(resp: PokemonResponse, o: Result<PokemonResponse, PokemonError>)
    requires
        maps_outcome(Ok(resp), o),
    ensures
        o is Ok,
        o->Ok_0.results@ == resp.results@,
        o->Ok_0.count == resp.count,
{
}

/// Asking twice while the service answers the same way yields equal results: the mapping
/// depends on the answer alone.
pub proof fn lemma_repeated_request_same_result<T>(
    r1: Result<T, reqwest::Error>,
    r2: Result<T, reqwest::Error>,
    o1: Result<T, PokemonError>,
    o2: Result<T, PokemonError>,
)
    requires
        r1 == r2,
        maps_outcome(r1, o1),
        maps_outcome(r2, o2),
    ensures
        o1 == o2,
{
}

} // verus!
