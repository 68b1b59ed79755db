use vstd::prelude::*;

verus! {

/// A document that is not well-formed markup; carries a human-readable
/// diagnostic taken from the parser.
#[derive(Debug)]
pub enum ParseError {
    Malformed(String),
}

/// Why resolving the authorization endpoint failed.
#[derive(Debug)]
pub enum DiscoveryError {
    /// The metadata document fetch answered with a non-success HTTP status.
    ServiceUnavailable { status: u16 },
    /// The document is well-formed but carries no authorization-URI statement
    /// with a resource object.
    EndpointMissing,
    /// The authorization-URI statement was found, but its value is not a
    /// syntactically valid absolute URL.
    InvalidEndpoint,
    /// The metadata document is not well-formed markup.
    Malformed(String),
}

/// Why exchanging an authorization code for an identity token failed.
#[derive(Debug)]
pub enum ExchangeError {
    /// The exchange request could not be carried out at the transport level.
    Network(String),
    /// The response is well-formed but carries no user-identifier statement
    /// with a literal object.
    TokenMissing,
    /// The response body is not well-formed markup.
    Malformed(String),
}

} // verus!
