use vstd::prelude::*;
use vstd::string::StringExecFns;

use crate::errors::DiscoveryError;
use crate::lookup::find_first_in_document;
use crate::lookup::spec_find_first;
use crate::model::ObjectShape;
use crate::scan::rdf_parse;

verus! {

/// The well-known predicate naming a service's authorization endpoint.
pub open spec fn authorization_predicate() -> Seq<char> {
    "http://open-services.net/ns/core#authorizationURI"@
}

/// The executable form of the authorization-endpoint predicate.
pub fn authorization_predicate_str() -> (r: String)
    ensures
        r@ == authorization_predicate(),
{
    "http://open-services.net/ns/core#authorizationURI".to_owned()
}

/// Where a service's metadata document lives, relative to its root URL.
pub fn metadata_url(root_url: &str) -> (r: String)
    ensures
        r@ == root_url@ + "/sp/"@,
{
    let mut u = root_url.to_owned();
    u.append("/sp/");
    u
}

/// What parsing a string as an absolute URL yields: `None` when the string is
/// not a syntactically valid absolute URL, otherwise the URL in its
/// normalized serialization.
pub uninterp spec fn url_normalized(s: Seq<char>) -> Option<Seq<char>>;

/// Relies on url::Url::parse: accepts exactly the syntactically valid
/// absolute URLs and returns the parsed URL's serialization, a function of
/// the input string alone.
#[verifier::external_body]
fn parse_absolute_url(s: &str) -> (r: Option<String>)
    ensures
        match r {
            Some(u) => url_normalized(s@) == Some(u@),
            None => url_normalized(s@) is None,
        },
{
    match url::Url::parse(s) {
        Ok(u) => Some(String::from(u)),
        Err(_) => None,
    }
}

/// Resolves the authorization endpoint out of the metadata document fetch:
/// the HTTP status of the answer and its body decide the outcome exactly as
/// stated, and success is owed whenever the status is a success, the body is
/// well-formed, and it carries an authorization-URI statement whose resource
/// is a valid absolute URL.
pub fn resolve_authorization_endpoint(status: u16, body: &[u8]) -> (r: Result<
    String,
    DiscoveryError,
>)
    ensures
        match r {
            Ok(endpoint) => {
                &&& status == 200
                &&& rdf_parse(body@) matches Some(ts)
                &&& spec_find_first(
                    ts,
                    authorization_predicate(),
                    ObjectShape::Resource,
                ) matches Some(iri)
                &&& url_normalized(iri) == Some(endpoint@)
            },
            Err(e) => match e {
                DiscoveryError::ServiceUnavailable { status: st } => st == status && status
                    != 200,
                DiscoveryError::Malformed(_) => status == 200 && rdf_parse(body@) is None,
                DiscoveryError::EndpointMissing => {
                    &&& status == 200
                    &&& rdf_parse(body@) matches Some(ts)
                    &&& spec_find_first(ts, authorization_predicate(), ObjectShape::Resource)
                        is None
                },
                DiscoveryError::InvalidEndpoint => {
                    &&& status == 200
                    &&& rdf_parse(body@) matches Some(ts)
                    &&& spec_find_first(
                        ts,
                        authorization_predicate(),
                        ObjectShape::Resource,
                    ) matches Some(iri)
                    &&& url_normalized(iri) is None
                },
            },
        },
{
    if status != 200 {
        return Err(DiscoveryError::ServiceUnavailable { status });
    }
    let predicate = authorization_predicate_str();
    match find_first_in_document(body, &predicate, ObjectShape::Resource) {
        Err(crate::errors::ParseError::Malformed(m)) => Err(DiscoveryError::Malformed(m)),
        Ok(None) => Err(DiscoveryError::EndpointMissing),
        Ok(Some(iri)) => match parse_absolute_url(iri.as_str()) {
            Some(endpoint) => Ok(endpoint),
            None => Err(DiscoveryError::InvalidEndpoint),
        },
    }
}

/// The single registered callback address of this deployment.
pub open spec fn callback_url() -> Seq<char> {
    "http://localhost:8888/openid/callback"@
}

/// The executable form of the registered callback address.
pub fn callback_url_str() -> (r: String)
    ensures
        r@ == callback_url(),
{
    "http://localhost:8888/openid/callback".to_owned()
}

/// The URL a browser is sent to so the user can authorize: the discovered
/// endpoint carrying the response type, the client identifier, the scopes and
/// the registered callback address.
pub fn authorization_redirect_url(endpoint: &str, client_id: &str) -> (r: String)
    ensures
        r@ == endpoint@ + "?response_type=code&client_id="@ + client_id@
            + "&scope=email+profile&redirect_uri="@ + callback_url(),
{
    let mut u = endpoint.to_owned();
    u.append("?response_type=code&client_id=");
    u.append(client_id);
    u.append("&scope=email+profile&redirect_uri=");
    u.append("http://localhost:8888/openid/callback");
    u
}

} // verus!
