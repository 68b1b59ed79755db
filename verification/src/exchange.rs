use vstd::prelude::*;
use vstd::string::StringExecFns;

use crate::discovery::callback_url;
use crate::errors::ExchangeError;
use crate::lookup::find_first_in_document;
use crate::lookup::spec_find_first;
use crate::model::ObjectShape;
use crate::scan::rdf_parse;

verus! {

/// The well-known predicate naming the identity of the authorized user.
pub open spec fn user_identifier_predicate() -> Seq<char> {
    "http://www.sparxsystems.com.au/oslc_am#useridentifier"@
}

/// The executable form of the user-identifier predicate.
pub fn user_identifier_predicate_str() -> (r: String)
    ensures
        r@ == user_identifier_predicate(),
{
    "http://www.sparxsystems.com.au/oslc_am#useridentifier".to_owned()
}

/// Where a service accepts the code-for-token exchange, relative to its root
/// URL.
pub fn login_url(root_url: &str) -> (r: String)
    ensures
        r@ == root_url@ + "/login/"@,
{
    let mut u = root_url.to_owned();
    u.append("/login/");
    u
}

/// The fixed-format body of the exchange request, embedding the authorization
/// code and the registered callback address.
pub fn exchange_request_body(code: &str) -> (r: String)
    ensures
        r@ == "sso=openid;code="@ + code@ + ";redirecturi="@ + callback_url(),
{
    let mut b = "sso=openid;code=".to_owned();
    b.append(code);
    b.append(";redirecturi=");
    b.append("http://localhost:8888/openid/callback");
    b
}

/// Reads the identity token out of the exchange response body: the first
/// user-identifier statement with a literal object decides, a well-formed
/// body without one fails with `TokenMissing`, and only a malformed body
/// fails otherwise; this function never reports a transport failure.
pub fn token_from_response(body: &[u8]) -> (r: Result<String, ExchangeError>)
    ensures
        match r {
            Ok(token) => {
                &&& rdf_parse(body@) matches Some(ts)
                &&& spec_find_first(ts, user_identifier_predicate(), ObjectShape::Literal)
                    == Some(token@)
            },
            Err(e) => match e {
                ExchangeError::TokenMissing => {
                    &&& rdf_parse(body@) matches Some(ts)
                    &&& spec_find_first(ts, user_identifier_predicate(), ObjectShape::Literal)
                        is None
                },
                ExchangeError::Malformed(_) => rdf_parse(body@) is None,
                ExchangeError::Network(_) => false,
            },
        },
{
    let predicate = user_identifier_predicate_str();
    match find_first_in_document(body, &predicate, ObjectShape::Literal) {
        Err(crate::errors::ParseError::Malformed(m)) => Err(ExchangeError::Malformed(m)),
        Ok(None) => Err(ExchangeError::TokenMissing),
        Ok(Some(token)) => Ok(token),
    }
}

} // verus!
