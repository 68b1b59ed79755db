use oslc_auth::find_first_in_document;
use oslc_auth::ObjectShape;
use oslc_auth::ParseError;

fn doc(body: &str) -> String {
    format!(
        "<?xml version=\"1.0\"?>\n<rdf:RDF xmlns:rdf=\"http://www.w3.org/1999/02/22-rdf-syntax-ns#\" xmlns:oslc=\"http://open-services.net/ns/core#\" xmlns:am=\"http://www.sparxsystems.com.au/oslc_am#\" xmlns:dc=\"http://purl.org/dc/terms/\">\n{}\n</rdf:RDF>",
        body
    )
}

fn auth_predicate() -> String {
    "http://open-services.net/ns/core#authorizationURI".to_string()
}

#[test]
fn finds_single_match_first_position() {
    let d = doc(
        "<rdf:Description rdf:about=\"urn:sp\">\
         <oslc:authorizationURI rdf:resource=\"http://idp.example/auth\"/>\
         <dc:title>alpha</dc:title>\
         <dc:creator rdf:resource=\"urn:someone\"/>\
         </rdf:Description>",
    );
    let r = find_first_in_document(d.as_bytes(), &auth_predicate(), ObjectShape::Resource);
    assert_eq!(r.unwrap(), Some("http://idp.example/auth".to_string()));
}

#[test]
fn finds_single_match_last_position() {
    let d = doc(
        "<rdf:Description rdf:about=\"urn:sp\">\
         <dc:title>alpha</dc:title>\
         <dc:creator rdf:resource=\"urn:someone\"/>\
         <oslc:authorizationURI rdf:resource=\"http://idp.example/auth\"/>\
         </rdf:Description>",
    );
    let r = find_first_in_document(d.as_bytes(), &auth_predicate(), ObjectShape::Resource);
    assert_eq!(r.unwrap(), Some("http://idp.example/auth".to_string()));
}

#[test]
fn absent_predicate_is_none_not_error() {
    let d = doc(
        "<rdf:Description rdf:about=\"urn:sp\">\
         <dc:title>alpha</dc:title>\
         </rdf:Description>",
    );
    let r = find_first_in_document(d.as_bytes(), &auth_predicate(), ObjectShape::Resource);
    assert_eq!(r.unwrap(), None);
}

#[test]
fn empty_graph_is_none() {
    let d = doc("");
    let r = find_first_in_document(d.as_bytes(), &auth_predicate(), ObjectShape::Resource);
    assert_eq!(r.unwrap(), None);
}

#[test]
fn wrong_shape_is_skipped_for_later_correct_shape() {
    let d = doc(
        "<rdf:Description rdf:about=\"urn:sp\">\
         <oslc:authorizationURI>not-a-reference</oslc:authorizationURI>\
         <oslc:authorizationURI rdf:resource=\"http://idp.example/auth\"/>\
         </rdf:Description>",
    );
    let r = find_first_in_document(d.as_bytes(), &auth_predicate(), ObjectShape::Resource);
    assert_eq!(r.unwrap(), Some("http://idp.example/auth".to_string()));
}

#[test]
fn wrong_shape_alone_is_no_match() {
    let d = doc(
        "<rdf:Description rdf:about=\"urn:sp\">\
         <oslc:authorizationURI>not-a-reference</oslc:authorizationURI>\
         </rdf:Description>",
    );
    let r = find_first_in_document(d.as_bytes(), &auth_predicate(), ObjectShape::Resource);
    assert_eq!(r.unwrap(), None);
}

#[test]
fn literal_shape_finds_literal() {
    let d = doc(
        "<rdf:Description rdf:about=\"urn:u\">\
         <am:useridentifier>user-42</am:useridentifier>\
         </rdf:Description>",
    );
    let p = "http://www.sparxsystems.com.au/oslc_am#useridentifier".to_string();
    let r = find_first_in_document(d.as_bytes(), &p, ObjectShape::Literal);
    assert_eq!(r.unwrap(), Some("user-42".to_string()));
}

#[test]
fn duplicate_correct_matches_first_one_wins() {
    let d = doc(
        "<rdf:Description rdf:about=\"urn:sp\">\
         <oslc:authorizationURI rdf:resource=\"http://idp.example/first\"/>\
         <oslc:authorizationURI rdf:resource=\"http://idp.example/second\"/>\
         </rdf:Description>",
    );
    let r = find_first_in_document(d.as_bytes(), &auth_predicate(), ObjectShape::Resource);
    assert_eq!(r.unwrap(), Some("http://idp.example/first".to_string()));
}

#[test]
fn lookup_is_idempotent() {
    let d = doc(
        "<rdf:Description rdf:about=\"urn:sp\">\
         <dc:title>alpha</dc:title>\
         <oslc:authorizationURI rdf:resource=\"http://idp.example/auth\"/>\
         </rdf:Description>",
    );
    let r1 = find_first_in_document(d.as_bytes(), &auth_predicate(), ObjectShape::Resource);
    let r2 = find_first_in_document(d.as_bytes(), &auth_predicate(), ObjectShape::Resource);
    assert_eq!(r1.unwrap(), r2.unwrap());
}

#[test]
fn idempotent_on_absent_predicate() {
    let d = doc("<rdf:Description rdf:about=\"urn:sp\"><dc:title>alpha</dc:title></rdf:Description>");
    let r1 = find_first_in_document(d.as_bytes(), &auth_predicate(), ObjectShape::Resource);
    let r2 = find_first_in_document(d.as_bytes(), &auth_predicate(), ObjectShape::Resource);
    assert_eq!(r1.unwrap(), r2.unwrap());
}

#[test]
fn malformed_document_is_an_error() {
    let d = "<rdf:RDF xmlns:rdf=\"http://www.w3.org/1999/02/22-rdf-syntax-ns#\"><rdf:Description></wrong></rdf:RDF>";
    let r = find_first_in_document(d.as_bytes(), &auth_predicate(), ObjectShape::Resource);
    match r {
        Err(ParseError::Malformed(m)) => assert!(!m.is_empty()),
        _ => panic!("a truncated document must fail to parse"),
    }
}
