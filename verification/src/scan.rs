use vstd::prelude::*;

use crate::errors::ParseError;
use crate::model::Object;
use crate::model::SpecTriple;
use crate::model::Triple;

use rio_api::model::Literal;
use rio_api::model::Term;
use rio_api::parser::TriplesParser;
use rio_xml::RdfXmlError;
use rio_xml::RdfXmlParser;

verus! {

/// What scanning a byte stream in the discovery document's markup grammar
/// yields: `None` if the document is not well-formed, otherwise its
/// statements, in document order.
pub uninterp spec fn rdf_parse(bytes: Seq<u8>) -> Option<Seq<SpecTriple>>;

/// The mathematical statements of a sequence of parsed triples.
pub open spec fn triples_view(ts: Seq<Triple>) -> Seq<SpecTriple> {
    ts.map_values(|t: Triple| t@)
}

#[verifier::external_type_specification]
#[verifier::external_body]
pub struct ExTerm<'a>(rio_api::model::Term<'a>);

/// Relies on rio_api's term model: picks the text out of the object position
/// of a statement, keeping resource references and literals apart.
#[verifier::external_body]
fn object_of<'a>(term: rio_api::model::Term<'a>) -> (r: Object) {
    match term {
        Term::NamedNode(n) => Object::Resource(n.iri.to_string()),
        Term::BlankNode(b) => Object::Resource(b.id.to_string()),
        Term::Literal(Literal::Simple { value }) => Object::Literal(value.to_string()),
        Term::Literal(Literal::LanguageTaggedString { value, .. }) => Object::Literal(
            value.to_string(),
        ),
        Term::Literal(Literal::Typed { value, .. }) => Object::Literal(value.to_string()),
        Term::Triple(inner) => Object::Resource(inner.to_string()),
    }
}

/// Relies on rio_xml::RdfXmlParser driven through
/// rio_api::parser::TriplesParser::parse_all: parses an RDF/XML document into
/// its statements, in document order, and rejects a document that is not
/// well-formed, all as a function of the bytes alone.
#[verifier::external_body]
pub(crate) fn parse_document(bytes: &[u8]) -> (r: Result<Vec<Triple>, ParseError>)
    ensures
        match r {
            Ok(ts) => rdf_parse(bytes@) == Some(triples_view(ts@)),
            Err(_) => rdf_parse(bytes@) is None,
        },
{
    let mut out: Vec<Triple> = Vec::new();
    let parsed = RdfXmlParser::new(bytes, None).parse_all(&mut |t| {
        let subject = t.subject.to_string();
        let predicate = t.predicate.iri.to_string();
        out.push(Triple { subject, predicate, object: object_of(t.object) });
        Ok::<(), RdfXmlError>(())
    });
    parsed.map(|_| out).map_err(|e| ParseError::Malformed(e.to_string()))
}

} // verus!
