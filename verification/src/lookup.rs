use vstd::prelude::*;

use crate::errors::ParseError;
use crate::model::object_text;
use crate::model::shape_of;
use crate::model::Object;
use crate::model::ObjectShape;
use crate::model::SpecTriple;
use crate::model::Triple;
use crate::scan::parse_document;
use crate::scan::rdf_parse;
use crate::scan::triples_view;

verus! {

/// Whether a statement carries the sought predicate with an object of the
/// sought shape.
pub open spec fn triple_matches(t: SpecTriple, predicate: Seq<char>, shape: ObjectShape) -> bool {
    t.predicate == predicate && shape_of(t.object) == shape
}

/// The value of the first statement whose predicate and object shape match,
/// or `None` when no statement matches.
pub open spec fn spec_find_first(
    ts: Seq<SpecTriple>,
    predicate: Seq<char>,
    shape: ObjectShape,
) -> Option<Seq<char>>
    decreases ts.len(),
{
    if ts.len() == 0 {
        None
    } else if triple_matches(ts[0], predicate, shape) {
        Some(object_text(ts[0].object))
    } else {
        spec_find_first(ts.drop_first(), predicate, shape)
    }
}

/// The mathematical value of an optional string result.
pub open spec fn option_view(o: Option<String>) -> Option<Seq<char>> {
    match o {
        Some(s) => Some(s@),
        None => None,
    }
}

/// A lookup that finds no matching statement returns `None`, never an error.
pub proof fn lemma_find_none(ts: Seq<SpecTriple>, predicate: Seq<char>, shape: ObjectShape)
    requires
        forall|j: int| 0 <= j < ts.len() ==> !triple_matches(ts[j], predicate, shape),
    ensures
        spec_find_first(ts, predicate, shape) is None,
    decreases ts.len(),
{
    if ts.len() > 0 {
        lemma_find_none(ts.drop_first(), predicate, shape);
    }
}

/// The lookup returns the value of the first matching statement: whatever
/// follows a match does not change the outcome.
pub proof fn lemma_find_first_at(
    ts: Seq<SpecTriple>,
    predicate: Seq<char>,
    shape: ObjectShape,
    i: int,
)
    requires
        0 <= i < ts.len(),
        triple_matches(ts[i], predicate, shape),
        forall|j: int| 0 <= j < i ==> !triple_matches(ts[j], predicate, shape),
    ensures
        spec_find_first(ts, predicate, shape) == Some(object_text(ts[i].object)),
    decreases ts.len(),
{
    if i > 0 {
        lemma_find_first_at(ts.drop_first(), predicate, shape, i - 1);
    }
}

/// When exactly one statement matches the sought predicate and shape, the
/// lookup returns its value, wherever in the document it stands.
pub proof fn lemma_find_unique_match(
    ts: Seq<SpecTriple>,
    predicate: Seq<char>,
    shape: ObjectShape,
    i: int,
)
    requires
        0 <= i < ts.len(),
        triple_matches(ts[i], predicate, shape),
        forall|j: int| 0 <= j < ts.len() && j != i ==> !triple_matches(ts[j], predicate, shape),
    ensures
        spec_find_first(ts, predicate, shape) == Some(object_text(ts[i].object)),
{
    lemma_find_first_at(ts, predicate, shape, i);
}

/// A statement with the sought predicate but the wrong object shape is not a
/// match: a later statement with the correct shape is returned instead.
pub proof fn lemma_wrong_shape_skipped(
    ts: Seq<SpecTriple>,
    predicate: Seq<char>,
    shape: ObjectShape,
    i: int,
    j: int,
)
    requires
        0 <= i < j < ts.len(),
        ts[i].predicate == predicate,
        shape_of(ts[i].object) != shape,
        triple_matches(ts[j], predicate, shape),
        forall|k: int| 0 <= k < j ==> !triple_matches(ts[k], predicate, shape),
    ensures
        spec_find_first(ts, predicate, shape) == Some(object_text(ts[j].object)),
{
    lemma_find_first_at(ts, predicate, shape, j);
}

/// The value a statement hands to a caller, and whether it matches, both as
/// the executable scan decides them.
fn match_value(t: &Triple, predicate: &String, shape: ObjectShape) -> (r: Option<String>)
    ensures
        match r {
            Some(v) => triple_matches(t@, predicate@, shape) && v@ == object_text(t@.object),
            None => !triple_matches(t@, predicate@, shape),
        },
{
    if t.predicate == *predicate {
        match &t.object {
            Object::Resource(s) => {
                if shape == ObjectShape::Resource {
                    Some(s.clone())
                } else {
                    None
                }
            },
            Object::Literal(s) => {
                if shape == ObjectShape::Literal {
                    Some(s.clone())
                } else {
                    None
                }
            },
        }
    } else {
        None
    }
}

/// Scans the statements in document order and returns the value of the first
/// one matching the predicate and shape, stopping at that statement; `None`
/// when no statement matches.
pub fn find_first(triples: &Vec<Triple>, predicate: &String, shape: ObjectShape) -> (r: Option<
    String,
>)
    ensures
        option_view(r) == spec_find_first(triples_view(triples@), predicate@, shape),
{
    let ghost ts = triples_view(triples@);
    let mut i: usize = 0;
    while i < triples.len()
        invariant
            0 <= i <= triples.len(),
            ts == triples_view(triples@),
            ts.len() == triples@.len(),
            forall|j: int| 0 <= j < i ==> !triple_matches(ts[j], predicate@, shape),
        decreases triples.len() - i,
    {
        assert(ts[i as int] == triples@[i as int]@);
        if let Some(v) = match_value(&triples[i], predicate, shape) {
            proof {
                lemma_find_first_at(ts, predicate@, shape, i as int);
            }
            return Some(v);
        }
        i = i + 1;
    }
    proof {
        lemma_find_none(ts, predicate@, shape);
    }
    None
}

/// The outcome the lookup contract assigns to a document: `None` when the
/// document is malformed, otherwise the first matching value, if any.
pub open spec fn lookup_outcome(
    doc: Seq<u8>,
    predicate: Seq<char>,
    shape: ObjectShape,
) -> Option<Option<Seq<char>>> {
    match rdf_parse(doc) {
        Some(ts) => Some(spec_find_first(ts, predicate, shape)),
        None => None,
    }
}

/// Parses a document and returns the first value matching the predicate and
/// shape: `Ok(None)` when the document is well-formed but no statement
/// matches, an error only when the document itself is malformed.
pub fn find_first_in_document(bytes: &[u8], predicate: &String, shape: ObjectShape) -> (r: Result<
    Option<String>,
    ParseError,
>)
    ensures
        match r {
            Ok(v) => lookup_outcome(bytes@, predicate@, shape) == Some(option_view(v)),
            Err(_) => lookup_outcome(bytes@, predicate@, shape) is None,
        },
{
    match parse_document(bytes) {
        Ok(triples) => Ok(find_first(&triples, predicate, shape)),
        Err(e) => Err(e),
    }
}

/// Looking a predicate up is idempotent: two outcomes that the lookup
/// contract admits for the same unmodified document are the same outcome.
pub proof fn lemma_lookup_idempotent(
    doc: Seq<u8>,
    predicate: Seq<char>,
    shape: ObjectShape,
    r1: Option<Option<Seq<char>>>,
    r2: Option<Option<Seq<char>>>,
)
    requires
        r1 == lookup_outcome(doc, predicate, shape),
        r2 == lookup_outcome(doc, predicate, shape),
    ensures
        r1 == r2,
{
}

} // verus!
