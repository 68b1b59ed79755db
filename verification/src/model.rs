use vstd::prelude::*;

verus! {

/// The object position of a statement: either a reference to another
/// resource (an IRI) or a plain literal value.
pub enum Object {
    Resource(String),
    Literal(String),
}

/// Mathematical counterpart of `Object`.
pub enum SpecObject {
    Resource(Seq<char>),
    Literal(Seq<char>),
}

impl View for Object {
    type V = SpecObject;

    open spec fn view(&self) -> SpecObject {
        match self {
            Object::Resource(s) => SpecObject::Resource(s@),
            Object::Literal(s) => SpecObject::Literal(s@),
        }
    }
}

/// One subject-predicate-object statement of a graph document.
pub struct Triple {
    pub subject: String,
    pub predicate: String,
    pub object: Object,
}

/// Mathematical counterpart of `Triple`.
pub struct SpecTriple {
    pub subject: Seq<char>,
    pub predicate: Seq<char>,
    pub object: SpecObject,
}

impl View for Triple {
    type V = SpecTriple;

    open spec fn view(&self) -> SpecTriple {
        SpecTriple { subject: self.subject@, predicate: self.predicate@, object: self.object@ }
    }
}

/// The kind of object a lookup expects.
#[derive(Clone, Copy, PartialEq, Eq, Structural)]
pub enum ObjectShape {
    Resource,
    Literal,
}

/// The shape an object value has.
pub open spec fn shape_of(o: SpecObject) -> ObjectShape {
    match o {
        SpecObject::Resource(_) => ObjectShape::Resource,
        SpecObject::Literal(_) => ObjectShape::Literal,
    }
}

/// The string carried by an object, whatever its shape.
pub open spec fn object_text(o: SpecObject) -> Seq<char> {
    match o {
        SpecObject::Resource(s) => s,
        SpecObject::Literal(s) => s,
    }
}

} // verus!
