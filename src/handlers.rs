//! The analysis handlers this server ships with. Each reads a document
//! snapshot, or only the request's parameters, and never the store.
use vstd::prelude::*;
use vstd::string::StringExecFns;
use crate::diagnostics::Diagnostic;
use crate::store::Document;
use crate::text::{Position, TextRange};

verus! {

/// A place in a document.
#[derive(Clone, Debug)]
pub struct Location {
    pub uri: String,
    pub range: TextRange,
}

/// The empty range at `p`.
pub open spec fn point_range(p: Position) -> TextRange {
    TextRange { start: p, end: p }
}

/// Where the symbol at `pos` is defined: the position itself.
pub fn definition(uri: &String, pos: Position) -> (r: Option<Location>)
    ensures
        r matches Option::Some(l) && l.uri@ == uri@ && l.range == point_range(pos),
{
    Option::Some(Location { uri: uri.clone(), range: TextRange { start: pos, end: pos } })
}

/// The places that refer to the symbol at `pos`: the position itself.
pub fn references(uri: &String, pos: Position) -> (r: Vec<Location>)
    ensures
        r@.len() == 1,
        r@[0].uri@ == uri@,
        r@[0].range == point_range(pos),
{
    vec![Location { uri: uri.clone(), range: TextRange { start: pos, end: pos } }]
}

/// The diagnostics of a document: a single error marker at its start.
pub fn document_diagnostics(doc: &Document) -> (r: Vec<Diagnostic>)
    ensures
        r@.len() == 1,
        r@[0].range == point_range(Position { line: 0, character: 0 }),
        r@[0].severity is None,
        r@[0].message@ == "error"@,
{
    let origin = Position { line: 0, character: 0 };
    vec![
        Diagnostic {
            range: TextRange { start: origin, end: origin },
            severity: Option::None,
            message: String::from_str("error"),
        },
    ]
}

} // verus!
