//! JSON documents that payment records carry without looking inside.

use vstd::prelude::*;

verus! {

/// `serde_json::Value`: a JSON document, carried through as it is.
#[verifier::external_type_specification]
#[verifier::external_body]
pub struct ExJsonValue(serde_json::Value);

/// `serde_json::Error`: why a document could not be read.
#[verifier::external_type_specification]
#[verifier::external_body]
pub struct ExJsonError(serde_json::Error);

/// `<serde_json::Value as Clone>::clone` yields a document equal to the one
/// it was given.
pub assume_specification[ <serde_json::Value as Clone>::clone ](
    value: &serde_json::Value,
) -> (r: serde_json::Value)
    ensures
        r == *value,
;

/// What a JSON document holds, written out: the characters of its compact
/// JSON text, as the `Display` of `serde_json::Value` produces it.
pub uninterp spec fn document_json(value: serde_json::Value) -> Seq<char>;

/// `to_string` of `serde_json::Value`, through its `Display`: the compact
/// JSON text of the document. The contract only names the text.
#[verifier::external_body]
pub(crate) fn document_text(value: &serde_json::Value) -> (r: String)
    ensures
        r@ == document_json(*value),
{
    value.to_string()
}

/// A stored document together with the outcome of reading it as a `T`.
#[derive(Clone, Debug, PartialEq)]
pub struct Stored<T> {
    /// The document as it was stored.
    pub document: serde_json::Value,
    /// The document read as a `T`; `None` when it does not have that shape.
    pub typed: Option<T>,
}

/// A copy of an optional document.
pub fn clone_opt_document(value: &Option<serde_json::Value>) -> (r: Option<serde_json::Value>)
    ensures
        r == *value,
{
    match value {
        Some(v) => Some(v.clone()),
        None => None,
    }
}

/// What a stored value holds when read as a `T`, if it can be read so.
pub open spec fn typed_of<T>(stored: Option<Stored<T>>) -> Option<T> {
    match stored {
        Some(s) => s.typed,
        None => None,
    }
}

/// Takes out what a stored value holds when read as a `T`.
pub fn take_typed<T>(stored: Option<Stored<T>>) -> (r: Option<T>)
    ensures
        r == typed_of(stored),
{
    match stored {
        Some(s) => s.typed,
        None => None,
    }
}

/// The document of an optional stored value.
pub open spec fn document_of<T>(stored: Option<Stored<T>>) -> Option<serde_json::Value> {
    match stored {
        Some(s) => Some(s.document),
        None => None,
    }
}

/// Takes the document out of an optional stored value.
pub fn take_document<T>(stored: Option<Stored<T>>) -> (r: Option<serde_json::Value>)
    ensures
        r == document_of(stored),
{
    match stored {
        Some(s) => Some(s.document),
        None => None,
    }
}

/// The documents of a list of stored values, in the same order.
pub open spec fn documents_of<T>(stored: Seq<Stored<T>>) -> Seq<serde_json::Value> {
    Seq::new(stored.len(), |i: int| stored[i].document)
}

/// Copies the documents of a list of stored values, in the same order.
pub fn collect_documents<T>(stored: &Vec<Stored<T>>) -> (r: Vec<serde_json::Value>)
    ensures
        r@ == documents_of(stored@),
{
    let mut out: Vec<serde_json::Value> = Vec::new();
    let mut i: usize = 0;
    while i < stored.len()
        invariant
            i <= stored.len(),
            out@.len() == i,
            forall|j: int| 0 <= j < i ==> out@[j] == stored@[j].document,
        decreases stored.len() - i,
    {
        out.push(stored[i].document.clone());
        i += 1;
    }
    out
}

/// Whether every entry of a stored list can be read.
pub open spec fn all_readable<T>(list: Seq<Stored<T>>) -> bool {
    forall|i: int| 0 <= i < list.len() ==> (#[trigger] list[i]).typed is Some
}

/// The entries of a stored list, read, in the same order.
pub open spec fn typed_items<T>(list: Seq<Stored<T>>) -> Seq<T> {
    Seq::new(list.len(), |i: int| list[i].typed->Some_0)
}

} // verus!
