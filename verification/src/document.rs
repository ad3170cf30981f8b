//! Resource documents as generic trees of mappings and scalars.

use vstd::prelude::*;

verus! {

/// A resource document, or a part of one.
///
/// Only text and mappings are ever looked into: a mapping is kept as its
/// entries, in the order in which they were written. Whatever else a
/// document holds (numbers, sequences and the like) is carried along as it
/// came.
#[derive(Debug, PartialEq)]
pub enum Document {
    String(String),
    Mapping(Vec<(Document, Document)>),
    Other(serde_yaml::Value),
}

/// What a document says, as a mathematical tree.
pub enum Node {
    String(Seq<char>),
    Mapping(Seq<(Node, Node)>),
    Other(serde_yaml::Value),
}

/// The entries of a mapping: keys with their values, in order.
pub type Entries = Seq<(Node, Node)>;

/// The tree that a document stands for.
pub open spec fn node_of(doc: Document) -> Node
    decreases doc,
{
    match doc {
        Document::String(text) => Node::String(text@),
        Document::Mapping(entries) => Node::Mapping(
            Seq::new(
                entries@.len(),
                |i: int|
                    if 0 <= i < entries@.len() {
                        (node_of(entries@[i].0), node_of(entries@[i].1))
                    } else {
                        (Node::String(Seq::empty()), Node::String(Seq::empty()))
                    },
            ),
        ),
        Document::Other(value) => Node::Other(value),
    }
}

impl View for Document {
    type V = Node;

    open spec fn view(&self) -> Node {
        node_of(*self)
    }
}

/// The entries of a mapping's vector, each key and value by its view.
pub open spec fn entries_view(entries: Seq<(Document, Document)>) -> Entries {
    Seq::new(entries.len(), |i: int| (entries[i].0@, entries[i].1@))
}

/// The view of a mapping is the view of its entries, one by one.
pub proof fn lemma_mapping_view(entries: Vec<(Document, Document)>)
    ensures
        Document::Mapping(entries)@ == Node::Mapping(entries_view(entries@)),
{
    assert(Document::Mapping(entries)@->Mapping_0 =~= entries_view(entries@));
}

} // verus!
