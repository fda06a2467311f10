//! Records produced by the tabular-file reader: one vertex or one edge each.

use vstd::prelude::*;
use crate::report::ErrorKind;

verus! {

/// No property key occurs twice within one record.
pub open spec fn keys_unique(props: Seq<(String, String)>) -> bool {
    forall|i: int, j: int|
        0 <= i < j < props.len() ==> props[i].0@ != props[j].0@
}

/// A vertex record: a label and a mapping from property key to value,
/// kept in reader order.
#[derive(Debug)]
pub struct Node {
    pub properties: Vec<(String, String)>,
    pub label: String,
}

impl Node {
    /// A valid vertex record has a non-empty label and unique property keys.
    pub open spec fn wf(self) -> bool {
        &&& self.label@.len() > 0
        &&& keys_unique(self.properties@)
    }

    /// Builds a vertex record; an empty label is an invalid record.
    pub fn new(label: String, properties: Vec<(String, String)>) -> (r: Result<Node, ErrorKind>)
        requires
            keys_unique(properties@),
        ensures
            match r {
                Ok(node) => {
                    &&& node.wf()
                    &&& node.label == label
                    &&& node.properties == properties
                    &&& label@.len() > 0
                },
                Err(e) => {
                    &&& e == ErrorKind::InvalidRecord
                    &&& label@.len() == 0
                },
            },
    {
        if label.as_str().is_empty() {
            Err(ErrorKind::InvalidRecord)
        } else {
            Ok(Node { properties, label })
        }
    }
}

/// An edge record: opaque endpoint keys naming already-created vertices,
/// and the relationship label of the edge between them.
#[derive(Debug)]
pub struct Edge {
    pub from: String,
    pub to: String,
    pub relationship: String,
}

impl Edge {
    /// A valid edge record has no empty field.
    pub open spec fn wf(self) -> bool {
        &&& self.from@.len() > 0
        &&& self.to@.len() > 0
        &&& self.relationship@.len() > 0
    }

    /// Builds an edge record; any empty field is an invalid record.
    pub fn new(from: String, to: String, relationship: String) -> (r: Result<Edge, ErrorKind>)
        ensures
            match r {
                Ok(edge) => {
                    &&& edge.wf()
                    &&& edge.from == from
                    &&& edge.to == to
                    &&& edge.relationship == relationship
                },
                Err(e) => {
                    &&& e == ErrorKind::InvalidRecord
                    &&& (from@.len() == 0 || to@.len() == 0 || relationship@.len() == 0)
                },
            },
    {
        if from.as_str().is_empty() || to.as_str().is_empty() || relationship.as_str().is_empty() {
            Err(ErrorKind::InvalidRecord)
        } else {
            Ok(Edge { from, to, relationship })
        }
    }
}

impl Clone for Edge {
    /// A cloned edge record equals the original field for field.
    fn clone(&self) -> (r: Self)
        ensures
            r == *self,
    {
        Edge {
            from: self.from.clone(),
            to: self.to.clone(),
            relationship: self.relationship.clone(),
        }
    }
}

} // verus!
