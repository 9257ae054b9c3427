//! Generic graph nodes as the loader hands them over: an operator kind,
//! ordered tensor inputs and outputs, and an attribute store.

use vstd::prelude::*;
use crate::attribute::Attributes;

verus! {

/// The operator a node stands for.
#[derive(Debug, Clone, Copy, PartialEq, Eq, Structural)]
pub enum NodeKind {
    Conv1d,
    Conv2d,
    Conv3d,
    ConvTranspose1d,
    MaxPool1d,
    AvgPool1d,
    Reshape,
    Transpose,
}

/// A value known when the graph is imported, such as a weight tensor.
#[derive(Debug, Clone)]
pub struct StaticValue {
    /// Dimension sizes, outermost first.
    pub shape: Vec<usize>,
    /// The elements' raw little-endian bytes.
    pub data: Vec<u8>,
}

/// What the graph records about one input or output tensor.
#[derive(Debug, Clone)]
pub struct TensorRef {
    pub name: String,
    /// The static shape, when it is known.
    pub shape: Option<Vec<usize>>,
    /// The static value, when the tensor is a compile-time constant.
    pub value: Option<StaticValue>,
}

/// One operator instance of the graph.
#[derive(Debug, Clone)]
pub struct Node {
    pub kind: NodeKind,
    pub name: String,
    /// Inputs in order; the position gives the role (data, weight, bias, ...).
    pub inputs: Vec<TensorRef>,
    pub outputs: Vec<TensorRef>,
    pub attrs: Attributes,
}

/// The shape of the static value at input `index`, if there is one.
pub open spec fn static_input_shape(node: Node, index: int) -> Option<Seq<usize>> {
    if 0 <= index < node.inputs@.len() {
        match node.inputs@[index].value {
            Some(v) => Some(v.shape@),
            None => None,
        }
    } else {
        None
    }
}

impl Node {
    /// The shape of the static value at input `index`, if there is one.
    pub fn static_input_shape(&self, index: usize) -> (r: Option<&Vec<usize>>)
        ensures
            match r {
                Some(s) => static_input_shape(*self, index as int) == Some(s@),
                None => static_input_shape(*self, index as int) == None::<Seq<usize>>,
            },
    {
        if index < self.inputs.len() {
            match &self.inputs[index].value {
                Some(v) => Some(&v.shape),
                None => None,
            }
        } else {
            None
        }
    }
}

} // verus!
