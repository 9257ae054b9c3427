//! Extraction and validation of typed operator configurations from the
//! loosely typed nodes of an imported computational graph.

pub mod attribute;
pub mod conv1d;
pub mod conv2d;
pub mod dispatch;
pub mod error;
pub mod matmul;
pub mod node;
pub mod padding;
