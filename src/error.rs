//! Why a node could not be turned into a typed configuration.

use vstd::prelude::*;
use crate::padding::PaddingError;

verus! {

/// The reasons a builder or the dispatcher refuses a node.
#[derive(Debug, Clone, Copy, PartialEq, Eq, Structural)]
pub enum ConfigError {
    /// A mandatory input, such as the weight tensor, has no static value.
    MissingRequiredInput,
    /// The weight tensor's shape does not have the layout the operator needs.
    InvalidWeightShape,
    /// An attribute is stored with another encoding than the operator reads.
    AttributeTypeMismatch,
    /// An attribute holds an empty list, a value below one, or a value whose
    /// use overflows.
    InvalidAttributeValue,
    /// The padding cannot be represented as a symmetric, non-negative policy.
    UnsupportedPadding(PaddingError),
    /// No builder is registered for the node's operator kind.
    UnsupportedOperator,
}

impl ConfigError {
    /// A human-readable description of the failure.
    pub fn message(&self) -> (r: &'static str) {
        match self {
            ConfigError::MissingRequiredInput => "weight tensor must be present",
            ConfigError::InvalidWeightShape => "weight tensor has an unexpected shape",
            ConfigError::AttributeTypeMismatch => "attribute has an unexpected type",
            ConfigError::InvalidAttributeValue => "attribute has an invalid value",
            ConfigError::UnsupportedPadding(e) => e.message(),
            ConfigError::UnsupportedOperator => "operator is not supported",
        }
    }
}

} // verus!
