//! Selection of the configuration builder by operator kind.

use vstd::prelude::*;
use crate::conv1d::{Conv1dConfig, conv1d_config, spec_conv1d_config};
use crate::conv2d::{Conv2dConfig, conv2d_config, spec_conv2d_config};
use crate::error::ConfigError;
use crate::node::{Node, NodeKind};

verus! {

/// The typed configuration of any supported operator.
#[derive(Debug, Clone, Copy, PartialEq, Eq, Structural)]
pub enum OperatorConfig {
    Conv1d(Conv1dConfig),
    Conv2d(Conv2dConfig),
}

/// The configuration of `node` by the builder of its kind; operators
/// without a builder are refused as unsupported.
pub open spec fn spec_build_config(node: Node) -> Result<OperatorConfig, ConfigError> {
    match node.kind {
        NodeKind::Conv1d => match spec_conv1d_config(node) {
            Ok(c) => Ok(OperatorConfig::Conv1d(c)),
            Err(e) => Err(e),
        },
        NodeKind::Conv2d => match spec_conv2d_config(node) {
            Ok(c) => Ok(OperatorConfig::Conv2d(c)),
            Err(e) => Err(e),
        },
        _ => Err(ConfigError::UnsupportedOperator),
    }
}

/// Builds the typed configuration of `node` with the builder of its kind.
pub fn build_config(node: &Node) -> (r: Result<OperatorConfig, ConfigError>)
    ensures
        r == spec_build_config(*node),
{
    match node.kind {
        NodeKind::Conv1d => match conv1d_config(node) {
            Ok(c) => Ok(OperatorConfig::Conv1d(c)),
            Err(e) => Err(e),
        },
        NodeKind::Conv2d => match conv2d_config(node) {
            Ok(c) => Ok(OperatorConfig::Conv2d(c)),
            Err(e) => Err(e),
        },
        _ => Err(ConfigError::UnsupportedOperator),
    }
}

/// Building is a function of the node's kind, inputs and attributes alone:
/// two nodes that agree on them get the same configuration or the same error.
pub proof fn lemma_build_config_deterministic(a: Node, b: Node)
    requires
        a.kind == b.kind,
        a.inputs@ == b.inputs@,
        a.attrs.entries@ == b.attrs.entries@,
    ensures
        spec_build_config(a) == spec_build_config(b),
{
}

/// Every builder reads the bias from the arity: two inputs (data and
/// weight) mean no bias, three (data, weight and bias) mean a bias.
pub proof fn lemma_bias_by_arity(node: Node)
    ensures
        match spec_build_config(node) {
            Ok(OperatorConfig::Conv1d(c)) => (node.inputs@.len() == 2 ==> !c.bias) && (
            node.inputs@.len() == 3 ==> c.bias),
            Ok(OperatorConfig::Conv2d(c)) => (node.inputs@.len() == 2 ==> !c.bias) && (
            node.inputs@.len() == 3 ==> c.bias),
            Err(_) => true,
        },
{
}

} // verus!
