//! The configuration builder for one-dimensional convolution nodes.

use vstd::prelude::*;
use crate::attribute::{AttributeValue, Attributes};
use crate::error::ConfigError;
use crate::node::{Node, static_input_shape};
use crate::padding::{PaddingConfig1d, lemma_padding_1d_total, padding_config_1d, spec_padding_1d};

verus! {

/// A fully resolved one-dimensional convolution.
#[derive(Debug, Clone, Copy, PartialEq, Eq, Structural)]
pub struct Conv1dConfig {
    /// Input channels
    pub channels_in: usize,
    /// Output channels
    pub channels_out: usize,
    /// Kernel size
    pub kernel_size: usize,
    /// Stride
    pub stride: usize,
    /// Dilation
    pub dilation: usize,
    /// Number of groups
    pub groups: usize,
    /// Whether bias is used
    pub bias: bool,
    /// Padding configuration
    pub padding: PaddingConfig1d,
}

impl Conv1dConfig {
    /// Assembles a configuration from its parts.
    pub fn new(
        channels_in: usize,
        channels_out: usize,
        kernel_size: usize,
        stride: usize,
        padding: PaddingConfig1d,
        dilation: usize,
        groups: usize,
        bias: bool,
    ) -> (r: Self)
        ensures
            r == (Conv1dConfig {
                channels_in,
                channels_out,
                kernel_size,
                stride,
                dilation,
                groups,
                bias,
                padding,
            }),
    {
        Conv1dConfig { channels_in, channels_out, kernel_size, stride, dilation, groups, bias, padding }
    }
}

/// A dimension read from an attribute: a value of at least one that fits in `usize`.
pub open spec fn spec_dim(v: i64) -> Result<usize, ConfigError> {
    if 1 <= v && v <= usize::MAX {
        Ok(v as usize)
    } else {
        Err(ConfigError::InvalidAttributeValue)
    }
}

/// The first entry of a list attribute, read as a dimension.
pub open spec fn spec_head_dim(v: Seq<i64>) -> Result<usize, ConfigError> {
    if v.len() == 0 {
        Err(ConfigError::InvalidAttributeValue)
    } else {
        spec_dim(v[0])
    }
}

/// The list attribute `name` read as a dimension, `default` when absent.
pub open spec fn spec_list_dim(attrs: Attributes, name: Seq<char>, default: usize) -> Result<
    usize,
    ConfigError,
> {
    match attrs.spec_get(name) {
        None => Ok(default),
        Some(AttributeValue::Int64s(v)) => spec_head_dim(v@),
        Some(_) => Err(ConfigError::AttributeTypeMismatch),
    }
}

/// The scalar attribute `name` read as a dimension, `default` when absent.
pub open spec fn spec_scalar_dim(attrs: Attributes, name: Seq<char>, default: usize) -> Result<
    usize,
    ConfigError,
> {
    match attrs.spec_get(name) {
        None => Ok(default),
        Some(AttributeValue::Int64(v)) => spec_dim(v),
        Some(_) => Err(ConfigError::AttributeTypeMismatch),
    }
}

/// The raw `pads` attribute, `[0, 0]` when absent.
pub open spec fn spec_pads(attrs: Attributes) -> Result<Seq<i64>, ConfigError> {
    match attrs.spec_get("pads"@) {
        None => Ok(seq![0i64, 0i64]),
        Some(AttributeValue::Int64s(v)) => Ok(v@),
        Some(_) => Err(ConfigError::AttributeTypeMismatch),
    }
}

/// A weight shape `[out, in / groups, kernel]` with no empty dimension.
pub open spec fn valid_weight_shape(w: Seq<usize>) -> bool {
    w.len() == 3 && w[0] >= 1 && w[1] >= 1 && w[2] >= 1
}

/// The configuration that `node` describes, or the first reason it has none.
///
/// The weight comes first, then `kernel_shape` (defaulting to the weight's
/// kernel extent), `strides`, `pads`, `dilations` and `group`, then the
/// channel count, then the padding policy.
pub open spec fn spec_conv1d_config(node: Node) -> Result<Conv1dConfig, ConfigError> {
    let attrs = node.attrs;
    match static_input_shape(node, 1) {
        None => Err(ConfigError::MissingRequiredInput),
        Some(w) => if !valid_weight_shape(w) {
            Err(ConfigError::InvalidWeightShape)
        } else {
            match spec_list_dim(attrs, "kernel_shape"@, w[2]) {
                Err(e) => Err(e),
                Ok(kernel_size) => match spec_list_dim(attrs, "strides"@, 1) {
                    Err(e) => Err(e),
                    Ok(stride) => match spec_pads(attrs) {
                        Err(e) => Err(e),
                        Ok(pads) => match spec_list_dim(attrs, "dilations"@, 1) {
                            Err(e) => Err(e),
                            Ok(dilation) => match spec_scalar_dim(attrs, "group"@, 1) {
                                Err(e) => Err(e),
                                Ok(groups) => if w[1] * groups > usize::MAX {
                                    Err(ConfigError::InvalidAttributeValue)
                                } else {
                                    match spec_padding_1d(pads) {
                                        Err(e) => Err(ConfigError::UnsupportedPadding(e)),
                                        Ok(padding) => Ok(
                                            Conv1dConfig {
                                                channels_in: (w[1] * groups) as usize,
                                                channels_out: w[0],
                                                kernel_size,
                                                stride,
                                                dilation,
                                                groups,
                                                bias: node.inputs@.len() == 3,
                                                padding,
                                            },
                                        ),
                                    }
                                },
                            },
                        },
                    },
                },
            }
        },
    }
}

/// Reads an attribute value as a dimension.
pub(crate) fn dim(v: i64) -> (r: Result<usize, ConfigError>)
    ensures
        r == spec_dim(v),
{
    if 1 <= v && v as u64 <= usize::MAX as u64 {
        Ok(v as usize)
    } else {
        Err(ConfigError::InvalidAttributeValue)
    }
}

/// Reads the first entry of list attribute `name` as a dimension.
pub(crate) fn list_dim(attrs: &Attributes, name: &str, default: usize) -> (r: Result<usize, ConfigError>)
    ensures
        r == spec_list_dim(*attrs, name@, default),
{
    match attrs.get(name) {
        None => Ok(default),
        Some(AttributeValue::Int64s(v)) => {
            if v.len() == 0 {
                Err(ConfigError::InvalidAttributeValue)
            } else {
                dim(v[0])
            }
        },
        Some(_) => Err(ConfigError::AttributeTypeMismatch),
    }
}

/// Reads scalar attribute `name` as a dimension.
pub(crate) fn scalar_dim(attrs: &Attributes, name: &str, default: usize) -> (r: Result<usize, ConfigError>)
    ensures
        r == spec_scalar_dim(*attrs, name@, default),
{
    match attrs.get(name) {
        None => Ok(default),
        Some(AttributeValue::Int64(v)) => dim(*v),
        Some(_) => Err(ConfigError::AttributeTypeMismatch),
    }
}

/// Builds the configuration of a one-dimensional convolution node.
///
/// The weight (input 1) must carry a static value of shape
/// `[out, in / groups, kernel]`; a third input means the convolution has a
/// bias. Attributes the convolution does not read are ignored.
pub fn conv1d_config(curr: &Node) -> (r: Result<Conv1dConfig, ConfigError>)
    ensures
        r == spec_conv1d_config(*curr),
        r matches Ok(c) ==> {
            &&& c.channels_in >= 1 && c.channels_out >= 1 && c.kernel_size >= 1
            &&& c.stride >= 1 && c.dilation >= 1 && c.groups >= 1
            &&& c.bias == (curr.inputs@.len() == 3)
            &&& static_input_shape(*curr, 1) matches Some(w) && c.channels_in == w[1] * c.groups
                && c.channels_out == w[0]
        },
{
    let weight_shape = match curr.static_input_shape(1) {
        Some(w) => w,
        None => return Err(ConfigError::MissingRequiredInput),
    };
    if !(weight_shape.len() == 3 && weight_shape[0] >= 1 && weight_shape[1] >= 1
        && weight_shape[2] >= 1) {
        return Err(ConfigError::InvalidWeightShape);
    }
    // check if the bias is present
    let bias = curr.inputs.len() == 3;

    let attrs = &curr.attrs;
    proof {
        reveal_strlit("kernel_shape");
        reveal_strlit("strides");
        reveal_strlit("pads");
        reveal_strlit("dilations");
        reveal_strlit("group");
    }
    let kernel_size = match list_dim(attrs, "kernel_shape", weight_shape[2]) {
        Ok(k) => k,
        Err(e) => return Err(e),
    };
    let stride = match list_dim(attrs, "strides", 1) {
        Ok(s) => s,
        Err(e) => return Err(e),
    };
    let default_pads: Vec<i64> = vec![0, 0];
    let pads = match attrs.get("pads") {
        None => &default_pads,
        Some(AttributeValue::Int64s(v)) => v,
        Some(_) => return Err(ConfigError::AttributeTypeMismatch),
    };
    assert(default_pads@ =~= seq![0i64, 0i64]);
    let dilation = match list_dim(attrs, "dilations", 1) {
        Ok(d) => d,
        Err(e) => return Err(e),
    };
    let groups = match scalar_dim(attrs, "group", 1) {
        Ok(g) => g,
        Err(e) => return Err(e),
    };

    // the channels are inverted in the weight tensor
    let channels_in = match weight_shape[1].checked_mul(groups) {
        Some(c) => c,
        None => return Err(ConfigError::InvalidAttributeValue),
    };
    let channels_out = weight_shape[0];
    assert(channels_in >= 1) by (nonlinear_arith)
        requires
            channels_in == weight_shape[1] * groups,
            weight_shape[1] >= 1,
            groups >= 1,
    ;

    let padding = match padding_config_1d(pads) {
        Ok(p) => p,
        Err(e) => return Err(ConfigError::UnsupportedPadding(e)),
    };

    Ok(Conv1dConfig { channels_in, channels_out, kernel_size, stride, dilation, groups, bias, padding })
}

/// None of `kernel_shape`, `strides`, `pads` and `dilations` is set.
pub open spec fn no_conv1d_attrs(attrs: Attributes) -> bool {
    &&& attrs.spec_get("kernel_shape"@) == None::<AttributeValue>
    &&& attrs.spec_get("strides"@) == None::<AttributeValue>
    &&& attrs.spec_get("pads"@) == None::<AttributeValue>
    &&& attrs.spec_get("dilations"@) == None::<AttributeValue>
}

/// With none of its attributes set, a convolution over a valid weight
/// `[out, in, k]` gets the default configuration: kernel `k`, stride,
/// dilation and groups one, no padding, and `in` and `out` channels.
pub proof fn lemma_conv1d_default_fill(node: Node, w: Seq<usize>)
    requires
        static_input_shape(node, 1) == Some(w),
        valid_weight_shape(w),
        no_conv1d_attrs(node.attrs),
        node.attrs.spec_get("group"@) == None::<AttributeValue>,
    ensures
        spec_conv1d_config(node) == Ok::<Conv1dConfig, ConfigError>(
            Conv1dConfig {
                channels_in: w[1],
                channels_out: w[0],
                kernel_size: w[2],
                stride: 1,
                dilation: 1,
                groups: 1,
                bias: node.inputs@.len() == 3,
                padding: PaddingConfig1d::Valid,
            },
        ),
{
    lemma_padding_1d_total(0, 0);
    let attrs = node.attrs;
    assert(spec_list_dim(attrs, "kernel_shape"@, w[2]) == Ok::<usize, ConfigError>(w[2]));
    assert(spec_list_dim(attrs, "strides"@, 1) == Ok::<usize, ConfigError>(1));
    assert(spec_pads(attrs) == Ok::<Seq<i64>, ConfigError>(seq![0i64, 0i64]));
    assert(spec_list_dim(attrs, "dilations"@, 1) == Ok::<usize, ConfigError>(1));
    assert(spec_scalar_dim(attrs, "group"@, 1) == Ok::<usize, ConfigError>(1));
    assert(w[1] * 1 <= usize::MAX);
}

/// With `group = g` for some `g >= 1` and a valid weight `[out, in, k]`,
/// the convolution has `in * g` input channels, `out` output channels and
/// `g` groups, wherever `in * g` fits in `usize`.
pub proof fn lemma_conv1d_channel_inference(node: Node, w: Seq<usize>, g: i64)
    requires
        static_input_shape(node, 1) == Some(w),
        valid_weight_shape(w),
        no_conv1d_attrs(node.attrs),
        node.attrs.spec_get("group"@) == Some(AttributeValue::Int64(g)),
        g >= 1,
        w[1] * g <= usize::MAX,
    ensures
        spec_conv1d_config(node) matches Ok(c) && c.channels_in == w[1] * g && c.channels_out
            == w[0] && c.groups == g,
{
    lemma_padding_1d_total(0, 0);
    let attrs = node.attrs;
    assert(g <= usize::MAX) by (nonlinear_arith)
        requires
            w[1] * g <= usize::MAX,
            w[1] >= 1,
            g >= 1,
    ;
    assert(spec_list_dim(attrs, "kernel_shape"@, w[2]) == Ok::<usize, ConfigError>(w[2]));
    assert(spec_list_dim(attrs, "strides"@, 1) == Ok::<usize, ConfigError>(1));
    assert(spec_pads(attrs) == Ok::<Seq<i64>, ConfigError>(seq![0i64, 0i64]));
    assert(spec_list_dim(attrs, "dilations"@, 1) == Ok::<usize, ConfigError>(1));
    assert(spec_scalar_dim(attrs, "group"@, 1) == Ok::<usize, ConfigError>(g as usize));
}

/// A convolution with two inputs (data and weight) has no bias; one with
/// three inputs (data, weight and bias) has one.
pub proof fn lemma_conv1d_bias_by_arity(node: Node)
    ensures
        spec_conv1d_config(node) matches Ok(c) ==> (node.inputs@.len() == 2 ==> !c.bias) && (
        node.inputs@.len() == 3 ==> c.bias),
{
}

} // verus!
