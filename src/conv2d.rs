//! The configuration builder for two-dimensional convolution nodes.

use vstd::prelude::*;
use crate::attribute::{AttributeValue, Attributes};
use crate::conv1d::{dim, scalar_dim, spec_dim, spec_scalar_dim};
use crate::error::ConfigError;
use crate::node::{Node, static_input_shape};
use crate::padding::{
    PaddingConfig2d, PaddingError, has_asymmetric, has_negative, padding_config_2d,
    spec_padding_2d, spec_symmetric_pads,
};

verus! {

/// An extent along the height and the width axis.
#[derive(Debug, Clone, Copy, PartialEq, Eq, Structural)]
pub struct Size2d {
    pub height: usize,
    pub width: usize,
}

/// A fully resolved two-dimensional convolution.
#[derive(Debug, Clone, Copy, PartialEq, Eq, Structural)]
pub struct Conv2dConfig {
    /// Input channels
    pub channels_in: usize,
    /// Output channels
    pub channels_out: usize,
    /// Kernel size
    pub kernel_size: Size2d,
    /// Stride
    pub stride: Size2d,
    /// Dilation
    pub dilation: Size2d,
    /// Number of groups
    pub groups: usize,
    /// Whether bias is used
    pub bias: bool,
    /// Padding configuration
    pub padding: PaddingConfig2d,
}

/// The first two entries of the list attribute `name` read as dimensions,
/// `default` when absent.
pub open spec fn spec_pair_dims(attrs: Attributes, name: Seq<char>, default: Size2d) -> Result<
    Size2d,
    ConfigError,
> {
    match attrs.spec_get(name) {
        None => Ok(default),
        Some(AttributeValue::Int64s(v)) => if v@.len() < 2 {
            Err(ConfigError::InvalidAttributeValue)
        } else {
            match spec_dim(v@[0]) {
                Err(e) => Err(e),
                Ok(a) => match spec_dim(v@[1]) {
                    Err(e) => Err(e),
                    Ok(b) => Ok(Size2d { height: a, width: b }),
                },
            }
        },
        Some(_) => Err(ConfigError::AttributeTypeMismatch),
    }
}

/// The raw `pads` attribute, four zeros when absent.
pub open spec fn spec_pads_2d(attrs: Attributes) -> Result<Seq<i64>, ConfigError> {
    match attrs.spec_get("pads"@) {
        None => Ok(seq![0i64, 0i64, 0i64, 0i64]),
        Some(AttributeValue::Int64s(v)) => Ok(v@),
        Some(_) => Err(ConfigError::AttributeTypeMismatch),
    }
}

/// A weight shape `[out, in / groups, kernel_h, kernel_w]` with no empty dimension.
pub open spec fn valid_weight_shape_2d(w: Seq<usize>) -> bool {
    w.len() == 4 && w[0] >= 1 && w[1] >= 1 && w[2] >= 1 && w[3] >= 1
}

/// The configuration that `node` describes, or the first reason it has none.
///
/// The checks come in the same order as for one-dimensional convolutions.
pub open spec fn spec_conv2d_config(node: Node) -> Result<Conv2dConfig, ConfigError> {
    let attrs = node.attrs;
    match static_input_shape(node, 1) {
        None => Err(ConfigError::MissingRequiredInput),
        Some(w) => if !valid_weight_shape_2d(w) {
            Err(ConfigError::InvalidWeightShape)
        } else {
            match spec_pair_dims(attrs, "kernel_shape"@, Size2d { height: w[2], width: w[3] }) {
                Err(e) => Err(e),
                Ok(kernel_size) => match spec_pair_dims(attrs, "strides"@, Size2d { height: 1, width: 1 }) {
                    Err(e) => Err(e),
                    Ok(stride) => match spec_pads_2d(attrs) {
                        Err(e) => Err(e),
                        Ok(pads) => match spec_pair_dims(attrs, "dilations"@, Size2d { height: 1, width: 1 }) {
                            Err(e) => Err(e),
                            Ok(dilation) => match spec_scalar_dim(attrs, "group"@, 1) {
                                Err(e) => Err(e),
                                Ok(groups) => if w[1] * groups > usize::MAX {
                                    Err(ConfigError::InvalidAttributeValue)
                                } else {
                                    match spec_padding_2d(pads) {
                                        Err(e) => Err(ConfigError::UnsupportedPadding(e)),
                                        Ok(padding) => Ok(
                                            Conv2dConfig {
                                                channels_in: (w[1] * groups) as usize,
                                                channels_out: w[0],
                                                kernel_size,
                                                stride,
                                                dilation,
                                                groups,
                                                bias: node.inputs@.len() == 3,
                                                padding,
                                            },
                                        ),
                                    }
                                },
                            },
                        },
                    },
                },
            }
        },
    }
}

/// Reads the first two entries of list attribute `name` as dimensions.
fn pair_dims(attrs: &Attributes, name: &str, default: Size2d) -> (r: Result<
    Size2d,
    ConfigError,
>)
    ensures
        r == spec_pair_dims(*attrs, name@, default),
{
    match attrs.get(name) {
        None => Ok(default),
        Some(AttributeValue::Int64s(v)) => {
            if v.len() < 2 {
                return Err(ConfigError::InvalidAttributeValue);
            }
            let a = match dim(v[0]) {
                Ok(a) => a,
                Err(e) => return Err(e),
            };
            let b = match dim(v[1]) {
                Ok(b) => b,
                Err(e) => return Err(e),
            };
            Ok(Size2d { height: a, width: b })
        },
        Some(_) => Err(ConfigError::AttributeTypeMismatch),
    }
}

/// Builds the configuration of a two-dimensional convolution node.
///
/// The weight (input 1) must carry a static value of shape
/// `[out, in / groups, kernel_h, kernel_w]`; a third input means the
/// convolution has a bias. Attributes the convolution does not read are ignored.
pub fn conv2d_config(curr: &Node) -> (r: Result<Conv2dConfig, ConfigError>)
    ensures
        r == spec_conv2d_config(*curr),
        r matches Ok(c) ==> {
            &&& c.channels_in >= 1 && c.channels_out >= 1 && c.groups >= 1
            &&& c.bias == (curr.inputs@.len() == 3)
            &&& static_input_shape(*curr, 1) matches Some(w) && c.channels_in == w[1] * c.groups
                && c.channels_out == w[0]
        },
{
    let weight_shape = match curr.static_input_shape(1) {
        Some(w) => w,
        None => return Err(ConfigError::MissingRequiredInput),
    };
    if !(weight_shape.len() == 4 && weight_shape[0] >= 1 && weight_shape[1] >= 1
        && weight_shape[2] >= 1 && weight_shape[3] >= 1) {
        return Err(ConfigError::InvalidWeightShape);
    }
    let bias = curr.inputs.len() == 3;

    let attrs = &curr.attrs;
    proof {
        reveal_strlit("kernel_shape");
        reveal_strlit("strides");
        reveal_strlit("pads");
        reveal_strlit("dilations");
        reveal_strlit("group");
    }
    let kernel_size = match pair_dims(
        attrs,
        "kernel_shape",
        Size2d { height: weight_shape[2], width: weight_shape[3] },
    ) {
        Ok(k) => k,
        Err(e) => return Err(e),
    };
    let stride = match pair_dims(attrs, "strides", Size2d { height: 1, width: 1 }) {
        Ok(s) => s,
        Err(e) => return Err(e),
    };
    let default_pads: Vec<i64> = vec![0, 0, 0, 0];
    let pads = match attrs.get("pads") {
        None => &default_pads,
        Some(AttributeValue::Int64s(v)) => v,
        Some(_) => return Err(ConfigError::AttributeTypeMismatch),
    };
    assert(default_pads@ =~= seq![0i64, 0i64, 0i64, 0i64]);
    let dilation = match pair_dims(attrs, "dilations", Size2d { height: 1, width: 1 }) {
        Ok(d) => d,
        Err(e) => return Err(e),
    };
    let groups = match scalar_dim(attrs, "group", 1) {
        Ok(g) => g,
        Err(e) => return Err(e),
    };

    // the weight holds the input channels of one group
    let channels_in = match weight_shape[1].checked_mul(groups) {
        Some(c) => c,
        None => return Err(ConfigError::InvalidAttributeValue),
    };
    assert(channels_in >= 1) by (nonlinear_arith)
        requires
            channels_in == weight_shape[1] * groups,
            weight_shape[1] >= 1,
            groups >= 1,
    ;

    let padding = match padding_config_2d(pads) {
        Ok(p) => p,
        Err(e) => return Err(ConfigError::UnsupportedPadding(e)),
    };

    Ok(
        Conv2dConfig {
            channels_in,
            channels_out: weight_shape[0],
            kernel_size,
            stride,
            dilation,
            groups,
            bias,
            padding,
        },
    )
}

/// With none of its attributes set, a two-dimensional convolution over a
/// valid weight `[out, in, kh, kw]` gets the default configuration: kernel
/// `kh` by `kw`, unit strides and dilations, one group and no padding.
pub proof fn lemma_conv2d_default_fill(node: Node, w: Seq<usize>)
    requires
        static_input_shape(node, 1) == Some(w),
        valid_weight_shape_2d(w),
        node.attrs.spec_get("kernel_shape"@) == None::<AttributeValue>,
        node.attrs.spec_get("strides"@) == None::<AttributeValue>,
        node.attrs.spec_get("pads"@) == None::<AttributeValue>,
        node.attrs.spec_get("dilations"@) == None::<AttributeValue>,
        node.attrs.spec_get("group"@) == None::<AttributeValue>,
    ensures
        spec_conv2d_config(node) == Ok::<Conv2dConfig, ConfigError>(
            Conv2dConfig {
                channels_in: w[1],
                channels_out: w[0],
                kernel_size: Size2d { height: w[2], width: w[3] },
                stride: Size2d { height: 1, width: 1 },
                dilation: Size2d { height: 1, width: 1 },
                groups: 1,
                bias: node.inputs@.len() == 3,
                padding: PaddingConfig2d::Valid,
            },
        ),
{
    let pads = seq![0i64, 0i64, 0i64, 0i64];
    assert(!has_negative(pads));
    assert(!has_asymmetric(pads, 2));
    assert(!exists|i: int| 0 <= i < 2 && #[trigger] pads[i] > usize::MAX);
    assert(spec_symmetric_pads(pads, 2) == Ok::<Seq<usize>, PaddingError>(
        Seq::new(2, |i: int| pads[i] as usize),
    ));
    let p = Seq::new(2, |i: int| pads[i] as usize);
    assert(p[0] == 0 && p[1] == 0);
    assert(spec_padding_2d(pads) == Ok::<PaddingConfig2d, PaddingError>(PaddingConfig2d::Valid));
    let attrs = node.attrs;
    let one = Size2d { height: 1, width: 1 };
    let kernel = Size2d { height: w[2], width: w[3] };
    assert(spec_pair_dims(attrs, "kernel_shape"@, kernel) == Ok::<Size2d, ConfigError>(kernel));
    assert(spec_pair_dims(attrs, "strides"@, one) == Ok::<Size2d, ConfigError>(one));
    assert(spec_pads_2d(attrs) == Ok::<Seq<i64>, ConfigError>(pads));
    assert(spec_pair_dims(attrs, "dilations"@, one) == Ok::<Size2d, ConfigError>(one));
    assert(spec_scalar_dim(attrs, "group"@, 1) == Ok::<usize, ConfigError>(1));
    assert(w[1] * 1 <= usize::MAX);
}

} // verus!
