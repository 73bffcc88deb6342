//! Configuration data of the external mask predictors.
//!
//! The networks themselves — convolution stacks driven by an inference
//! runtime — are opaque collaborators of the separation pipeline: this
//! library only fixes the plain integers that shape them, so that a
//! configuration can be stated, stored and compared independently of any
//! runtime.

use vstd::prelude::*;

verus! {

/// Convolution + batch-norm + activation block.
pub struct Conv2DBNActivConfig {
    pub nin: usize,
    pub nout: usize,
    pub ksize: usize,
    pub stride: usize,
    pub pad: usize,
    pub dilation: usize,
    pub leaky: bool,
}

impl Conv2DBNActivConfig {
    /// A block over the given channel counts, with the customary
    /// defaults for the remaining fields.
    pub fn new(nin: usize, nout: usize) -> (r: Self)
        ensures
            r.nin == nin,
            r.nout == nout,
            r.ksize == 3,
            r.stride == 1,
            r.pad == 1,
            r.dilation == 1,
            !r.leaky,
    {
        Self { nin, nout, ksize: 3, stride: 1, pad: 1, dilation: 1, leaky: false }
    }
}

/// Two-stage downsampling encoder block.
pub struct EncoderConfig {
    pub nin: usize,
    pub nout: usize,
    pub ksize: usize,
    pub stride: usize,
    pub pad: usize,
    pub leaky: bool,
}

impl EncoderConfig {
    pub fn new(nin: usize, nout: usize) -> (r: Self)
        ensures
            r.nin == nin,
            r.nout == nout,
            r.ksize == 3,
            r.stride == 1,
            r.pad == 1,
            r.leaky,
    {
        Self { nin, nout, ksize: 3, stride: 1, pad: 1, leaky: true }
    }
}

/// Upsampling decoder block with optional dropout.
pub struct DecoderConfig {
    pub nin: usize,
    pub nout: usize,
    pub ksize: usize,
    pub pad: usize,
    pub leaky: bool,
    pub dropout: bool,
}

impl DecoderConfig {
    pub fn new(nin: usize, nout: usize) -> (r: Self)
        ensures
            r.nin == nin,
            r.nout == nout,
            r.ksize == 3,
            r.pad == 1,
            !r.leaky,
            !r.dropout,
    {
        Self { nin, nout, ksize: 3, pad: 1, leaky: false, dropout: false }
    }
}

/// Atrous spatial pyramid pooling block; the dilation triple defaults to
/// the customary `4, 8, 16`.
pub struct ASPPModuleConfig {
    pub nn_architecture: usize,
    pub nin: usize,
    pub nout: usize,
    pub dilations: [usize; 3],
    pub leaky: bool,
}

impl ASPPModuleConfig {
    pub fn new(nn_architecture: usize, nin: usize, nout: usize) -> (r: Self)
        ensures
            r.nn_architecture == nn_architecture,
            r.nin == nin,
            r.nout == nout,
            r.dilations[0] == 4,
            r.dilations[1] == 8,
            r.dilations[2] == 16,
            !r.leaky,
    {
        Self { nn_architecture, nin, nout, dilations: [4, 8, 16], leaky: false }
    }
}

/// Which optimizer a network was trained with; decides its
/// normalization layer.
#[derive(Clone, Copy, PartialEq, Eq, Structural)]
pub enum Optimizer {
    RMSprop,
    AdamW,
}

/// Top-level configuration of the time–frequency convolution network.
pub struct ConvTDFNetConfig {
    pub dim_c: usize,
    pub g: usize,
    pub optimizer: Optimizer,
    pub num_blocks: usize,
}

impl ConvTDFNetConfig {
    pub fn new(dim_c: usize, g: usize, optimizer: Optimizer, num_blocks: usize) -> (r: Self)
        ensures
            r.dim_c == dim_c,
            r.g == g,
            r.optimizer == optimizer,
            r.num_blocks == num_blocks,
    {
        Self { dim_c, g, optimizer, num_blocks }
    }
}

/// Pooling layer that maps its input to a fixed output size; an
/// unspecified axis keeps the input's extent.
pub struct AdaptiveAvgPool2d {
    pub output_size: [Option<usize>; 2],
}

impl AdaptiveAvgPool2d {
    pub fn new(output_size: [Option<usize>; 2]) -> (r: Self)
        ensures
            r.output_size[0] == output_size[0],
            r.output_size[1] == output_size[1],
    {
        Self { output_size }
    }
}

} // verus!
