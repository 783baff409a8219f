use vstd::prelude::*;
use crate::config::{ModelConfig, Ratio};

verus! {

/// The spatial size that a convolution yields along one axis.
pub open spec fn conv_out(kernel: int, stride: int, padding: int, dilation: int, size: int) -> int {
    (size + 2 * padding - dilation * (kernel - 1) - 1) / stride + 1
}

/// The convolution's window fits into the (padded) input along one axis, and
/// the padded size is a machine integer.
pub open spec fn conv_fits(kernel: int, stride: int, padding: int, dilation: int, size: int) -> bool {
    &&& kernel >= 1
    &&& stride >= 1
    &&& size + 2 * padding <= usize::MAX
    &&& dilation * (kernel - 1) + 1 <= size + 2 * padding
}

/// Relies on burn's `calculate_conv_output_size`, the formula by which burn
/// sizes the output of a convolution along one axis.
#[verifier::external_body]
fn conv_output_size(kernel: usize, stride: usize, padding: usize, dilation: usize, size: usize) -> (r: usize)
    requires
        conv_fits(kernel as int, stride as int, padding as int, dilation as int, size as int),
    ensures
        r == conv_out(kernel as int, stride as int, padding as int, dilation as int, size as int),
{
    burn::tensor::ops::conv::calculate_conv_output_size(kernel, stride, padding, dilation, size)
}

/// A two-dimensional convolution: `[in, out]` channels, and per axis
/// (height, width) its kernel size, stride, dilation and zero padding.
#[derive(Clone, Copy, Debug)]
pub struct ConvLayer {
    pub channels: [usize; 2],
    pub kernel_size: [usize; 2],
    pub stride: [usize; 2],
    pub dilation: [usize; 2],
    pub padding: [usize; 2],
}

impl ConvLayer {
    pub open spec fn fits(self, axis: int, size: int) -> bool {
        conv_fits(
            self.kernel_size[axis] as int,
            self.stride[axis] as int,
            self.padding[axis] as int,
            self.dilation[axis] as int,
            size,
        )
    }

    pub open spec fn out_size(self, axis: int, size: int) -> int {
        conv_out(
            self.kernel_size[axis] as int,
            self.stride[axis] as int,
            self.padding[axis] as int,
            self.dilation[axis] as int,
            size,
        )
    }

    /// Whether the window fits along `axis` (0 for height, 1 for width) of an
    /// input of `size`.
    pub fn fits_axis(&self, axis: usize, size: usize) -> (r: bool)
        requires
            axis < 2,
        ensures
            r == self.fits(axis as int, size as int),
    {
        let k = self.kernel_size[axis];
        let s = self.stride[axis];
        let p = self.padding[axis];
        let d = self.dilation[axis];
        if k < 1 || s < 1 || p > (usize::MAX - size) / 2 {
            return false;
        }
        let padded = size + 2 * p;
        match d.checked_mul(k - 1) {
            Some(span) => span < padded,
            None => {
                proof {
                    assert(d * (k - 1) <= (d * (k - 1)) as int);
                }
                false
            },
        }
    }

    /// Output spatial size `[height, width]` for an input of `[h, w]`.
    pub fn output_size(&self, h: usize, w: usize) -> (r: [usize; 2])
        requires
            self.fits(0, h as int),
            self.fits(1, w as int),
        ensures
            r[0] == self.out_size(0, h as int),
            r[1] == self.out_size(1, w as int),
    {
        let oh = conv_output_size(self.kernel_size[0], self.stride[0], self.padding[0], self.dilation[0], h);
        let ow = conv_output_size(self.kernel_size[1], self.stride[1], self.padding[1], self.dilation[1], w);
        [oh, ow]
    }
}


/// Adaptive average pooling to a fixed `[height, width]`, whatever the input size.
#[derive(Clone, Copy, Debug)]
pub struct PoolLayer {
    pub output_size: [usize; 2],
}

/// A fully-connected layer from `d_input` features to `d_output` features.
#[derive(Clone, Copy, Debug)]
pub struct LinearLayer {
    pub d_input: usize,
    pub d_output: usize,
}

/// The network's layers, as the dimensions that the data flow depends on:
/// two convolutions, dropout, adaptive pooling and two fully-connected layers.
#[derive(Clone, Copy, Debug)]
pub struct Model {
    pub conv1: ConvLayer,
    pub conv2: ConvLayer,
    pub pool: PoolLayer,
    pub dropout: Ratio,
    pub linear1: LinearLayer,
    pub linear2: LinearLayer,
}

/// The shape of the tensor after each stage of the forward pass.
#[derive(Clone, Copy, Debug)]
pub struct ForwardShapes {
    /// `[batch, 1, height, width]`: the images with a channel axis.
    pub with_channel: [usize; 4],
    /// After the first convolution.
    pub conv1: [usize; 4],
    /// After the second convolution.
    pub conv2: [usize; 4],
    /// After adaptive pooling.
    pub pooled: [usize; 4],
    /// `[batch, features]`: the pooled maps flattened.
    pub flat: [usize; 2],
    /// After the first fully-connected layer.
    pub hidden: [usize; 2],
    /// `[batch, classes]`: the logits.
    pub logits: [usize; 2],
}

/// The layers that a configuration describes.
pub open spec fn model_of(c: ModelConfig) -> Model {
    Model {
        conv1: ConvLayer {
            channels: [1usize, 8usize],
            kernel_size: [3usize, 3usize],
            stride: [1usize, 1usize],
            dilation: [1usize, 1usize],
            padding: [0usize, 0usize],
        },
        conv2: ConvLayer {
            channels: [8usize, 16usize],
            kernel_size: [3usize, 3usize],
            stride: [1usize, 1usize],
            dilation: [1usize, 1usize],
            padding: [0usize, 0usize],
        },
        pool: PoolLayer { output_size: [8usize, 8usize] },
        dropout: c.dropout,
        linear1: LinearLayer { d_input: 1024, d_output: c.hidden_size },
        linear2: LinearLayer { d_input: c.hidden_size, d_output: c.num_classes },
    }
}

impl ModelConfig {
    /// The network's layers for this configuration.
    pub fn init(self) -> (r: Model)
        requires
            self.valid(),
        ensures
            r == model_of(self),
            r.wf(),
            r.num_classes() == self.num_classes,
    {
        let r = Model {
            conv1: ConvLayer {
                channels: [1, 8],
                kernel_size: [3, 3],
                stride: [1, 1],
                dilation: [1, 1],
                padding: [0, 0],
            },
            conv2: ConvLayer {
                channels: [8, 16],
                kernel_size: [3, 3],
                stride: [1, 1],
                dilation: [1, 1],
                padding: [0, 0],
            },
            pool: PoolLayer { output_size: [8, 8] },
            dropout: self.dropout,
            linear1: LinearLayer { d_input: 16 * 8 * 8, d_output: self.hidden_size },
            linear2: LinearLayer { d_input: self.hidden_size, d_output: self.num_classes },
        };
        assert(r == model_of(self));
        r
    }
}

impl Model {
    /// The layers chain: each one's output feeds the next one's input.
    pub open spec fn wf(self) -> bool {
        &&& self.conv1.channels[0] == 1
        &&& self.conv1.channels[1] == self.conv2.channels[0]
        &&& self.pool.output_size[0] >= 1
        &&& self.pool.output_size[1] >= 1
        &&& self.linear1.d_input == self.conv2.channels[1] * self.pool.output_size[0]
            * self.pool.output_size[1]
        &&& self.linear1.d_output == self.linear2.d_input
        &&& self.dropout.is_probability_spec()
    }

    pub open spec fn num_classes(self) -> int {
        self.linear2.d_output as int
    }

    pub open spec fn conv1_height(self, h: int) -> int {
        self.conv1.out_size(0, h)
    }

    pub open spec fn conv1_width(self, w: int) -> int {
        self.conv1.out_size(1, w)
    }

    /// Input `[batch, h, w]` images are large enough for both convolutions.
    pub open spec fn accepts(self, h: int, w: int) -> bool {
        &&& self.conv1.fits(0, h)
        &&& self.conv1.fits(1, w)
        &&& self.conv2.fits(0, self.conv1_height(h))
        &&& self.conv2.fits(1, self.conv1_width(w))
    }

    /// The shape `[batch, classes]` of the logits for images of shape `[b, h, w]`.
    pub open spec fn output_shape(self, b: usize) -> Seq<usize> {
        seq![b, self.linear2.d_output]
    }

    /// The shape of the tensor after each stage, for images of shape `images`.
    pub fn forward_shapes(&self, images: [usize; 3]) -> (r: ForwardShapes)
        requires
            self.wf(),
            self.accepts(images[1] as int, images[2] as int),
        ensures
            r.with_channel@ == seq![images[0], 1usize, images[1], images[2]],
            r.conv1[0] == images[0] && r.conv1[1] == self.conv1.channels[1],
            r.conv1[2] == self.conv1_height(images[1] as int),
            r.conv1[3] == self.conv1_width(images[2] as int),
            r.conv2[0] == images[0] && r.conv2[1] == self.conv2.channels[1],
            r.conv2[2] == self.conv2.out_size(0, self.conv1_height(images[1] as int)),
            r.conv2[3] == self.conv2.out_size(1, self.conv1_width(images[2] as int)),
            r.pooled@ == seq![images[0], self.conv2.channels[1], self.pool.output_size[0], self.pool.output_size[1]],
            r.flat@ == seq![images[0], self.linear1.d_input],
            r.hidden@ == seq![images[0], self.linear1.d_output],
            r.logits@ == self.output_shape(images[0]),
    {
        let b = images[0];
        let with_channel = [b, 1, images[1], images[2]];
        let s1 = self.conv1.output_size(images[1], images[2]);
        let conv1 = [b, self.conv1.channels[1], s1[0], s1[1]];
        let s2 = self.conv2.output_size(s1[0], s1[1]);
        let conv2 = [b, self.conv2.channels[1], s2[0], s2[1]];
        let pooled = [b, self.conv2.channels[1], self.pool.output_size[0], self.pool.output_size[1]];
        let c = self.conv2.channels[1];
        let p0 = self.pool.output_size[0];
        let p1 = self.pool.output_size[1];
        proof {
            assert(c * p0 <= c * p0 * p1) by (nonlinear_arith)
                requires
                    p1 >= 1,
            ;
        }
        let flat = [b, c * p0 * p1];
        let hidden = [b, self.linear1.d_output];
        let logits = [b, self.linear2.d_output];
        let r = ForwardShapes { with_channel, conv1, conv2, pooled, flat, hidden, logits };
        assert(r.with_channel@ =~= seq![images[0], 1usize, images[1], images[2]]);
        assert(r.pooled@ =~= seq![images[0], self.conv2.channels[1], self.pool.output_size[0], self.pool.output_size[1]]);
        assert(r.flat@ =~= seq![images[0], self.linear1.d_input]);
        assert(r.hidden@ =~= seq![images[0], self.linear1.d_output]);
        assert(r.logits@ =~= self.output_shape(images[0]));
        r
    }

    /// Whether images of shape `images` are large enough for both convolutions.
    pub fn accepts_images(&self, images: [usize; 3]) -> (r: bool)
        ensures
            r == self.accepts(images[1] as int, images[2] as int),
    {
        if !self.conv1.fits_axis(0, images[1]) || !self.conv1.fits_axis(1, images[2]) {
            return false;
        }
        let s1 = self.conv1.output_size(images[1], images[2]);
        self.conv2.fits_axis(0, s1[0]) && self.conv2.fits_axis(1, s1[1])
    }

    /// The shape `[batch, classes]` of the logits for images of shape `images`.
    pub fn forward(&self, images: [usize; 3]) -> (r: [usize; 2])
        requires
            self.wf(),
            self.accepts(images[1] as int, images[2] as int),
        ensures
            r@ == self.output_shape(images[0]),
    {
        self.forward_shapes(images).logits
    }
}

/// For every valid configuration, the network accepts `[b, h, w]` images
/// exactly when both sides are at least 5 (two 3x3 convolutions leave at least
/// one pixel), and then yields logits of shape `[b, num_classes]`.
pub proof fn lemma_forward_shape(c: ModelConfig, b: usize, h: usize, w: usize)
    requires
        c.valid(),
    ensures
        model_of(c).wf(),
        model_of(c).accepts(h as int, w as int) <==> (h >= 5 && w >= 5),
        h >= 5 && w >= 5 ==> model_of(c).output_shape(b) == seq![b, c.num_classes],
{
    let m = model_of(c);
    assert(m.conv1.kernel_size[0] == 3);
    assert(m.conv1.stride[0] == 1);
    assert(conv_out(3, 1, 0, 1, h as int) == h - 2);
    assert(m.conv1_height(h as int) == h - 2);
    assert(m.conv1_width(w as int) == w - 2);
}

} // verus!
