use vstd::prelude::*;
use crate::error::EmbeddingError;
use crate::image::{lemma_pixel_index_in_bounds, pixel_index, row_offset, Image};

verus! {

/// Side length, in pixels, of the square input the embedding models take.
pub const IMG_SIZE: usize = 112;

/// Number of colour channels the embedding models take.
pub const CHANNELS: usize = 3;

/// Channel of the source pixel that ends up in channel `c` of the tensor.
pub open spec fn source_channel(c: int, reverse_channels: bool) -> int {
    if reverse_channels {
        CHANNELS - 1 - c
    } else {
        c
    }
}

/// A `(height, width, channels)` array of 8-bit levels, row-major with the
/// channel index running fastest. A level `v` stands for the fraction
/// `v / 255` of the value range the model is fed with.
#[derive(Clone, Debug)]
pub struct ImageTensor {
    height: usize,
    width: usize,
    channels: usize,
    data: Vec<u8>,
}

impl View for ImageTensor {
    type V = Seq<u8>;

    /// The levels of the tensor in storage order.
    closed spec fn view(&self) -> Seq<u8> {
        self.data@
    }
}

impl ImageTensor {
    /// The extents `(height, width, channels)`.
    pub closed spec fn spec_shape(&self) -> (nat, nat, nat) {
        (self.height as nat, self.width as nat, self.channels as nat)
    }

    /// No extent is zero, and the tensor holds one level for every position
    /// of its shape, no more than can be addressed.
    pub open spec fn wf(&self) -> bool {
        &&& self@.len() <= usize::MAX
        &&& self.spec_shape().0 > 0
        &&& self.spec_shape().1 > 0
        &&& self.spec_shape().2 > 0
        &&& self@.len() == self.spec_shape().0 * self.spec_shape().1 * self.spec_shape().2
    }

    /// The level at row `y`, column `x`, channel `c`.
    pub open spec fn spec_at(&self, y: int, x: int, c: int) -> u8 {
        self@[pixel_index(self.spec_shape().1 as int, self.spec_shape().2 as int, x, y, c)]
    }

    /// `self` lays out the pixels of `image` as `(height, width, channels)`,
    /// with the channels of every pixel reversed if `reverse_channels` is set.
    pub open spec fn holds(&self, image: &Image, reverse_channels: bool) -> bool {
        &&& self.wf()
        &&& self.spec_shape() == (image.spec_height(), image.spec_width(), CHANNELS as nat)
        &&& forall|y: int, x: int, c: int|
            0 <= y < image.spec_height() && 0 <= x < image.spec_width() && 0 <= c < CHANNELS
                ==> #[trigger] self.spec_at(y, x, c) == image.spec_pixel(
                x,
                y,
                source_channel(c, reverse_channels),
            )
    }

    /// The extents `(height, width, channels)`.
    pub fn shape(&self) -> (s: (usize, usize, usize))
        ensures
            (s.0 as nat, s.1 as nat, s.2 as nat) == self.spec_shape(),
    {
        (self.height, self.width, self.channels)
    }

    /// Turns the tensor into a batch of one: a leading axis of size one
    /// comes in front of the extents, and the levels keep their order.
    pub fn into_batch(self) -> (batch: InputTensor)
        requires
            self.wf(),
        ensures
            batch.spec_dims() == seq![
                1usize,
                self.spec_shape().0 as usize,
                self.spec_shape().1 as usize,
                self.spec_shape().2 as usize,
            ],
            batch@ == self@,
    {
        let (dims, data) = with_batch_axis(self.height, self.width, self.channels, self.data);
        InputTensor { dims, data }
    }

    /// The levels in storage order.
    pub fn data(&self) -> (d: &Vec<u8>)
        ensures
            d@ == self@,
    {
        &self.data
    }

    /// The level at row `y`, column `x`, channel `c`, or `None` when the
    /// position is outside the tensor.
    pub fn at(&self, y: usize, x: usize, c: usize) -> (v: Option<u8>)
        requires
            self.wf(),
        ensures
            v.is_some() <==> y < self.spec_shape().0 && x < self.spec_shape().1 && c
                < self.spec_shape().2,
            v matches Some(level) ==> level == self.spec_at(y as int, x as int, c as int),
    {
        if y < self.height && x < self.width && c < self.channels {
            proof {
                lemma_pixel_index_in_bounds(
                    self.width as int,
                    self.height as int,
                    self.channels as int,
                    x as int,
                    y as int,
                    c as int,
                );
                assert(self.width * self.height * self.channels == self.height * self.width
                    * self.channels) by (nonlinear_arith);
                assert(0 <= y * self.width + x <= self.width * self.height * self.channels)
                    by (nonlinear_arith)
                    requires
                        0 <= x < self.width,
                        0 <= y < self.height,
                        1 <= self.channels,
                ;
                assert(0 <= y * self.width <= y * self.width + x);
                assert((y * self.width + x) * self.channels <= pixel_index(
                    self.width as int,
                    self.channels as int,
                    x as int,
                    y as int,
                    c as int,
                ));
            }
            Some(self.data[(y * self.width + x) * self.channels + c])
        } else {
            None
        }
    }
}

/// A batch of one tensor, as the model takes it: the extents
/// `(1, height, width, channels)` and the levels in the order of the array.
#[derive(Clone, Debug)]
pub struct InputTensor {
    dims: Vec<usize>,
    data: Vec<u8>,
}

impl View for InputTensor {
    type V = Seq<u8>;

    /// The levels of the batch in the order of the array.
    closed spec fn view(&self) -> Seq<u8> {
        self.data@
    }
}

impl InputTensor {
    /// The extents of the batch, the batch axis first.
    pub closed spec fn spec_dims(&self) -> Seq<usize> {
        self.dims@
    }

    /// The extents of the batch, the batch axis first.
    pub fn dims(&self) -> (d: &Vec<usize>)
        ensures
            d@ == self.spec_dims(),
    {
        &self.dims
    }

    /// The levels of the batch in the order of the array.
    pub fn data(&self) -> (d: &Vec<u8>)
        ensures
            d@ == self@,
    {
        &self.data
    }
}

/// Puts a batch axis in front of a `(height, width, channels)` array: the
/// array is made by `ndarray`'s `Array3::from_shape_vec`, the axis is added
/// by `insert_axis`, and the result is read back by `shape` and by walking
/// it with `into_iter`.
///
/// Trusted: `from_shape_vec` takes `data` as the elements in row-major
/// order and accepts it because its length is the product of the extents;
/// the new axis has length one and stands first; walking the result yields
/// the elements in row-major order, which is the order of `data`.
#[verifier::external_body]
fn with_batch_axis(height: usize, width: usize, channels: usize, data: Vec<u8>) -> (res: (
    Vec<usize>,
    Vec<u8>,
))
    requires
        height > 0,
        width > 0,
        channels > 0,
        data@.len() == height * width * channels,
    ensures
        res.0@ == seq![1usize, height, width, channels],
        res.1@ == data@,
{
    let array = ndarray::Array3::from_shape_vec((height, width, channels), data).unwrap();
    let batch = array.insert_axis(ndarray::Axis(0));
    (batch.shape().to_vec(), batch.into_iter().collect())
}

/// Decides whether an image can be preprocessed at all: it must have at
/// least one row and one column and exactly three channels. Anything else is
/// rejected with `UnsupportedShape`.
pub fn check_source(image: &Image) -> (res: Result<(), EmbeddingError>)
    ensures
        res.is_ok() <==> image.spec_width() > 0 && image.spec_height() > 0
            && image.spec_channels() == CHANNELS,
        res matches Err(e) ==> e == EmbeddingError::UnsupportedShape,
{
    if image.width() > 0 && image.height() > 0 && image.channels() == CHANNELS {
        Ok(())
    } else {
        Err(EmbeddingError::UnsupportedShape)
    }
}

/// Lays out an image that has already been brought to `target_size`
/// (`(height, width)`) as the tensor the model is fed with.
///
/// The tensor has the shape `(height, width, 3)` and holds the levels of the
/// image pixel by pixel; with `reverse_channels` the three channels of every
/// pixel swap ends, which turns blue-green-red into red-green-blue and back.
/// An image of another size or channel count, or an empty target, is rejected
/// with `UnsupportedShape`.
pub fn to_tensor(image: &Image, target_size: (usize, usize), reverse_channels: bool) -> (res:
    Result<ImageTensor, EmbeddingError>)
    requires
        image.wf(),
    ensures
        res.is_ok() <==> target_size.0 > 0 && target_size.1 > 0 && image.spec_height()
            == target_size.0 && image.spec_width() == target_size.1 && image.spec_channels()
            == CHANNELS,
        res matches Ok(t) ==> t.holds(image, reverse_channels) && t.spec_shape() == (
            target_size.0 as nat,
            target_size.1 as nat,
            CHANNELS as nat,
        ),
        res matches Err(e) ==> e == EmbeddingError::UnsupportedShape,
{
    if target_size.0 == 0 || target_size.1 == 0 || image.height() != target_size.0 || image.width()
        != target_size.1 || image.channels() != CHANNELS {
        return Err(EmbeddingError::UnsupportedShape);
    }
    let src = image.data();
    let total: usize = src.len();
    let ghost w: int = image.spec_width() as int;
    let ghost h: int = image.spec_height() as int;
    let ghost area: int = w * h;
    assert(total == area * 3) by (nonlinear_arith)
        requires
            total == w * h * 3,
            area == w * h,
    ;
    let pixels: usize = total / 3;
    let mut data: Vec<u8> = Vec::new();
    let mut p: usize = 0;
    while p < pixels
        invariant
            p <= pixels,
            total == pixels * 3,
            pixels == area,
            src@.len() == total,
            data@.len() == p * 3,
            forall|q: int, c: int|
                0 <= q < p && 0 <= c < 3 ==> data@[#[trigger] row_offset(q, 3, c)] == src@[row_offset(
                    q,
                    3,
                    source_channel(c, reverse_channels),
                )],
        decreases pixels - p,
    {
        let base: usize = p * 3;
        let ghost before = data@;
        if reverse_channels {
            data.push(src[base + 2]);
            data.push(src[base + 1]);
            data.push(src[base]);
        } else {
            data.push(src[base]);
            data.push(src[base + 1]);
            data.push(src[base + 2]);
        }
        proof {
            assert forall|q: int, c: int| 0 <= q < p + 1 && 0 <= c < 3 implies data@[
            #[trigger] row_offset(q, 3, c)] == src@[row_offset(
                q,
                3,
                source_channel(c, reverse_channels),
            )] by {
                if q < p {
                    assert(data@[row_offset(q, 3, c)] == before[row_offset(q, 3, c)]);
                }
            }
        }
        p += 1;
    }
    let t = ImageTensor { height: target_size.0, width: target_size.1, channels: CHANNELS, data };
    proof {
        assert(h * w * 3 == w * h * 3) by (nonlinear_arith);
        assert forall|y: int, x: int, c: int|
            0 <= y < image.spec_height() && 0 <= x < image.spec_width() && 0 <= c
                < CHANNELS implies #[trigger] t.spec_at(y, x, c) == image.spec_pixel(
            x,
            y,
            source_channel(c, reverse_channels),
        ) by {
            let q = y * w + x;
            assert(0 <= q < area) by (nonlinear_arith)
                requires
                    0 <= x < w,
                    0 <= y < h,
                    q == y * w + x,
                    area == w * h,
            ;
            assert(t@[row_offset(q, 3, c)] == src@[row_offset(
                q,
                3,
                source_channel(c, reverse_channels),
            )]);
        }
    }
    Ok(t)
}

} // verus!
