use vstd::prelude::*;
use crate::error::EmbeddingError;
use crate::region::{crop_rect, BBox};

verus! {

/// Position of channel `c` of the pixel in column `x` and row `y` inside a
/// row-major buffer of interleaved channels.
pub open spec fn pixel_index(width: int, channels: int, x: int, y: int, c: int) -> int {
    (y * width + x) * channels + c
}

/// Position `k` of row `row` in a buffer whose rows are `stride` long.
pub open spec fn row_offset(row: int, stride: int, k: int) -> int {
    row * stride + k
}

/// A pixel position inside an image has a place inside its buffer.
pub proof fn lemma_pixel_index_in_bounds(
    width: int,
    height: int,
    channels: int,
    x: int,
    y: int,
    c: int,
)
    requires
        0 <= x < width,
        0 <= y < height,
        0 <= c < channels,
    ensures
        0 <= pixel_index(width, channels, x, y, c) < width * height * channels,
{
    assert(0 <= y * width + x <= height * width - 1) by (nonlinear_arith)
        requires
            0 <= x < width,
            0 <= y < height,
    ;
    let p = y * width + x;
    let n = height * width;
    assert(0 <= p * channels + c < n * channels) by (nonlinear_arith)
        requires
            0 <= p <= n - 1,
            0 <= c < channels,
    ;
    assert(n * channels == width * height * channels) by (nonlinear_arith)
        requires
            n == height * width,
    ;
}

/// Splitting a pixel position into its row and its place inside the row.
proof fn lemma_pixel_index_by_row(width: int, channels: int, x: int, y: int, c: int)
    ensures
        pixel_index(width, channels, x, y, c) == row_offset(y, width * channels, x * channels + c),
{
    assert((y * width + x) * channels + c == y * (width * channels) + (x * channels + c))
        by (nonlinear_arith);
}

/// Every place inside the buffer of an image belongs to exactly one channel
/// of one pixel: the one this lemma computes.
pub proof fn lemma_index_is_a_pixel(width: int, height: int, channels: int, i: int) -> (pos: (
    int,
    int,
    int,
))
    requires
        0 <= width,
        0 <= height,
        0 <= channels,
        0 <= i < width * height * channels,
    ensures
        0 <= pos.0 < width,
        0 <= pos.1 < height,
        0 <= pos.2 < channels,
        pixel_index(width, channels, pos.0, pos.1, pos.2) == i,
{
    assert(width > 0 && height > 0 && channels > 0) by (nonlinear_arith)
        requires
            0 <= width,
            0 <= height,
            0 <= channels,
            0 < width * height * channels,
    ;
    let c = i % channels;
    let p = i / channels;
    vstd::arithmetic::div_mod::lemma_fundamental_div_mod(i, channels);
    assert(0 <= p < width * height) by (nonlinear_arith)
        requires
            i == channels * p + c,
            0 <= c < channels,
            0 <= i < width * height * channels,
    ;
    let x = p % width;
    let y = p / width;
    vstd::arithmetic::div_mod::lemma_fundamental_div_mod(p, width);
    assert(0 <= y < height) by (nonlinear_arith)
        requires
            p == width * y + x,
            0 <= x < width,
            0 <= p < width * height,
    ;
    assert((y * width + x) * channels + c == i) by (nonlinear_arith)
        requires
            p == width * y + x,
            i == channels * p + c,
    ;
    (x, y, c)
}

/// An owned image: `height` rows of `width` pixels with `channels` bytes
/// each, stored row by row with the channels of a pixel next to each other.
#[derive(Clone, Debug)]
pub struct Image {
    width: usize,
    height: usize,
    channels: usize,
    data: Vec<u8>,
}

impl View for Image {
    type V = Seq<u8>;

    /// The bytes of the image in storage order.
    closed spec fn view(&self) -> Seq<u8> {
        self.data@
    }
}

impl Image {
    /// Number of pixel columns.
    pub closed spec fn spec_width(&self) -> nat {
        self.width as nat
    }

    /// Number of pixel rows.
    pub closed spec fn spec_height(&self) -> nat {
        self.height as nat
    }

    /// Number of bytes per pixel.
    pub closed spec fn spec_channels(&self) -> nat {
        self.channels as nat
    }

    /// The buffer holds exactly one byte per channel of every pixel, and no
    /// more than can be addressed.
    pub open spec fn wf(&self) -> bool {
        &&& self@.len() == self.spec_width() * self.spec_height() * self.spec_channels()
        &&& self@.len() <= usize::MAX
    }

    /// Channel `c` of the pixel in column `x` and row `y`.
    pub open spec fn spec_pixel(&self, x: int, y: int, c: int) -> u8 {
        self@[pixel_index(self.spec_width() as int, self.spec_channels() as int, x, y, c)]
    }

    /// `out` holds exactly the pixels of `self` that lie inside `bbox`, in
    /// the same arrangement.
    pub open spec fn cropped_to(&self, bbox: BBox, out: Image) -> bool {
        &&& out.wf()
        &&& out.spec_width() == bbox.spec_width()
        &&& out.spec_height() == bbox.spec_height()
        &&& out.spec_channels() == self.spec_channels()
        &&& forall|x: int, y: int, c: int|
            0 <= x < out.spec_width() && 0 <= y < out.spec_height() && 0 <= c
                < out.spec_channels() ==> #[trigger] out.spec_pixel(x, y, c) == self.spec_pixel(
                bbox.xmin + x,
                bbox.ymin + y,
                c,
            )
    }

    /// Wraps a buffer as an image of the given size. The buffer must hold
    /// `width * height * channels` bytes; any other length is rejected with
    /// `UnsupportedShape`.
    pub fn new(width: usize, height: usize, channels: usize, data: Vec<u8>) -> (res: Result<
        Image,
        EmbeddingError,
    >)
        ensures
            res.is_ok() <==> data@.len() == width * height * channels,
            res matches Ok(img) ==> img.wf() && img@ == data@ && img.spec_width() == width
                && img.spec_height() == height && img.spec_channels() == channels,
            res matches Err(e) ==> e == EmbeddingError::UnsupportedShape,
    {
        let len: usize = data.len();
        if width == 0 || height == 0 || channels == 0 {
            assert(width * height * channels == 0) by (nonlinear_arith)
                requires
                    width == 0 || height == 0 || channels == 0,
            ;
            if len == 0 {
                return Ok(Image { width, height, channels, data });
            }
            return Err(EmbeddingError::UnsupportedShape);
        }
        let expected: Option<usize> = match width.checked_mul(height) {
            Some(area) => area.checked_mul(channels),
            None => {
                assert(width * height * channels > usize::MAX) by (nonlinear_arith)
                    requires
                        width * height > usize::MAX,
                        channels >= 1,
                ;
                None
            },
        };
        match expected {
            Some(n) => {
                assert(n == width * height * channels);
                if n == len {
                    Ok(Image { width, height, channels, data })
                } else {
                    Err(EmbeddingError::UnsupportedShape)
                }
            },
            None => {
                assert(width * height * channels > usize::MAX);
                Err(EmbeddingError::UnsupportedShape)
            },
        }
    }

    /// Number of pixel columns.
    pub fn width(&self) -> (w: usize)
        ensures
            w == self.spec_width(),
    {
        self.width
    }

    /// Number of pixel rows.
    pub fn height(&self) -> (h: usize)
        ensures
            h == self.spec_height(),
    {
        self.height
    }

    /// Number of bytes per pixel.
    pub fn channels(&self) -> (c: usize)
        ensures
            c == self.spec_channels(),
    {
        self.channels
    }

    /// The bytes of the image in storage order.
    pub fn data(&self) -> (d: &Vec<u8>)
        ensures
            d@ == self@,
    {
        &self.data
    }

    /// Channel `c` of the pixel in column `x` and row `y`, or `None` when
    /// the position is outside the image.
    pub fn pixel(&self, x: usize, y: usize, c: usize) -> (p: Option<u8>)
        requires
            self.wf(),
        ensures
            p.is_some() <==> x < self.spec_width() && y < self.spec_height() && c
                < self.spec_channels(),
            p matches Some(v) ==> v == self.spec_pixel(x as int, y as int, c as int),
    {
        if x < self.width && y < self.height && c < self.channels {
            proof {
                lemma_pixel_index_in_bounds(
                    self.width as int,
                    self.height as int,
                    self.channels as int,
                    x as int,
                    y as int,
                    c as int,
                );
                assert(0 <= y * self.width + x <= self.width * self.height * self.channels)
                    by (nonlinear_arith)
                    requires
                        0 <= x < self.width,
                        0 <= y < self.height,
                        1 <= self.channels,
                ;
                assert(0 <= y * self.width <= y * self.width + x);
                assert((y * self.width + x) * self.channels <= pixel_index(
                    self.width as int,
                    self.channels as int,
                    x as int,
                    y as int,
                    c as int,
                ));
            }
            Some(self.data[(y * self.width + x) * self.channels + c])
        } else {
            None
        }
    }
}

/// Cropping is a function of the image and the box: any two images that
/// hold the pixels of `image` inside `bbox` have the same size and the same
/// bytes.
pub proof fn lemma_crop_is_unique(image: &Image, bbox: BBox, a: Image, b: Image)
    requires
        image.cropped_to(bbox, a),
        image.cropped_to(bbox, b),
    ensures
        a@ == b@,
        a.spec_width() == b.spec_width(),
        a.spec_height() == b.spec_height(),
        a.spec_channels() == b.spec_channels(),
{
    let w = a.spec_width() as int;
    let h = a.spec_height() as int;
    let ch = a.spec_channels() as int;
    assert forall|i: int| 0 <= i < a@.len() implies a@[i] == b@[i] by {
        let pos = lemma_index_is_a_pixel(w, h, ch, i);
        assert(a.spec_pixel(pos.0, pos.1, pos.2) == image.spec_pixel(
            bbox.xmin + pos.0,
            bbox.ymin + pos.1,
            pos.2,
        ));
        assert(b.spec_pixel(pos.0, pos.1, pos.2) == image.spec_pixel(
            bbox.xmin + pos.0,
            bbox.ymin + pos.1,
            pos.2,
        ));
    }
    assert(a@ =~= b@);
}

/// Crops `image` to the region that `bbox` locates.
///
/// The result owns a buffer of its own with `xmax - xmin` columns and
/// `ymax - ymin` rows; its pixel `(x, y)` is the pixel `(xmin + x, ymin + y)`
/// of `image`. A box without area, or one that reaches outside the image, is
/// rejected with `InvalidRegion`.
pub fn crop_image_to_bbox(image: &Image, bbox: BBox) -> (res: Result<Image, EmbeddingError>)
    requires
        image.wf(),
    ensures
        res.is_ok() <==> bbox.fits(image.spec_width() as int, image.spec_height() as int),
        res matches Ok(out) ==> image.cropped_to(bbox, out),
        res matches Err(e) ==> e == EmbeddingError::InvalidRegion,
{
    let rect = match crop_rect(bbox, image.width, image.height) {
        Ok(r) => r,
        Err(e) => {
            return Err(e);
        },
    };
    let x0: usize = rect.x as usize;
    let y0: usize = rect.y as usize;
    let w: usize = rect.width as usize;
    let h: usize = rect.height as usize;
    let ch: usize = image.channels;
    let ghost full_w: int = image.width as int;
    let ghost full_h: int = image.height as int;
    assert(full_w * ch <= full_w * full_h * ch && w * ch <= full_w * ch && x0 * ch + w * ch
        <= full_w * ch && 0 <= x0 * ch && 0 <= w * ch) by (nonlinear_arith)
        requires
            full_h >= 1,
            0 <= x0,
            0 <= w,
            x0 + w <= full_w,
            0 <= ch,
    ;
    let stride: usize = image.width * ch;
    let row_len: usize = w * ch;
    let x_off: usize = x0 * ch;
    let mut data: Vec<u8> = Vec::new();
    let mut y: usize = 0;
    while y < h
        invariant
            image.wf(),
            y <= h,
            y0 + h <= image.height,
            stride == image.width * image.channels,
            x_off + row_len <= stride,
            full_w == image.width,
            full_h == image.height,
            ch == image.channels,
            data@.len() == y * row_len,
            forall|yy: int, k: int|
                0 <= yy < y && 0 <= k < row_len ==> data@[#[trigger] row_offset(
                    yy,
                    row_len as int,
                    k,
                )] == image@[row_offset(y0 + yy, stride as int, x_off + k)],
        decreases h - y,
    {
        assert(0 <= (y0 + y) * stride && (y0 + y) * stride + stride <= full_w * full_h * ch)
            by (nonlinear_arith)
            requires
                0 <= y0 + y < full_h,
                stride == full_w * ch,
                0 <= stride,
        ;
        let base: usize = (y0 + y) * stride + x_off;
        let mut k: usize = 0;
        while k < row_len
            invariant
                image.wf(),
                k <= row_len,
                y < h,
                base == (y0 + y) * stride + x_off,
                base + row_len <= image@.len(),
                data@.len() == y * row_len + k,
                forall|yy: int, kk: int|
                    0 <= yy < y && 0 <= kk < row_len ==> data@[#[trigger] row_offset(
                        yy,
                        row_len as int,
                        kk,
                    )] == image@[row_offset(y0 + yy, stride as int, x_off + kk)],
                forall|kk: int|
                    0 <= kk < k ==> data@[#[trigger] row_offset(y as int, row_len as int, kk)]
                        == image@[row_offset(y0 + y, stride as int, x_off + kk)],
            decreases row_len - k,
        {
            let ghost before = data@;
            data.push(image.data[base + k]);
            proof {
                assert forall|yy: int, kk: int| 0 <= yy < y && 0 <= kk < row_len implies data@[
                #[trigger] row_offset(yy, row_len as int, kk)] == image@[row_offset(
                    y0 + yy,
                    stride as int,
                    x_off + kk,
                )] by {
                    assert(yy * row_len + kk < y * row_len) by (nonlinear_arith)
                        requires
                            0 <= yy < y,
                            0 <= kk < row_len,
                    ;
                    assert(0 <= yy * row_len) by (nonlinear_arith)
                        requires
                            0 <= yy,
                            0 <= row_len,
                    ;
                    assert(data@[row_offset(yy, row_len as int, kk)] == before[row_offset(
                        yy,
                        row_len as int,
                        kk,
                    )]);
                }
                assert forall|kk: int| 0 <= kk < k + 1 implies data@[#[trigger] row_offset(
                    y as int,
                    row_len as int,
                    kk,
                )] == image@[row_offset(y0 + y, stride as int, x_off + kk)] by {
                    if kk < k {
                        assert(data@[row_offset(y as int, row_len as int, kk)] == before[row_offset(
                            y as int,
                            row_len as int,
                            kk,
                        )]);
                    }
                }
            }
            k += 1;
        }
        proof {
            assert((y + 1) * row_len == y * row_len + row_len) by (nonlinear_arith);
        }
        y += 1;
    }
    let out = Image { width: w, height: h, channels: ch, data };
    proof {
        assert(h * row_len == w * h * ch && w * h * ch <= full_w * full_h * ch)
            by (nonlinear_arith)
            requires
                row_len == w * ch,
                0 <= w <= full_w,
                0 <= h <= full_h,
                0 <= ch,
        ;
        assert forall|x: int, yy: int, c: int|
            0 <= x < out.spec_width() && 0 <= yy < out.spec_height() && 0 <= c
                < out.spec_channels() implies #[trigger] out.spec_pixel(x, yy, c)
            == image.spec_pixel(bbox.xmin + x, bbox.ymin + yy, c) by {
            let k = x * ch + c;
            assert(0 <= k < w * ch) by (nonlinear_arith)
                requires
                    0 <= x < w,
                    0 <= c < ch,
                    k == x * ch + c,
            ;
            lemma_pixel_index_by_row(w as int, ch as int, x, yy, c);
            lemma_pixel_index_by_row(full_w, ch as int, x0 + x, y0 + yy, c);
            assert((x0 + x) * ch + c == x_off + k) by (nonlinear_arith)
                requires
                    x_off == x0 * ch,
                    k == x * ch + c,
            ;
            assert(data@[row_offset(yy, row_len as int, k)] == image@[row_offset(
                y0 + yy,
                stride as int,
                x_off + k,
            )]);
        }
    }
    Ok(out)
}

} // verus!
