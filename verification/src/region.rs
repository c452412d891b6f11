use vstd::prelude::*;
use crate::error::EmbeddingError;

verus! {

/// A face location in absolute pixel coordinates: the corner `(xmin, ymin)`
/// is inside the box, the corner `(xmax, ymax)` is just outside of it.
#[derive(Clone, Copy, Debug, PartialEq, Eq, Structural)]
pub struct BBox {
    pub xmin: i32,
    pub ymin: i32,
    pub xmax: i32,
    pub ymax: i32,
}

/// A rectangle given by its top-left corner and its extent, in pixels.
#[derive(Clone, Copy, Debug, PartialEq, Eq, Structural)]
pub struct Rect {
    pub x: i32,
    pub y: i32,
    pub width: i32,
    pub height: i32,
}

impl BBox {
    /// Horizontal extent of the box, `xmax - xmin`.
    pub open spec fn spec_width(self) -> int {
        self.xmax - self.xmin
    }

    /// Vertical extent of the box, `ymax - ymin`.
    pub open spec fn spec_height(self) -> int {
        self.ymax - self.ymin
    }

    /// The box covers at least one pixel and lies wholly inside an image of
    /// `image_width` by `image_height` pixels.
    pub open spec fn fits(self, image_width: int, image_height: int) -> bool {
        &&& 0 <= self.xmin
        &&& 0 <= self.ymin
        &&& self.spec_width() > 0
        &&& self.spec_height() > 0
        &&& self.xmax <= image_width
        &&& self.ymax <= image_height
    }

    /// The rectangle `(xmin, ymin, xmax - xmin, ymax - ymin)`.
    pub open spec fn spec_rect(self) -> Rect {
        Rect {
            x: self.xmin,
            y: self.ymin,
            width: (self.xmax - self.xmin) as i32,
            height: (self.ymax - self.ymin) as i32,
        }
    }

    /// Decides whether the box can be cropped out of an image of the given
    /// size.
    pub fn fits_within(&self, image_width: usize, image_height: usize) -> (ok: bool)
        ensures
            ok == self.fits(image_width as int, image_height as int),
    {
        let w: i64 = self.xmax as i64 - self.xmin as i64;
        let h: i64 = self.ymax as i64 - self.ymin as i64;
        self.xmin >= 0 && self.ymin >= 0 && w > 0 && h > 0
            && (self.xmax as u64) <= (image_width as u64)
            && (self.ymax as u64) <= (image_height as u64)
    }
}

/// A box of zero width or zero height fits into no image, whatever its size.
pub proof fn lemma_empty_box_never_fits(bbox: BBox, image_width: int, image_height: int)
    requires
        bbox.spec_width() == 0 || bbox.spec_height() == 0,
    ensures
        !bbox.fits(image_width, image_height),
{
}

/// Computes the crop rectangle of `bbox` inside an image of `image_width` by
/// `image_height` pixels.
///
/// The rectangle starts at `(xmin, ymin)` and extends over
/// `(xmax - xmin, ymax - ymin)` pixels. A box without area, or one that is not
/// wholly inside the image, is rejected with `InvalidRegion`.
pub fn crop_rect(bbox: BBox, image_width: usize, image_height: usize) -> (res: Result<
    Rect,
    EmbeddingError,
>)
    ensures
        res.is_ok() <==> bbox.fits(image_width as int, image_height as int),
        res matches Ok(r) ==> r == bbox.spec_rect() && r.x >= 0 && r.y >= 0 && r.width > 0
            && r.height > 0 && r.x + r.width <= image_width && r.y + r.height <= image_height,
        res matches Err(e) ==> e == EmbeddingError::InvalidRegion,
{
    if bbox.fits_within(image_width, image_height) {
        Ok(Rect {
            x: bbox.xmin,
            y: bbox.ymin,
            width: bbox.xmax - bbox.xmin,
            height: bbox.ymax - bbox.ymin,
        })
    } else {
        Err(EmbeddingError::InvalidRegion)
    }
}

} // verus!
