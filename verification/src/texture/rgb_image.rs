//! Images of three bytes per pixel, held in main memory.

use vstd::prelude::*;
use vstd::arithmetic::mul::{lemma_mul_inequality, lemma_mul_is_commutative};
use crate::texture::color::ColorU8;

verus! {

/// An image of the `image` crate with three bytes per pixel. Verus does not
/// look inside: what it holds is told by `picture_samples` and
/// `picture_size`.
#[verifier::external_body]
pub struct RgbPicture {
    inner: image::RgbImage,
}

/// The samples of a picture: three bytes for each pixel, red, green, blue,
/// the pixels of a row from left to right, the rows from the first to the
/// last.
pub uninterp spec fn picture_samples(picture: RgbPicture) -> Seq<u8>;

/// The width and the height of a picture.
pub uninterp spec fn picture_size(picture: RgbPicture) -> (nat, nat);

impl RgbPicture {
    /// The width of the picture in pixels.
    pub fn width(&self) -> (w: u32)
        ensures
            w == picture_size(*self).0,
    {
        picture_width(self)
    }

    /// The height of the picture in pixels.
    pub fn height(&self) -> (h: u32)
        ensures
            h == picture_size(*self).1,
    {
        picture_height(self)
    }

    /// The samples of the picture.
    pub fn into_raw(self) -> (samples: Vec<u8>)
        ensures
            samples@ == picture_samples(self),
    {
        picture_into_raw(self)
    }
}

/// Calls `image::ImageBuffer::width`, which hands out the width that the
/// image was made with.
#[verifier::external_body]
fn picture_width(picture: &RgbPicture) -> (w: u32)
    ensures
        w == picture_size(*picture).0,
{
    picture.inner.width()
}

/// Calls `image::ImageBuffer::height`, which hands out the height that the
/// image was made with.
#[verifier::external_body]
fn picture_height(picture: &RgbPicture) -> (h: u32)
    ensures
        h == picture_size(*picture).1,
{
    picture.inner.height()
}

/// Calls `image::ImageBuffer::into_raw`, which hands out the vector of
/// samples that the image holds.
#[verifier::external_body]
fn picture_into_raw(picture: RgbPicture) -> (samples: Vec<u8>)
    ensures
        samples@ == picture_samples(picture),
{
    picture.inner.into_raw()
}

/// An image as rows of colors: row 0 first, each row from left to right.
pub struct RGBImage {
    pub width: usize,
    pub height: usize,
    pub data: Vec<ColorU8>,
}

impl RGBImage {
    /// The image has a color for each of its pixels, and no more.
    pub open spec fn wf(&self) -> bool {
        self.data.len() == self.width * self.height
    }

    /// The color at column `x` of row `y`.
    pub open spec fn pixel(&self, x: int, y: int) -> ColorU8 {
        self.data@[y * self.width + x]
    }

    /// The row that row `y` is taken from: itself, or, where the image is
    /// flipped, the row as far from the last as `y` is from the first.
    pub open spec fn source_row(&self, y: int, flip: bool) -> int {
        if flip {
            self.height - 1 - y
        } else {
            y
        }
    }

    /// The three channels of the color at column `x` of row `y`, flipped or
    /// not.
    pub open spec fn channels_at(&self, x: int, y: int, flip: bool) -> Seq<u8> {
        let c = self.pixel(x, self.source_row(y, flip));
        seq![c.r, c.g, c.b]
    }

    /// The image as samples: three bytes for each pixel, the pixels row by
    /// row.
    pub open spec fn samples(&self, flip: bool) -> Seq<u8> {
        Seq::new(
            (3 * (self.width * self.height)) as nat,
            |i: int|
                self.channels_at(
                    (i / 3) % (self.width as int),
                    (i / 3) / (self.width as int),
                    flip,
                )[i % 3],
        )
    }

    pub fn new_u8(data: Vec<ColorU8>, width: usize, height: usize) -> (img: RGBImage)
        ensures
            img.width == width,
            img.height == height,
            img.data == data,
    {
        RGBImage { width, height, data }
    }

    /// Where row `i` ends among the colors: where the next row starts, or
    /// where the colors end.
    pub open spec fn row_end(&self, i: int) -> int {
        if (i + 1) * self.width <= self.data.len() {
            (i + 1) * self.width
        } else {
            self.data.len() as int
        }
    }

    /// The colors in runs of `width`, from the first on: the rows of the
    /// image. Where the colors do not fill the last row, it is shorter.
    pub fn rows(&self) -> (rows: Vec<Vec<ColorU8>>)
        requires
            self.width > 0,
        ensures
            rows.len() * self.width >= self.data.len(),
            rows.len() > 0 ==> (rows.len() - 1) * self.width < self.data.len(),
            forall|i: int|
                0 <= i < rows.len() ==> (#[trigger] rows[i])@ == self.data@.subrange(
                    i * self.width,
                    self.row_end(i),
                ),
    {
        let mut rows: Vec<Vec<ColorU8>> = Vec::new();
        let mut start: usize = 0;
        assert(0 * self.width == 0) by (nonlinear_arith);
        while start < self.data.len()
            invariant
                self.width > 0,
                start <= self.data.len(),
                start < self.data.len() ==> start == rows.len() * self.width,
                start == self.data.len() ==> rows.len() * self.width >= self.data.len(),
                rows.len() > 0 ==> (rows.len() - 1) * self.width < self.data.len(),
                forall|i: int|
                    0 <= i < rows.len() ==> (#[trigger] rows[i])@ == self.data@.subrange(
                        i * self.width,
                        self.row_end(i),
                    ),
            decreases self.data.len() - start,
        {
            let end: usize = if self.data.len() - start < self.width {
                self.data.len()
            } else {
                start + self.width
            };
            let mut row: Vec<ColorU8> = Vec::new();
            let mut at: usize = start;
            while at < end
                invariant
                    start <= at <= end <= self.data.len(),
                    row@ == self.data@.subrange(start as int, at as int),
                decreases end - at,
            {
                row.push(self.data[at]);
                at += 1;
                assert(row@ =~= self.data@.subrange(start as int, at as int));
            }
            let ghost k = rows.len() as int;
            let ghost before = rows@;
            proof {
                assert((k + 1) * self.width == k * self.width + self.width) by (nonlinear_arith);
                assert(k + 1 - 1 == k);
            }
            rows.push(row);
            proof {
                assert(forall|i: int| 0 <= i < k ==> rows[i] == before[i]);
                assert(rows[k]@ == self.data@.subrange(k * self.width, self.row_end(k)));
            }
            start = end;
        }
        rows
    }

    /// The three channels of the color at column `x` of row `y`, flipped or
    /// not.
    pub fn channels(&self, x: u32, y: u32, flip: bool) -> (c: [u8; 3])
        requires
            self.wf(),
            x < self.width,
            y < self.height,
        ensures
            c@ == self.channels_at(x as int, y as int, flip),
    {
        let row: usize = if flip {
            self.height - y as usize - 1
        } else {
            y as usize
        };
        proof {
            lemma_mul_inequality(row as int, self.height - 1, self.width as int);
            lemma_mul_is_commutative(self.height - 1, self.width as int);
            lemma_mul_is_commutative(self.height as int, self.width as int);
            assert((self.height - 1) * self.width == self.height * self.width - self.width)
                by (nonlinear_arith);
        }
        let rgb = self.data[row * self.width + x as usize];
        let c = [rgb.r, rgb.g, rgb.b];
        assert(c@ =~= self.channels_at(x as int, y as int, flip));
        c
    }

    /// The image as a picture of the `image` crate, with the last row first.
    pub fn to_rgb_image_flipped_y(&self) -> (img: RgbPicture)
        requires
            self.wf(),
            self.width <= u32::MAX,
            self.height <= u32::MAX,
            3 * (self.width * self.height) <= isize::MAX,
        ensures
            picture_size(img) == (self.width as nat, self.height as nat),
            picture_samples(img) == self.samples(true),
    {
        picture_from_pixels(self, true)
    }

    /// The image as a picture of the `image` crate.
    pub fn to_rgb_image(&self) -> (img: RgbPicture)
        requires
            self.wf(),
            self.width <= u32::MAX,
            self.height <= u32::MAX,
            3 * (self.width * self.height) <= isize::MAX,
        ensures
            picture_size(img) == (self.width as nat, self.height as nat),
            picture_samples(img) == self.samples(false),
    {
        picture_from_pixels(self, false)
    }
}

/// Calls `image::ImageBuffer::from_fn`. That function makes an image of the
/// given width and height, asks the closure once for each pixel, with the
/// pixel's column and row, and stores what it answers as that pixel; it
/// panics where the samples would not fit in a vector. The contract claims
/// that the picture has the size asked for and holds, pixel by pixel, the
/// channels that `RGBImage::channels` answers.
#[verifier::external_body]
fn picture_from_pixels(source: &RGBImage, flip: bool) -> (img: RgbPicture)
    requires
        source.wf(),
        source.width <= u32::MAX,
        source.height <= u32::MAX,
        3 * (source.width * source.height) <= isize::MAX,
    ensures
        picture_size(img) == (source.width as nat, source.height as nat),
        picture_samples(img) == source.samples(flip),
{
    let inner = image::ImageBuffer::from_fn(
        source.width as u32,
        source.height as u32,
        |x, y| image::Rgb(source.channels(x, y, flip)),
    );
    RgbPicture { inner }
}

} // verus!
