//! Images of premultiplied RGBA pixels, owned and borrowed.

use vstd::prelude::*;
use crate::color::PremultipliedColorU8;

verus! {

/// The largest width of an image: a row must have fewer than `2^31` bytes.
pub const MAX_WIDTH: u32 = 0x1FFF_FFFF;

/// An image as a value of specifications: its pixels row by row, from
/// the top.
pub struct PixmapView {
    pub pixels: Seq<PremultipliedColorU8>,
    pub width: int,
    pub height: int,
}

impl PixmapView {
    /// Neither side is zero, and there is one pixel for each place.
    pub open spec fn wf(self) -> bool {
        &&& 0 < self.width <= MAX_WIDTH
        &&& 0 < self.height <= u32::MAX
        &&& self.pixels.len() == self.width * self.height
    }
}

/// An image that owns its pixels.
#[derive(Debug, PartialEq)]
pub struct Pixmap {
    data: Vec<PremultipliedColorU8>,
    width: u32,
    height: u32,
}

/// An image that borrows its pixels.
#[derive(Clone, Copy, Debug, PartialEq)]
pub struct PixmapRef<'a> {
    data: &'a [PremultipliedColorU8],
    width: u32,
    height: u32,
}

/// Whether an image of this size can be made: no side is zero, a row has
/// fewer than `2^31` bytes, and the pixels can be counted.
pub open spec fn size_is_valid(width: u32, height: u32) -> bool {
    &&& 0 < width <= MAX_WIDTH
    &&& 0 < height
    &&& width * height <= usize::MAX
}

/// The number of pixels of a valid size; `None` for any other size.
pub fn pixel_count(width: u32, height: u32) -> (r: Option<usize>)
    ensures
        r is Some == size_is_valid(width, height),
        r matches Some(n) ==> n == width * height,
{
    if width == 0 || height == 0 || width > MAX_WIDTH {
        return None;
    }
    assert(width * height <= 0xFFFF_FFFF * 0xFFFF_FFFF) by (nonlinear_arith)
        requires
            width <= 0xFFFF_FFFF,
            height <= 0xFFFF_FFFF,
    ;
    let n: u64 = width as u64 * height as u64;
    if n > usize::MAX as u64 {
        return None;
    }
    Some(n as usize)
}

impl<'a> View for PixmapRef<'a> {
    type V = PixmapView;

    closed spec fn view(&self) -> PixmapView {
        PixmapView { pixels: self.data@, width: self.width as int, height: self.height as int }
    }
}

impl View for Pixmap {
    type V = PixmapView;

    closed spec fn view(&self) -> PixmapView {
        PixmapView { pixels: self.data@, width: self.width as int, height: self.height as int }
    }
}

impl<'a> PixmapRef<'a> {
    /// The image is well formed. Every image is.
    #[verifier::type_invariant]
    pub open spec fn wf(self) -> bool {
        self@.wf()
    }

    /// Borrows `data` as an image of the given size; `None` unless the
    /// size is valid and `data` has one pixel for each place.
    pub fn from_pixels(data: &'a [PremultipliedColorU8], width: u32, height: u32) -> (r: Option<
        PixmapRef<'a>,
    >)
        ensures
            r is Some == (size_is_valid(width, height) && data@.len() == width * height),
            r matches Some(p) ==> p.wf() && p@ == (PixmapView {
                pixels: data@,
                width: width as int,
                height: height as int,
            }),
    {
        match pixel_count(width, height) {
            Some(n) => {
                if data.len() == n {
                    Some(PixmapRef { data, width, height })
                } else {
                    None
                }
            },
            None => None,
        }
    }

    /// The number of columns.
    pub fn width(&self) -> (w: u32)
        ensures
            w == self@.width,
            self@.wf(),
    {
        proof {
            use_type_invariant(self);
        }
        self.width
    }

    /// The number of rows.
    pub fn height(&self) -> (h: u32)
        ensures
            h == self@.height,
            self@.wf(),
    {
        proof {
            use_type_invariant(self);
        }
        self.height
    }

    /// The pixels, row by row.
    pub fn pixels(&self) -> (r: &'a [PremultipliedColorU8])
        ensures
            r@ == self@.pixels,
    {
        self.data
    }
}

impl Pixmap {
    /// The image is well formed. Every image is.
    #[verifier::type_invariant]
    pub open spec fn wf(self) -> bool {
        self@.wf()
    }

    /// Allocates a transparent image; `None` unless the size is valid.
    pub fn new(width: u32, height: u32) -> (r: Option<Pixmap>)
        ensures
            r is Some == size_is_valid(width, height),
            r matches Some(p) ==> {
                &&& p.wf()
                &&& p@.width == width
                &&& p@.height == height
                &&& forall|i: int|
                    0 <= i < p@.pixels.len() ==> #[trigger] p@.pixels[i] == (PremultipliedColorU8 {
                        r: 0,
                        g: 0,
                        b: 0,
                        a: 0,
                    })
            },
    {
        match pixel_count(width, height) {
            Some(n) => {
                let data = vec![PremultipliedColorU8::transparent(); n];
                Some(Pixmap { data, width, height })
            },
            None => None,
        }
    }

    /// Makes an image of pixels at hand; `None` unless the size is valid
    /// and `data` has one pixel for each place.
    pub fn from_vec(data: Vec<PremultipliedColorU8>, width: u32, height: u32) -> (r: Option<Pixmap>)
        ensures
            r is Some == (size_is_valid(width, height) && data@.len() == width * height),
            r matches Some(p) ==> p.wf() && p@ == (PixmapView {
                pixels: data@,
                width: width as int,
                height: height as int,
            }),
    {
        match pixel_count(width, height) {
            Some(n) => {
                if data.len() == n {
                    Some(Pixmap { data, width, height })
                } else {
                    None
                }
            },
            None => None,
        }
    }

    /// The number of columns.
    pub fn width(&self) -> (w: u32)
        ensures
            w == self@.width,
            self@.wf(),
    {
        proof {
            use_type_invariant(self);
        }
        self.width
    }

    /// The number of rows.
    pub fn height(&self) -> (h: u32)
        ensures
            h == self@.height,
            self@.wf(),
    {
        proof {
            use_type_invariant(self);
        }
        self.height
    }

    /// The pixels, row by row.
    pub fn pixels(&self) -> (r: &[PremultipliedColorU8])
        ensures
            r@ == self@.pixels,
    {
        self.data.as_slice()
    }

    /// The same image, borrowed.
    pub fn as_ref(&self) -> (r: PixmapRef<'_>)
        ensures
            r@ == self@,
            r@.wf(),
    {
        proof {
            use_type_invariant(self);
        }
        PixmapRef { data: self.data.as_slice(), width: self.width, height: self.height }
    }
}

} // verus!
