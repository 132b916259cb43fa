//! The differencer's configuration and the data it works on: captured
//! frames and update regions.

use crate::pixel::Bgr8;
use vstd::prelude::*;

verus! {

/// Panel and capture geometry, and the rotation that will be applied to
/// every region before it is sent to the panel.
pub struct Imagery {
    pub eink_width: u16,
    pub eink_height: u16,
    pub capture_width: u16,
    pub capture_height: u16,
    pub rotation: u16,
}

/// A rectangular update window in panel coordinates with its pixels,
/// row-major.
#[derive(Clone, PartialEq, Debug)]
pub struct Area {
    pub x: u16,
    pub y: u16,
    pub width: u16,
    pub height: u16,
    pub bgr_vec: Vec<Bgr8>,
}

/// The mathematical value of an [`Area`].
pub struct Region {
    pub x: int,
    pub y: int,
    pub width: int,
    pub height: int,
    pub pixels: Seq<Bgr8>,
}

impl View for Area {
    type V = Region;

    open spec fn view(&self) -> Region {
        Region {
            x: self.x as int,
            y: self.y as int,
            width: self.width as int,
            height: self.height as int,
            pixels: self.bgr_vec@,
        }
    }
}

impl Area {
    /// The pixel sequence is exactly one pixel per cell of the rectangle.
    pub open spec fn wf(&self) -> bool {
        self.bgr_vec@.len() == self.width * self.height
    }
}

/// A captured frame: a rectangular grid of pixels, row-major.
#[derive(Debug)]
pub struct Image {
    pixels: Vec<Bgr8>,
    width: u32,
    height: u32,
}

/// The mathematical value of an [`Image`].
pub struct Frame {
    pub pixels: Seq<Bgr8>,
    pub width: int,
    pub height: int,
}

impl View for Image {
    type V = Frame;

    closed spec fn view(&self) -> Frame {
        Frame { pixels: self.pixels@, width: self.width as int, height: self.height as int }
    }
}

impl Image {
    #[verifier::type_invariant]
    spec fn grid(&self) -> bool {
        self.pixels@.len() == self.width * self.height
    }

    /// A frame of `width` by `height` pixels, or nothing when `pixels` does
    /// not hold exactly one pixel per cell.
    pub fn new(pixels: Vec<Bgr8>, width: u32, height: u32) -> (image: Option<Image>)
        ensures
            image is Some <==> pixels@.len() == width * height,
            image is Some ==> image->0@ == (Frame {
                pixels: pixels@,
                width: width as int,
                height: height as int,
            }),
    {
        assert(width * height <= u64::MAX) by (nonlinear_arith)
            requires
                width <= u32::MAX,
                height <= u32::MAX,
        ;
        let cells: u64 = (width as u64) * (height as u64);
        if pixels.len() as u64 == cells {
            Some(Image { pixels, width, height })
        } else {
            None
        }
    }

    /// The frame's pixels, row-major.
    pub fn as_slice(&self) -> (pixels: &[Bgr8])
        ensures
            pixels@ == self@.pixels,
            pixels@.len() == self@.width * self@.height,
    {
        proof {
            use_type_invariant(self);
        }
        self.pixels.as_slice()
    }

    /// Width and height of the frame, in pixels.
    pub fn get_dimensions(&self) -> (dimensions: (u32, u32))
        ensures
            dimensions.0 == self@.width,
            dimensions.1 == self@.height,
    {
        (self.width, self.height)
    }
}

impl Imagery {
    /// The configuration for a panel of `eink_width` by `eink_height` pixels
    /// fed from a capture of `capture_width` by `capture_height` pixels, with
    /// regions to be turned by `rotation` degrees.
    pub fn new(
        eink_width: u16,
        eink_height: u16,
        capture_width: u16,
        capture_height: u16,
        rotation: u16,
    ) -> (imagery: Imagery)
        ensures
            imagery.eink_width == eink_width,
            imagery.eink_height == eink_height,
            imagery.capture_width == capture_width,
            imagery.capture_height == capture_height,
            imagery.rotation == rotation,
    {
        Imagery { eink_width, eink_height, capture_width, capture_height, rotation }
    }

    /// The panel is used unrotated or upside down: rows are bounded by the
    /// panel's height and columns by its width.
    pub open spec fn landscape(&self) -> bool {
        self.rotation == 0 || self.rotation == 180
    }

    /// A quarter turn is pending: rows are bounded by the panel's width and
    /// columns by its height.
    pub open spec fn portrait(&self) -> bool {
        self.rotation == 90 || self.rotation == 270
    }
}

} // verus!
