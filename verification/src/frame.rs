//! Captured frames and ordered frame sequences.

use crate::geometry::Geometry;
use vstd::prelude::*;

verus! {

/// The mathematical value of a frame: its pixel bytes and its geometry.
pub struct ImageModel {
    pub data: Seq<u8>,
    pub geometry: Geometry,
}

/// One captured frame: an RGBA pixel buffer and the geometry it was taken
/// from. Four bytes per pixel, rows in order.
#[derive(Debug)]
pub struct Image {
    pub data: Vec<u8>,
    pub geometry: Geometry,
}

impl View for Image {
    type V = ImageModel;

    open spec fn view(&self) -> ImageModel {
        ImageModel { data: self.data@, geometry: self.geometry }
    }
}

/// The frame sequence a vector of images stands for.
pub open spec fn images_model(s: Seq<Image>) -> Seq<ImageModel> {
    s.map_values(|img: Image| img@)
}

impl Image {
    /// The buffer holds exactly the pixels the geometry announces.
    pub open spec fn well_formed(self) -> bool {
        self.data@.len() == self.geometry.width * self.geometry.height * 4
    }

    pub fn new(data: Vec<u8>, geometry: Geometry) -> (r: Self)
        ensures
            r.data == data,
            r.geometry == geometry,
    {
        Self { data, geometry }
    }
}

/// The RGBA bytes a row-major BGRx capture buffer stands for: within each
/// four-byte pixel the blue and red channels swap places and the filler
/// byte becomes an opaque alpha. Trailing bytes short of a pixel are
/// dropped.
pub open spec fn spec_rgba_of_bgrx(raw: Seq<u8>) -> Seq<u8> {
    Seq::new(
        (raw.len() / 4 * 4) as nat,
        |k: int|
            {
                let p = k / 4;
                if k % 4 == 0 {
                    raw[4 * p + 2]
                } else if k % 4 == 1 {
                    raw[4 * p + 1]
                } else if k % 4 == 2 {
                    raw[4 * p]
                } else {
                    0xffu8
                }
            },
    )
}

/// Convert one captured BGRx buffer, as the windowing system hands pixels
/// out, into the RGBA layout every frame of this library holds.
pub fn bgrx_to_rgba(raw: &Vec<u8>) -> (r: Vec<u8>)
    ensures
        r@ == spec_rgba_of_bgrx(raw@),
{
    let n = raw.len() / 4;
    let mut out: Vec<u8> = Vec::new();
    let mut p: usize = 0;
    proof {
        assert(4 * (raw@.len() / 4) <= raw@.len());
    }
    while p < n
        invariant
            n == raw@.len() / 4,
            4 * n <= raw@.len(),
            raw@.len() <= usize::MAX,
            p <= n,
            out@.len() == 4 * p,
            forall|k: int| 0 <= k < out@.len() ==> out@[k] == spec_rgba_of_bgrx(raw@)[k],
        decreases n - p,
    {
        proof {
            assert(4 * (p as int) + 3 < 4 * (n as int) + 1);
            assert(4 * (p as int) + 2 < raw@.len());
        }
        out.push(raw[4 * p + 2]);
        out.push(raw[4 * p + 1]);
        out.push(raw[4 * p]);
        out.push(0xff);
        p += 1;
    }
    proof {
        assert(out@ =~= spec_rgba_of_bgrx(raw@));
    }
    out
}

/// A time-ordered sequence of frames and the rate they were captured or are
/// intended at. The order is capture order and is never reordered.
#[derive(Debug)]
pub struct Frames {
    pub images: Vec<Image>,
    pub fps: u32,
}

impl Frames {
    pub open spec fn well_formed(self) -> bool {
        forall|i: int| 0 <= i < self.images@.len() ==> (#[trigger] self.images@[i]).well_formed()
    }

    pub fn new(images: Vec<Image>, fps: u32) -> (r: Self)
        ensures
            r.images == images,
            r.fps == fps,
    {
        Self { images, fps }
    }

    pub fn len(&self) -> (r: usize)
        ensures
            r == self.images@.len(),
    {
        self.images.len()
    }
}

} // verus!
