use vstd::prelude::*;
use crate::error::Error;

verus! {

/// The in-memory arrangement and colour model of a frame's samples.
///
/// The host layouts are packed, one fixed-size group of bytes per pixel:
/// `Gray8` one luma byte, `Rgb24` three bytes `r g b`, `Rgb32` four bytes
/// `r g b a`. `VideoToolbox` stands for a device-resident layout that
/// ordinary host memory cannot populate; negotiation must skip it.
#[derive(Clone, Copy, Debug, PartialEq, Eq, Structural)]
pub enum PixelLayout {
    Gray8,
    Rgb24,
    Rgb32,
    VideoToolbox,
}

impl PixelLayout {
    /// A layout restricted to device/hardware-resident buffers.
    pub open spec fn is_hardware_only(self) -> bool {
        self is VideoToolbox
    }

    pub fn hardware_only(&self) -> (r: bool)
        ensures
            r == self.is_hardware_only(),
    {
        matches!(self, PixelLayout::VideoToolbox)
    }

    /// Bytes one pixel occupies in host memory; 0 for a layout that has no
    /// host representation.
    pub open spec fn spec_bytes_per_pixel(self) -> int {
        match self {
            PixelLayout::Gray8 => 1,
            PixelLayout::Rgb24 => 3,
            PixelLayout::Rgb32 => 4,
            PixelLayout::VideoToolbox => 0,
        }
    }

    pub fn bytes_per_pixel(&self) -> (r: usize)
        ensures
            r == self.spec_bytes_per_pixel(),
    {
        match self {
            PixelLayout::Gray8 => 1,
            PixelLayout::Rgb24 => 3,
            PixelLayout::Rgb32 => 4,
            PixelLayout::VideoToolbox => 0,
        }
    }
}

/// The first layout of `layouts` that is not hardware-only, if any.
pub open spec fn first_usable(layouts: Seq<PixelLayout>) -> Option<PixelLayout>
    decreases layouts.len(),
{
    if layouts.len() == 0 {
        None
    } else if !layouts[0].is_hardware_only() {
        Some(layouts[0])
    } else {
        first_usable(layouts.drop_first())
    }
}

/// What the pipeline reads of a codec: the pixel layouts it advertises,
/// in the codec's own preference order.
pub struct CodecInfo {
    pub layouts: Vec<PixelLayout>,
}

/// Pick the pixel layout the pipeline will feed the encoder: the first
/// advertised layout that host memory can populate. Fails with
/// `MissingFormat` when nothing is advertised or everything advertised is
/// hardware-only.
pub fn negotiate(layouts: &Vec<PixelLayout>) -> (r: Result<PixelLayout, Error>)
    ensures
        match r {
            Ok(l) => first_usable(layouts@) == Some(l) && !l.is_hardware_only(),
            Err(e) => e == Error::MissingFormat && first_usable(layouts@) is None,
        },
{
    let n = layouts.len();
    let mut i: usize = 0;
    proof {
        assert(layouts@.skip(0) =~= layouts@);
    }
    while i < n
        invariant
            0 <= i <= n,
            n == layouts@.len(),
            first_usable(layouts@) == first_usable(layouts@.skip(i as int)),
        decreases n - i,
    {
        proof {
            assert(layouts@.skip(i as int)[0] == layouts@[i as int]);
        }
        if !layouts[i].hardware_only() {
            return Ok(layouts[i]);
        }
        proof {
            assert(layouts@.skip(i as int).drop_first() =~= layouts@.skip(i + 1));
        }
        i = i + 1;
    }
    proof {
        assert(layouts@.skip(n as int) =~= Seq::<PixelLayout>::empty());
    }
    Err(Error::MissingFormat)
}

/// Law: a codec whose every advertised layout is hardware-only negotiates
/// no layout at all — negotiation fails rather than pick a device-resident
/// format.
pub proof fn lemma_negotiation_excludes_hardware(layouts: Seq<PixelLayout>)
    requires
        forall|i: int| 0 <= i < layouts.len() ==> layouts[i].is_hardware_only(),
    ensures
        first_usable(layouts) is None,
    decreases layouts.len(),
{
    if layouts.len() > 0 {
        lemma_negotiation_excludes_hardware(layouts.drop_first());
    }
}

/// Law: the first advertised layout that is not hardware-only is the one
/// chosen, wherever in the advertisement it stands.
pub proof fn lemma_negotiation_picks_first_usable(layouts: Seq<PixelLayout>, i: int)
    requires
        0 <= i < layouts.len(),
        !layouts[i].is_hardware_only(),
        forall|j: int| 0 <= j < i ==> layouts[j].is_hardware_only(),
    ensures
        first_usable(layouts) == Some(layouts[i]),
    decreases i,
{
    if i > 0 {
        assert(layouts.drop_first()[i - 1] == layouts[i]);
        assert(forall|j: int| 0 <= j < i - 1 ==> layouts.drop_first()[j] == layouts[j + 1]);
        lemma_negotiation_picks_first_usable(layouts.drop_first(), i - 1);
    }
}

} // verus!
