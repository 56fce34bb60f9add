use vstd::prelude::*;
use crate::error::Error;
use crate::error::UNSUPPORTED_CONVERSION;
use crate::format::PixelLayout;

verus! {

/// Integer luma of an `r g b` pixel, with weights summing to 256 so that a
/// grey pixel (`r == g == b`) keeps its value exactly.
pub open spec fn spec_luma(r: u8, g: u8, b: u8) -> u8 {
    ((77 * r + 150 * g + 29 * b + 128) / 256) as u8
}

pub fn luma(r: u8, g: u8, b: u8) -> (y: u8)
    ensures
        y == spec_luma(r, g, b),
{
    ((77u32 * (r as u32) + 150u32 * (g as u32) + 29u32 * (b as u32) + 128u32) / 256u32) as u8
}

/// The `r g b a` channels of pixel `i` of `data` under layout `from`.
/// Layouts without an alpha channel read as fully opaque (`a == 255`).
pub open spec fn pixel_channels(from: PixelLayout, data: Seq<u8>, i: int) -> (u8, u8, u8, u8) {
    match from {
        PixelLayout::Gray8 => (data[i], data[i], data[i], 255u8),
        PixelLayout::Rgb24 => (data[3 * i], data[3 * i + 1], data[3 * i + 2], 255u8),
        PixelLayout::Rgb32 => (data[4 * i], data[4 * i + 1], data[4 * i + 2], data[4 * i + 3]),
        PixelLayout::VideoToolbox => (0u8, 0u8, 0u8, 0u8),
    }
}

/// The bytes of pixel `i` of `data` (laid out as `from`) once converted
/// into layout `to`.
pub open spec fn spec_convert_pixel(from: PixelLayout, to: PixelLayout, data: Seq<u8>, i: int) -> Seq<u8> {
    let (r, g, b, a) = pixel_channels(from, data, i);
    match to {
        PixelLayout::Gray8 => seq![spec_luma(r, g, b)],
        PixelLayout::Rgb24 => seq![r, g, b],
        PixelLayout::Rgb32 => seq![r, g, b, a],
        PixelLayout::VideoToolbox => Seq::<u8>::empty(),
    }
}

/// The first `n` pixels of `data` (laid out as `from`) converted into
/// layout `to`, concatenated in pixel order.
pub open spec fn spec_convert(from: PixelLayout, to: PixelLayout, data: Seq<u8>, n: nat) -> Seq<u8>
    decreases n,
{
    if n == 0 {
        Seq::<u8>::empty()
    } else {
        spec_convert(from, to, data, (n - 1) as nat) + spec_convert_pixel(from, to, data, n - 1)
    }
}

pub proof fn lemma_spec_convert_len(from: PixelLayout, to: PixelLayout, data: Seq<u8>, n: nat)
    requires
        !to.is_hardware_only(),
    ensures
        spec_convert(from, to, data, n).len() == n * to.spec_bytes_per_pixel(),
    decreases n,
{
    if n > 0 {
        lemma_spec_convert_len(from, to, data, (n - 1) as nat);
        let b = to.spec_bytes_per_pixel();
        assert(spec_convert_pixel(from, to, data, n - 1).len() == b);
        assert((n - 1) * b + b == n * b) by (nonlinear_arith);
    }
}

/// An immutable rectangular grid of pixels in host memory, tagged with its
/// width, height and pixel layout. `data` holds the packed samples, row by
/// row; its length is exactly `width * height` times the layout's bytes per
/// pixel.
pub struct RgbFrame {
    pub width: u32,
    pub height: u32,
    pub layout: PixelLayout,
    pub data: Vec<u8>,
}

impl RgbFrame {
    /// A valid frame: positive dimensions, a layout host memory can hold,
    /// and a sample buffer of exactly the right length.
    pub open spec fn wf(self) -> bool {
        &&& self.width > 0
        &&& self.height > 0
        &&& !self.layout.is_hardware_only()
        &&& self.data@.len() == self.width * self.height * self.layout.spec_bytes_per_pixel()
    }

    /// Wrap a caller-supplied sample buffer as a frame, checking that the
    /// dimensions, the layout and the buffer length agree. Returns `None`
    /// exactly when they do not (or the layout is hardware-only, or a
    /// dimension is zero).
    pub fn from_bytes(layout: PixelLayout, width: u32, height: u32, data: Vec<u8>) -> (r: Option<RgbFrame>)
        ensures
            match r {
                Some(f) => {
                    &&& f == (RgbFrame { width, height, layout, data })
                    &&& f.wf()
                },
                None => !(RgbFrame { width, height, layout, data }).wf(),
            },
    {
        if width == 0 || height == 0 || layout.hardware_only() {
            return None;
        }
        let bpp: usize = layout.bytes_per_pixel();
        proof {
            assert((width as int) * (height as int) <= 0xffff_ffff * 0xffff_ffff)
                by (nonlinear_arith)
                requires
                    width <= 0xffff_ffffu32,
                    height <= 0xffff_ffffu32,
            ;
        }
        let px: u64 = (width as u64) * (height as u64);
        if data.len() % bpp != 0 || (data.len() / bpp) as u64 != px {
            proof {
                let w = width as int;
                let h = height as int;
                let b = bpp as int;
                let l = data@.len() as int;
                assert(l == w * h * b ==> l % b == 0 && l / b == w * h)
                    by (nonlinear_arith)
                    requires
                        b >= 1,
                ;
            }
            return None;
        }
        proof {
            let b = bpp as int;
            let l = data@.len() as int;
            vstd::arithmetic::div_mod::lemma_fundamental_div_mod(l, b);
            assert(l == (width as int * height as int) * b);
        }
        Some(RgbFrame { width, height, layout, data })
    }

    pub fn width(&self) -> (r: u32)
        ensures
            r == self.width,
    {
        self.width
    }

    pub fn height(&self) -> (r: u32)
        ensures
            r == self.height,
    {
        self.height
    }

    /// Convert this frame into the `target` layout, producing a new frame of
    /// the same dimensions; the source frame is read through a shared
    /// borrow and is never mutated. Fails exactly when `target` is a
    /// hardware-only layout, which host memory cannot be converted into.
    pub fn convert(&self, target: PixelLayout) -> (r: Result<RgbFrame, Error>)
        requires
            self.wf(),
        ensures
            match r {
                Ok(out) => {
                    &&& !target.is_hardware_only()
                    &&& out.wf()
                    &&& out.width == self.width
                    &&& out.height == self.height
                    &&& out.layout == target
                    &&& out.data@ == spec_convert(
                        self.layout,
                        target,
                        self.data@,
                        (self.width * self.height) as nat,
                    )
                },
                Err(e) => {
                    &&& e == Error::Encoder(UNSUPPORTED_CONVERSION)
                    &&& target.is_hardware_only()
                },
            },
    {
        if target.hardware_only() {
            return Err(Error::Encoder(UNSUPPORTED_CONVERSION));
        }
        let from_bpp: usize = self.layout.bytes_per_pixel();
        let to_bpp: usize = target.bytes_per_pixel();
        let len: usize = self.data.len();
        let ghost pxc = self.width as int * self.height as int;
        proof {
            assert(from_bpp >= 1);
            assert(len == pxc * from_bpp);
            vstd::arithmetic::div_mod::lemma_div_multiples_vanish(pxc, from_bpp as int);
            assert((from_bpp as int) * pxc == pxc * (from_bpp as int));
            assert(len as int / (from_bpp as int) == pxc);
        }
        let n: usize = len / from_bpp;
        let ghost from = self.layout;
        let ghost data = self.data@;
        let mut out: Vec<u8> = Vec::new();
        let mut i: usize = 0;
        while i < n
        invariant
            0 <= i <= n,
            self.wf(),
            !target.is_hardware_only(),
            from == self.layout,
            data == self.data@,
            from_bpp == self.layout.spec_bytes_per_pixel(),
            to_bpp == target.spec_bytes_per_pixel(),
            n == self.width * self.height,
            len == self.data@.len(),
            n * from_bpp == len,
            out@ == spec_convert(from, target, data, i as nat),
        decreases n - i,
        {
            proof {
                lemma_spec_convert_len(from, target, data, i as nat);
                assert(i * from_bpp + from_bpp <= n * from_bpp) by (nonlinear_arith)
                    requires
                        0 <= i < n,
                        from_bpp >= 1,
                ;
            }
            let base: usize = i * from_bpp;
            let (r, g, b, a): (u8, u8, u8, u8) = match self.layout {
                PixelLayout::Gray8 => {
                    let y = self.data[base];
                    (y, y, y, 255u8)
                },
                PixelLayout::Rgb24 => (
                    self.data[base],
                    self.data[base + 1],
                    self.data[base + 2],
                    255u8,
                ),
                PixelLayout::Rgb32 => (
                    self.data[base],
                    self.data[base + 1],
                    self.data[base + 2],
                    self.data[base + 3],
                ),
                PixelLayout::VideoToolbox => (0u8, 0u8, 0u8, 0u8),
            };
            proof {
                assert((r, g, b, a) == pixel_channels(from, data, i as int));
            }
            match target {
                PixelLayout::Gray8 => {
                    out.push(luma(r, g, b));
                },
                PixelLayout::Rgb24 => {
                    out.push(r);
                    out.push(g);
                    out.push(b);
                },
                PixelLayout::Rgb32 => {
                    out.push(r);
                    out.push(g);
                    out.push(b);
                    out.push(a);
                },
                PixelLayout::VideoToolbox => {},
            }
            proof {
                assert(out@ =~= spec_convert(from, target, data, i as nat)
                    + spec_convert_pixel(from, target, data, i as int));
                assert(out@ == spec_convert(from, target, data, (i + 1) as nat));
            }
            i = i + 1;
        }
        proof {
            lemma_spec_convert_len(from, target, data, n as nat);
            assert((n as int) * (to_bpp as int) == self.width * self.height * target.spec_bytes_per_pixel())
                by (nonlinear_arith)
                requires
                    n as int == self.width as int * self.height as int,
                    to_bpp as int == target.spec_bytes_per_pixel(),
            ;
        }
        Ok(RgbFrame { width: self.width, height: self.height, layout: target, data: out })
    }
}

} // verus!
