use vstd::prelude::*;

verus! {

/// The layout in which a session hands out its frames.
#[derive(Debug, Clone, Copy, PartialEq, Eq, Structural)]
pub enum ImageOutput {
    /// Four planes: red, green, blue and alpha, one byte per pixel each.
    RGBA,
    /// Three planes of YUV 4:2:0: full-size luma, then two quarter-size chroma planes.
    YUV,
}

/// One decoded picture, copied out of the engine's pool.
///
/// `data` holds the picture in the session's output layout before it is split
/// into planes: interleaved R, G, B, A bytes for `RGBA`, planar Y, U, V for `YUV`.
#[derive(Debug, Clone)]
pub struct Image {
    pub width: u32,
    pub height: u32,
    pub data: Vec<u8>,
}

/// The mathematical content of an [`Image`].
pub struct PictureView {
    pub width: u32,
    pub height: u32,
    pub data: Seq<u8>,
}

impl View for Image {
    type V = PictureView;

    open spec fn view(&self) -> PictureView {
        PictureView { width: self.width, height: self.height, data: self.data@ }
    }
}

/// Cropping parameters as the engine reports them after decoding headers.
#[derive(Debug, Clone, Copy, PartialEq, Eq, Structural)]
pub struct CropParams {
    /// Nonzero when the stream asks for cropping.
    pub flag: u32,
    pub left: u32,
    pub width: u32,
    pub top: u32,
    pub height: u32,
}

/// A frame split into planes.
#[derive(Debug, Clone)]
pub struct Frame {
    pub width: u32,
    pub height: u32,
    pub format: ImageOutput,
    pub planes: Vec<Vec<u8>>,
}

/// The mathematical content of a [`Frame`].
pub struct FrameView {
    pub width: u32,
    pub height: u32,
    pub format: ImageOutput,
    pub planes: Seq<Seq<u8>>,
}

impl View for Frame {
    type V = FrameView;

    open spec fn view(&self) -> FrameView {
        FrameView {
            width: self.width,
            height: self.height,
            format: self.format,
            planes: self.planes@.map_values(|p: Vec<u8>| p@),
        }
    }
}

/// Number of pixels in a `w` by `h` picture.
pub open spec fn pixel_count(w: u32, h: u32) -> nat {
    (w as nat) * (h as nat)
}

/// Length of one chroma plane of a 4:2:0 picture.
pub open spec fn chroma_len(w: u32, h: u32) -> nat {
    pixel_count(w, h) / 4
}

/// Length of a picture's bytes in the given output layout.
pub open spec fn picture_len(format: ImageOutput, w: u32, h: u32) -> nat {
    match format {
        ImageOutput::RGBA => 4 * pixel_count(w, h),
        ImageOutput::YUV => pixel_count(w, h) * 3 / 2,
    }
}

/// Whether a picture's bytes have the length its size asks for in `format`.
pub open spec fn fits(format: ImageOutput, p: PictureView) -> bool {
    p.data.len() == picture_len(format, p.width, p.height)
}

/// Every fourth byte of `s`, starting at offset `c`.
pub open spec fn channel(s: Seq<u8>, c: int) -> Seq<u8> {
    Seq::new(s.len() / 4, |i: int| s[4 * i + c])
}

/// The four planes of an interleaved R, G, B, A buffer.
pub open spec fn rgba_planes(s: Seq<u8>) -> Seq<Seq<u8>> {
    seq![channel(s, 0), channel(s, 1), channel(s, 2), channel(s, 3)]
}

/// The three contiguous planes of a planar 4:2:0 buffer of a `w` by `h` picture.
pub open spec fn yuv420_planes(s: Seq<u8>, w: u32, h: u32) -> Seq<Seq<u8>> {
    let n = pixel_count(w, h) as int;
    let q = chroma_len(w, h) as int;
    seq![s.subrange(0, n), s.subrange(n, n + q), s.subrange(n + q, n + 2 * q)]
}

/// The planes a picture is handed out as in `format`.
pub open spec fn planes_of(format: ImageOutput, p: PictureView) -> Seq<Seq<u8>> {
    match format {
        ImageOutput::RGBA => rgba_planes(p.data),
        ImageOutput::YUV => yuv420_planes(p.data, p.width, p.height),
    }
}

/// The frame a picture is handed out as in `format`.
pub open spec fn frame_of(format: ImageOutput, p: PictureView) -> FrameView {
    FrameView { width: p.width, height: p.height, format, planes: planes_of(format, p) }
}

/// Picture size after headers: the cropped size when cropping is asked for,
/// else the full size of the macroblock grid.
pub open spec fn cropped_size(crop: CropParams, mb_width: u32, mb_height: u32) -> (int, int) {
    if crop.flag == 0 {
        (mb_width * 16, mb_height * 16)
    } else {
        (crop.width as int, crop.height as int)
    }
}

/// Whether the full macroblock grid's size in pixels fits a `u32`.
pub open spec fn grid_fits(mb_width: u32, mb_height: u32) -> bool {
    mb_width * 16 <= u32::MAX && mb_height * 16 <= u32::MAX
}

/// Computes the picture size from the engine's cropping parameters and its
/// picture size in macroblocks.
pub fn crop_size(crop: CropParams, mb_width: u32, mb_height: u32) -> (r: (u32, u32))
    requires
        crop.flag == 0 ==> grid_fits(mb_width, mb_height),
    ensures
        r.0 == cropped_size(crop, mb_width, mb_height).0,
        r.1 == cropped_size(crop, mb_width, mb_height).1,
{
    if crop.flag == 0 {
        (mb_width * 16, mb_height * 16)
    } else {
        (crop.width, crop.height)
    }
}

/// Copies `data[start..end]` into a new vector.
fn copy_range(data: &Vec<u8>, start: usize, end: usize) -> (r: Vec<u8>)
    requires
        start <= end <= data@.len(),
    ensures
        r@ == data@.subrange(start as int, end as int),
{
    let mut r: Vec<u8> = Vec::with_capacity(end - start);
    let mut i: usize = start;
    while i < end
        invariant
            start <= i <= end <= data@.len(),
            r@ == data@.subrange(start as int, i as int),
        decreases end - i,
    {
        r.push(data[i]);
        i += 1;
    }
    r
}

/// Takes every fourth byte of `data`, starting at offset `c`.
fn take_channel(data: &Vec<u8>, c: usize) -> (r: Vec<u8>)
    requires
        c < 4,
        data@.len() % 4 == 0,
    ensures
        r@ == channel(data@, c as int),
{
    let len: usize = data.len();
    let n: usize = len / 4;
    let mut r: Vec<u8> = Vec::with_capacity(n);
    let mut i: usize = 0;
    while i < n
        invariant
            c < 4,
            len == data@.len(),
            n == data@.len() / 4,
            data@.len() % 4 == 0,
            i <= n,
            r@ == channel(data@, c as int).subrange(0, i as int),
        decreases n - i,
    {
        assert(4 * (i as int) + (c as int) < data@.len()) by (nonlinear_arith)
            requires
                (i as int) < (n as int),
                (c as int) < 4,
                (n as int) == data@.len() / 4,
                data@.len() % 4 == 0,
        ;
        r.push(data[4 * i + c]);
        i += 1;
    }
    assert(r@ == channel(data@, c as int));
    r
}

/// Splits an interleaved R, G, B, A buffer into its four planes.
pub fn deinterleave_rgba(data: &Vec<u8>) -> (planes: Vec<Vec<u8>>)
    requires
        data@.len() % 4 == 0,
    ensures
        planes@.map_values(|p: Vec<u8>| p@) == rgba_planes(data@),
{
    let mut planes: Vec<Vec<u8>> = Vec::with_capacity(4);
    planes.push(take_channel(data, 0));
    planes.push(take_channel(data, 1));
    planes.push(take_channel(data, 2));
    planes.push(take_channel(data, 3));
    assert(planes@.map_values(|p: Vec<u8>| p@) =~= rgba_planes(data@));
    planes
}

proof fn lemma_u32_product_bounds(w: u32, h: u32)
    ensures
        pixel_count(w, h) <= u32::MAX * u32::MAX,
        pixel_count(w, h) >= 0,
{
    assert((w as nat) * (h as nat) <= u32::MAX * u32::MAX) by (nonlinear_arith);
}

/// Splits a planar 4:2:0 buffer of a `width` by `height` picture into its luma
/// plane and its two chroma planes.
pub fn split_yuv420(data: &Vec<u8>, width: u32, height: u32) -> (planes: Vec<Vec<u8>>)
    requires
        data@.len() == picture_len(ImageOutput::YUV, width, height),
    ensures
        planes@.map_values(|p: Vec<u8>| p@) == yuv420_planes(data@, width, height),
{
    proof {
        let w = width as nat;
        let h = height as nat;
        assert(w * h >= 0) by (nonlinear_arith);
        assert((w * h) + 2 * ((w * h) / 4) <= (w * h) * 3 / 2);
        assert(width as int * height as int <= data@.len());
    }
    let len: usize = data.len();
    let n: usize = (width as usize) * (height as usize);
    let q: usize = n / 4;
    let mut planes: Vec<Vec<u8>> = Vec::with_capacity(3);
    planes.push(copy_range(data, 0, n));
    planes.push(copy_range(data, n, n + q));
    planes.push(copy_range(data, n + q, n + 2 * q));
    assert(planes@.map_values(|p: Vec<u8>| p@) =~= yuv420_planes(data@, width, height));
    planes
}

} // verus!
