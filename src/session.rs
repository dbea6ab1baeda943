use vstd::prelude::*;

use crate::picture::{
    crop_size, cropped_size, deinterleave_rgba, fits, frame_of, grid_fits, picture_len,
    split_yuv420, CropParams, Frame, FrameView, Image, ImageOutput, PictureView,
};
use crate::status::{status_error, status_of, DecodeError, H264bsdStatus};

verus! {

/// What the caller must ask the engine for after a decode call went well.
#[derive(Debug, Clone, Copy, PartialEq, Eq, Structural)]
pub enum FollowUp {
    /// Nothing: go on feeding the remaining bytes.
    Nothing,
    /// Headers were decoded: read the cropping parameters and the picture size
    /// in macroblocks, and hand them to [`Decoder::apply_crop`].
    ReadCrop,
    /// A picture is ready: fetch it and hand its bytes to [`Decoder::store_picture`].
    FetchPicture,
}

/// The follow-up that a non-failing status asks for.
pub open spec fn follow_up_of(s: H264bsdStatus) -> FollowUp {
    match s {
        H264bsdStatus::HdrsRdy => FollowUp::ReadCrop,
        H264bsdStatus::PicRdy => FollowUp::FetchPicture,
        _ => FollowUp::Nothing,
    }
}

/// The progress of one submitted byte buffer through the engine.
pub struct FeedView {
    /// Length of the submitted buffer.
    pub len: nat,
    /// How many of its bytes the engine has consumed.
    pub cursor: nat,
    /// The last picture extracted during this submission.
    pub picture: Option<PictureView>,
    /// The layout of the session the submission belongs to.
    pub format: ImageOutput,
}

impl FeedView {
    pub open spec fn wf(self) -> bool {
        &&& self.cursor <= self.len
        &&& self.picture matches Some(p) ==> fits(self.format, p)
    }

    /// Whether bytes are left for the engine.
    pub open spec fn has_remaining(self) -> bool {
        self.cursor < self.len
    }
}

/// A submission that has just started on a buffer of `len` bytes.
pub open spec fn fresh_feed(len: nat, format: ImageOutput) -> FeedView {
    FeedView { len, cursor: 0, picture: None, format }
}

/// What one decode call does to a submission: an unknown or failing status
/// aborts it, any other one advances the cursor by the bytes read.
pub open spec fn after_status(f: FeedView, code: u32, read: u32) -> Result<
    (FeedView, FollowUp),
    DecodeError,
> {
    match status_of(code) {
        None => Err(DecodeError::UnrecognizedStatus),
        Some(s) => match status_error(s) {
            Some(e) => Err(e),
            None => Ok((FeedView { cursor: f.cursor + read as nat, ..f }, follow_up_of(s))),
        },
    }
}

/// The state of a decode session.
pub struct DecoderView {
    /// The most recent successfully decoded picture.
    pub current: Option<PictureView>,
    /// Picture size in pixels, as computed after the last headers.
    pub size: (u32, u32),
    /// Crop origin (left, top) as the engine last reported it.
    pub origin: (u32, u32),
    /// The engine's last cropping flag.
    pub crop_flag: u32,
    /// The layout frames are handed out in.
    pub format: ImageOutput,
}

impl DecoderView {
    pub open spec fn wf(self) -> bool {
        self.current matches Some(p) ==> fits(self.format, p)
    }
}

/// The session after a submission went through to the end: the last picture
/// it extracted, if any, replaces the current one.
pub open spec fn commit(d: DecoderView, f: FeedView) -> DecoderView {
    match f.picture {
        Some(p) => DecoderView { current: Some(p), ..d },
        None => d,
    }
}

/// The session after headers were decoded.
pub open spec fn with_crop(d: DecoderView, crop: CropParams, mb_width: u32, mb_height: u32) -> DecoderView {
    DecoderView {
        size: (
            cropped_size(crop, mb_width, mb_height).0 as u32,
            cropped_size(crop, mb_width, mb_height).1 as u32,
        ),
        origin: (crop.left, crop.top),
        crop_flag: crop.flag,
        ..d
    }
}

/// What handing out a frame gives for a session.
pub open spec fn frame_result(d: DecoderView) -> Result<FrameView, DecodeError> {
    match d.current {
        Some(p) => Ok(frame_of(d.format, p)),
        None => Err(DecodeError::NoPictureAvailable),
    }
}

/// One submitted byte buffer on its way through the engine.
pub struct Feed {
    len: usize,
    cursor: usize,
    picture: Option<Image>,
    format: ImageOutput,
}

impl View for Feed {
    type V = FeedView;

    closed spec fn view(&self) -> FeedView {
        FeedView {
            len: self.len as nat,
            cursor: self.cursor as nat,
            picture: match self.picture {
                Some(img) => Some(img@),
                None => None,
            },
            format: self.format,
        }
    }
}

impl Feed {
    /// The layout of the session the submission belongs to.
    pub fn format(&self) -> (r: ImageOutput)
        ensures
            r == self@.format,
    {
        self.format
    }

    /// Where the bytes still to be handed to the engine start, or `None` once
    /// the whole buffer has been consumed.
    pub fn next_offset(&self) -> (r: Option<usize>)
        requires
            self@.wf(),
        ensures
            self@.has_remaining() <==> r is Some,
            r matches Some(o) ==> o == self@.cursor,
    {
        if self.cursor < self.len {
            Some(self.cursor)
        } else {
            None
        }
    }

    /// Whether the engine has consumed the whole buffer.
    pub fn is_done(&self) -> (r: bool)
        requires
            self@.wf(),
        ensures
            r == (self@.cursor == self@.len),
    {
        self.cursor == self.len
    }

    /// Takes in what one decode call on the remaining bytes reported: its
    /// status `code` and how many bytes it `read`.
    pub fn on_status(&mut self, code: u32, read: u32) -> (r: Result<FollowUp, DecodeError>)
        requires
            old(self)@.wf(),
            old(self)@.has_remaining(),
            read as nat <= old(self)@.len - old(self)@.cursor,
        ensures
            final(self)@.wf(),
            match after_status(old(self)@, code, read) {
                Ok((g, a)) => r == Ok::<FollowUp, DecodeError>(a) && final(self)@ == g,
                Err(e) => r == Err::<FollowUp, DecodeError>(e) && final(self)@ == old(self)@,
            },
    {
        let status = H264bsdStatus::try_from(code)?;
        if let Some(e) = status.error() {
            return Err(e);
        }
        self.cursor = self.cursor + read as usize;
        match status {
            H264bsdStatus::HdrsRdy => Ok(FollowUp::ReadCrop),
            H264bsdStatus::PicRdy => Ok(FollowUp::FetchPicture),
            _ => Ok(FollowUp::Nothing),
        }
    }
}

/// A decode session: the state kept between calls of the engine.
pub struct Decoder {
    current_image: Option<Image>,
    size: (u32, u32),
    pos: (u32, u32),
    crop_flag: u32,
    output_type: ImageOutput,
}

impl View for Decoder {
    type V = DecoderView;

    closed spec fn view(&self) -> DecoderView {
        DecoderView {
            current: match self.current_image {
                Some(img) => Some(img@),
                None => None,
            },
            size: self.size,
            origin: self.pos,
            crop_flag: self.crop_flag,
            format: self.output_type,
        }
    }
}

impl Decoder {
    /// Opens a session once the engine's initialisation returned `init_status`;
    /// any nonzero status means the engine could not be initialised.
    pub fn new(output_type: ImageOutput, init_status: u32) -> (r: Result<Decoder, DecodeError>)
        ensures
            init_status != 0 <==> r is Err,
            r matches Err(e) ==> e == DecodeError::InitializationFailed,
            r matches Ok(d) ==> d@ == (DecoderView {
                current: None,
                size: (0, 0),
                origin: (0, 0),
                crop_flag: 0,
                format: output_type,
            }),
    {
        if init_status > 0 {
            return Err(DecodeError::InitializationFailed);
        }
        Ok(Decoder { current_image: None, size: (0, 0), pos: (0, 0), crop_flag: 0, output_type })
    }

    /// The layout frames are handed out in.
    pub fn output_type(&self) -> (r: ImageOutput)
        ensures
            r == self@.format,
    {
        self.output_type
    }

    /// The picture size computed after the last headers.
    pub fn size(&self) -> (r: (u32, u32))
        ensures
            r == self@.size,
    {
        self.size
    }

    /// The size of the current picture, if there is one.
    pub fn picture_size(&self) -> (r: Option<(u32, u32)>)
        ensures
            match self@.current {
                Some(p) => r == Some((p.width, p.height)),
                None => r is None,
            },
    {
        match &self.current_image {
            Some(img) => Some((img.width, img.height)),
            None => None,
        }
    }

    /// Starts the submission of a buffer of `len` bytes.
    pub fn begin(&self, len: usize) -> (r: Feed)
        ensures
            r@ == fresh_feed(len as nat, self@.format),
            r@.wf(),
    {
        Feed { len, cursor: 0, picture: None, format: self.output_type }
    }

    /// Records the cropping parameters read after headers were decoded, with the
    /// picture size in macroblocks.
    pub fn apply_crop(&mut self, crop: CropParams, mb_width: u32, mb_height: u32)
        requires
            crop.flag == 0 ==> grid_fits(mb_width, mb_height),
        ensures
            final(self)@ == with_crop(old(self)@, crop, mb_width, mb_height),
    {
        self.size = crop_size(crop, mb_width, mb_height);
        self.pos = (crop.left, crop.top);
        self.crop_flag = crop.flag;
    }

    /// How many bytes a picture of the current size takes in the session's
    /// layout, or `None` where that does not fit a `usize`.
    pub fn picture_len(&self) -> (r: Option<usize>)
        ensures
            match r {
                Some(n) => n == picture_len(self@.format, self@.size.0, self@.size.1),
                None => picture_len(self@.format, self@.size.0, self@.size.1) > usize::MAX,
            },
    {
        let w = self.size.0 as u128;
        let h = self.size.1 as u128;
        proof {
            assert(w * h <= 0xffff_ffff * 0xffff_ffff) by (nonlinear_arith)
                requires
                    w <= 0xffff_ffff,
                    h <= 0xffff_ffff,
            ;
        }
        let n: u128 = match self.output_type {
            ImageOutput::RGBA => 4 * (w * h),
            ImageOutput::YUV => (w * h) * 3 / 2,
        };
        if n <= usize::MAX as u128 {
            Some(n as usize)
        } else {
            None
        }
    }

    /// Keeps the bytes of a picture that the engine made ready during `feed`,
    /// at the current picture size.
    pub fn store_picture(&self, feed: &mut Feed, data: Vec<u8>)
        requires
            old(feed)@.wf(),
            old(feed)@.format == self@.format,
            data@.len() == picture_len(self@.format, self@.size.0, self@.size.1),
        ensures
            final(feed)@.wf(),
            final(feed)@ == (FeedView {
                picture: Some(PictureView { width: self@.size.0, height: self@.size.1, data: data@ }),
                ..old(feed)@
            }),
    {
        feed.picture = Some(Image { width: self.size.0, height: self.size.1, data });
    }

    /// Ends a submission whose buffer the engine consumed to the end.
    pub fn finish(&mut self, feed: Feed)
        requires
            old(self)@.wf(),
            feed@.wf(),
            feed@.format == old(self)@.format,
            feed@.cursor == feed@.len,
        ensures
            final(self)@ == commit(old(self)@, feed@),
            final(self)@.wf(),
    {
        if let Some(img) = feed.picture {
            self.current_image = Some(img);
        }
    }

    /// Hands out the current picture as a frame in the session's layout. The
    /// session is left as it is, so asking again gives the same frame.
    pub fn receive_frame(&self) -> (r: Result<Frame, DecodeError>)
        requires
            self@.wf(),
        ensures
            match frame_result(self@) {
                Ok(f) => r matches Ok(g) && g@ == f,
                Err(e) => r == Err::<Frame, DecodeError>(e),
            },
    {
        match &self.current_image {
            None => Err(DecodeError::NoPictureAvailable),
            Some(img) => {
                let planes = match self.output_type {
                    ImageOutput::RGBA => deinterleave_rgba(&img.data),
                    ImageOutput::YUV => split_yuv420(&img.data, img.width, img.height),
                };
                Ok(Frame { width: img.width, height: img.height, format: self.output_type, planes })
            },
        }
    }
}

} // verus!
