//! Decode-session orchestration for the h264bsd bitstream engine.
//!
//! The engine itself is driven from outside this crate: the session here is a
//! state machine that is told what the engine answered and says what to do next.
//! It classifies the engine's status codes, tracks how much of a submitted buffer
//! has been consumed, computes the (cropped) picture size, keeps the most recent
//! picture, and splits that picture into output planes.

mod laws;
mod picture;
mod session;
mod status;

pub use laws::{
    law_empty_submission, law_failure_keeps_picture, law_frame_availability,
    law_success_consumes_input, reads, run, step, submit, Event,
};
pub use picture::{
    crop_size, deinterleave_rgba, split_yuv420, CropParams, Frame, FrameView, Image, ImageOutput,
    PictureView,
};
pub use session::{Decoder, DecoderView, Feed, FeedView, FollowUp};
pub use status::{DecodeError, H264bsdStatus};
