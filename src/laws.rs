//! What holds of whole submissions and of the session across calls.
use vstd::prelude::*;

use crate::picture::{CropParams, FrameView, PictureView};
use crate::session::{
    after_status, commit, frame_result, fresh_feed, with_crop, DecoderView, FeedView,
};
use crate::status::DecodeError;

verus! {

/// One thing the engine tells the session during a submission.
pub enum Event {
    /// A decode call on the remaining bytes returned `code` after reading `read` bytes.
    Status { code: u32, read: u32 },
    /// Cropping parameters and macroblock counts read after headers.
    Crop { crop: CropParams, mb_width: u32, mb_height: u32 },
    /// The bytes of a picture fetched after it was made ready.
    Picture { data: Seq<u8> },
}

/// What the session and the submission become on one event.
pub open spec fn step(d: DecoderView, f: FeedView, e: Event) -> (DecoderView, Result<FeedView, DecodeError>) {
    match e {
        Event::Status { code, read } => (
            d,
            match after_status(f, code, read) {
                Ok((g, _)) => Ok(g),
                Err(x) => Err(x),
            },
        ),
        Event::Crop { crop, mb_width, mb_height } => (with_crop(d, crop, mb_width, mb_height), Ok(f)),
        Event::Picture { data } => (
            d,
            Ok(FeedView {
                picture: Some(PictureView { width: d.size.0, height: d.size.1, data }),
                ..f
            }),
        ),
    }
}

/// Runs a submission through a sequence of events; it stops at the first failure.
pub open spec fn run(d: DecoderView, f: FeedView, events: Seq<Event>) -> (DecoderView, Result<FeedView, DecodeError>)
    decreases events.len(),
{
    if events.len() == 0 {
        (d, Ok(f))
    } else {
        let (d2, r) = step(d, f, events[0]);
        match r {
            Ok(g) => run(d2, g, events.drop_first()),
            Err(x) => (d2, Err(x)),
        }
    }
}

/// A whole submission of `len` bytes: the session afterwards, and whether it
/// went through.
pub open spec fn submit(d: DecoderView, len: nat, events: Seq<Event>) -> (DecoderView, Result<(), DecodeError>) {
    let (d2, r) = run(d, fresh_feed(len, d.format), events);
    match r {
        Ok(g) => (commit(d2, g), Ok(())),
        Err(x) => (d2, Err(x)),
    }
}

/// The bytes the engine reports having read over a sequence of events.
pub open spec fn reads(events: Seq<Event>) -> nat
    decreases events.len(),
{
    if events.len() == 0 {
        0
    } else {
        let here: nat = match events[0] {
            Event::Status { read, .. } => read as nat,
            _ => 0,
        };
        here + reads(events.drop_first())
    }
}

proof fn lemma_run_tracks_reads(d: DecoderView, f: FeedView, events: Seq<Event>)
    ensures
        run(d, f, events).1 matches Ok(g) ==> g.cursor == f.cursor + reads(events) && g.len == f.len,
        run(d, f, events).0.current == d.current,
        run(d, f, events).0.format == d.format,
    decreases events.len(),
{
    if events.len() > 0 {
        let (d2, r) = step(d, f, events[0]);
        if let Ok(g) = r {
            lemma_run_tracks_reads(d2, g, events.drop_first());
        }
    }
}

/// A submission that goes through without an engine error, and after which no
/// bytes remain, has had its whole buffer consumed: the bytes the engine read
/// add up to the buffer's length.
pub proof fn law_success_consumes_input(d: DecoderView, len: nat, events: Seq<Event>)
    requires
        len > 0,
        reads(events) <= len,
    ensures
        run(d, fresh_feed(len, d.format), events).1 matches Ok(g) ==> {
            &&& g.cursor == reads(events)
            &&& !g.has_remaining() ==> reads(events) == len
        },
{
    lemma_run_tracks_reads(d, fresh_feed(len, d.format), events);
}

/// Submitting an empty buffer asks nothing of the engine, always goes through,
/// and leaves the session as it was.
pub proof fn law_empty_submission(d: DecoderView)
    ensures
        !fresh_feed(0, d.format).has_remaining(),
        submit(d, 0, Seq::empty()) == (d, Ok::<(), DecodeError>(())),
{
    assert(commit(d, fresh_feed(0, d.format)) == d);
}

/// A submission that fails leaves the current picture as it was before.
pub proof fn law_failure_keeps_picture(d: DecoderView, len: nat, events: Seq<Event>)
    ensures
        submit(d, len, events).1 is Err ==> submit(d, len, events).0.current == d.current,
{
    lemma_run_tracks_reads(d, fresh_feed(len, d.format), events);
}

/// Before any picture was decoded there is no frame to hand out; once a
/// submission has extracted a picture, handing out a frame succeeds.
pub proof fn law_frame_availability(d: DecoderView, len: nat, events: Seq<Event>)
    ensures
        d.current is None ==> frame_result(d) == Err::<FrameView, DecodeError>(
            DecodeError::NoPictureAvailable,
        ),
        run(d, fresh_feed(len, d.format), events).1 matches Ok(g) ==> (g.picture is Some ==> frame_result(
            submit(d, len, events).0,
        ) is Ok),
{
}

} // verus!
