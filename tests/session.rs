use h264bsd::{
    crop_size, deinterleave_rgba, split_yuv420, CropParams, DecodeError, Decoder, FollowUp,
    H264bsdStatus, ImageOutput,
};

const RDY: u32 = 0;
const PIC_RDY: u32 = 1;
const HDRS_RDY: u32 = 2;
const ERROR: u32 = 3;
const PARAM_SET_ERROR: u32 = 4;
const MEMALLOC_ERROR: u32 = 5;

fn crop(flag: u32, width: u32, height: u32) -> CropParams {
    CropParams { flag, left: 0, width, top: 0, height }
}

/// Runs one submission of `len` bytes whose decode calls report `replies`;
/// headers yield `crop_params` on a grid of `mb` macroblocks, and pictures are
/// filled with `fill`.
fn submit(
    dec: &mut Decoder,
    len: usize,
    replies: &[(u32, u32)],
    crop_params: CropParams,
    mb: (u32, u32),
    fill: u8,
) -> Result<(), DecodeError> {
    let mut feed = dec.begin(len);
    let mut replies = replies.iter();
    while let Some(_) = feed.next_offset() {
        let &(code, read) = replies.next().expect("engine asked once too often");
        match feed.on_status(code, read)? {
            FollowUp::Nothing => {}
            FollowUp::ReadCrop => dec.apply_crop(crop_params, mb.0, mb.1),
            FollowUp::FetchPicture => {
                let n = dec.picture_len().unwrap();
                dec.store_picture(&mut feed, vec![fill; n]);
            }
        }
    }
    assert!(feed.is_done());
    dec.finish(feed);
    Ok(())
}

#[test]
fn status_codes_are_classified() {
    assert_eq!(H264bsdStatus::try_from(RDY), Ok(H264bsdStatus::Rdy));
    assert_eq!(H264bsdStatus::try_from(PIC_RDY), Ok(H264bsdStatus::PicRdy));
    assert_eq!(H264bsdStatus::try_from(HDRS_RDY), Ok(H264bsdStatus::HdrsRdy));
    assert_eq!(H264bsdStatus::try_from(ERROR), Ok(H264bsdStatus::Error));
    assert_eq!(H264bsdStatus::try_from(PARAM_SET_ERROR), Ok(H264bsdStatus::ParamSetError));
    assert_eq!(H264bsdStatus::try_from(MEMALLOC_ERROR), Ok(H264bsdStatus::MemAllocError));
    assert_eq!(H264bsdStatus::try_from(6), Err(DecodeError::UnrecognizedStatus));
    assert_eq!(H264bsdStatus::try_from(u32::MAX), Err(DecodeError::UnrecognizedStatus));
}

#[test]
fn failing_statuses_map_to_errors() {
    assert_eq!(H264bsdStatus::Error.error(), Some(DecodeError::EngineError));
    assert_eq!(H264bsdStatus::ParamSetError.error(), Some(DecodeError::ParameterSetError));
    assert_eq!(H264bsdStatus::MemAllocError.error(), Some(DecodeError::MemoryAllocationError));
    assert_eq!(H264bsdStatus::Rdy.error(), None);
    assert_eq!(H264bsdStatus::PicRdy.error(), None);
    assert_eq!(H264bsdStatus::HdrsRdy.error(), None);
}

#[test]
fn init_status_decides_construction() {
    let d = Decoder::new(ImageOutput::RGBA, 0).unwrap();
    assert_eq!(d.output_type(), ImageOutput::RGBA);
    assert_eq!(d.size(), (0, 0));
    assert_eq!(d.picture_size(), None);
    assert!(matches!(Decoder::new(ImageOutput::YUV, 1), Err(DecodeError::InitializationFailed)));
}

#[test]
fn no_frame_before_any_decode() {
    let d = Decoder::new(ImageOutput::YUV, 0).unwrap();
    assert!(matches!(d.receive_frame(), Err(DecodeError::NoPictureAvailable)));
}

#[test]
fn empty_submission_changes_nothing() {
    let mut d = Decoder::new(ImageOutput::YUV, 0).unwrap();
    submit(&mut d, 0, &[], crop(0, 0, 0), (0, 0), 0).unwrap();
    assert_eq!(d.picture_size(), None);
    assert!(matches!(d.receive_frame(), Err(DecodeError::NoPictureAvailable)));

    submit(&mut d, 4, &[(HDRS_RDY, 2), (PIC_RDY, 2)], crop(1, 2, 2), (1, 1), 9).unwrap();
    let before = d.receive_frame().unwrap();
    submit(&mut d, 0, &[], crop(0, 0, 0), (0, 0), 0).unwrap();
    assert_eq!(d.receive_frame().unwrap().planes, before.planes);
}

#[test]
fn cursor_reaches_input_length() {
    let session = Decoder::new(ImageOutput::YUV, 0).unwrap();
    let mut feed = session.begin(10);
    assert_eq!(feed.next_offset(), Some(0));
    assert_eq!(feed.on_status(RDY, 3), Ok(FollowUp::Nothing));
    assert_eq!(feed.next_offset(), Some(3));
    assert_eq!(feed.on_status(RDY, 0), Ok(FollowUp::Nothing));
    assert_eq!(feed.next_offset(), Some(3));
    assert_eq!(feed.on_status(HDRS_RDY, 4), Ok(FollowUp::ReadCrop));
    assert!(!feed.is_done());
    assert_eq!(feed.on_status(PIC_RDY, 3), Ok(FollowUp::FetchPicture));
    assert_eq!(feed.next_offset(), None);
    assert!(feed.is_done());
}

#[test]
fn engine_errors_abort_and_keep_picture() {
    let mut d = Decoder::new(ImageOutput::YUV, 0).unwrap();
    submit(&mut d, 4, &[(HDRS_RDY, 2), (PIC_RDY, 2)], crop(1, 2, 2), (1, 1), 7).unwrap();
    let before = d.receive_frame().unwrap();

    let cases = [
        (ERROR, DecodeError::EngineError),
        (PARAM_SET_ERROR, DecodeError::ParameterSetError),
        (MEMALLOC_ERROR, DecodeError::MemoryAllocationError),
        (42, DecodeError::UnrecognizedStatus),
    ];
    for (code, err) in cases {
        let r = submit(&mut d, 6, &[(PIC_RDY, 2), (code, 0)], crop(1, 2, 2), (1, 1), 3);
        assert_eq!(r, Err(err));
        let after = d.receive_frame().unwrap();
        assert_eq!(after.planes, before.planes);
        assert_eq!((after.width, after.height), (before.width, before.height));
    }
}

#[test]
fn error_status_leaves_cursor() {
    let session = Decoder::new(ImageOutput::YUV, 0).unwrap();
    let mut feed = session.begin(8);
    assert_eq!(feed.on_status(RDY, 2), Ok(FollowUp::Nothing));
    assert_eq!(feed.on_status(ERROR, 5), Err(DecodeError::EngineError));
    assert_eq!(feed.next_offset(), Some(2));
}

#[test]
fn frame_is_repeatable() {
    let mut d = Decoder::new(ImageOutput::RGBA, 0).unwrap();
    submit(&mut d, 3, &[(HDRS_RDY, 1), (PIC_RDY, 2)], crop(1, 3, 1), (1, 1), 5).unwrap();
    let a = d.receive_frame().unwrap();
    let b = d.receive_frame().unwrap();
    assert_eq!(a.planes, b.planes);
    assert_eq!((a.width, a.height, a.format), (b.width, b.height, b.format));
    assert_eq!(a.planes, vec![vec![5u8; 3]; 4]);
}

#[test]
fn last_picture_of_a_submission_wins() {
    let mut d = Decoder::new(ImageOutput::YUV, 0).unwrap();
    let mut feed = d.begin(6);
    assert_eq!(feed.format(), ImageOutput::YUV);
    assert_eq!(feed.on_status(HDRS_RDY, 2), Ok(FollowUp::ReadCrop));
    d.apply_crop(crop(1, 2, 2), 1, 1);
    assert_eq!(feed.on_status(PIC_RDY, 2), Ok(FollowUp::FetchPicture));
    d.store_picture(&mut feed, vec![1, 1, 1, 1, 1, 1]);
    assert_eq!(feed.on_status(PIC_RDY, 2), Ok(FollowUp::FetchPicture));
    d.store_picture(&mut feed, vec![2, 2, 2, 2, 3, 4]);
    d.finish(feed);
    let f = d.receive_frame().unwrap();
    assert_eq!(f.planes, vec![vec![2, 2, 2, 2], vec![3], vec![4]]);
}

#[test]
fn rgba_planes_are_deinterleaved() {
    let data: Vec<u8> = vec![10, 20, 30, 40, 11, 21, 31, 41, 12, 22, 32, 42];
    let planes = deinterleave_rgba(&data);
    assert_eq!(
        planes,
        vec![vec![10, 11, 12], vec![20, 21, 22], vec![30, 31, 32], vec![40, 41, 42]]
    );
    assert_eq!(deinterleave_rgba(&vec![]), vec![Vec::<u8>::new(); 4]);
}

#[test]
fn yuv420_planes_are_split() {
    // 4 by 2: eight luma bytes, then two bytes of each chroma plane.
    let mut data = vec![1u8; 8];
    data.extend([2u8, 2]);
    data.extend([3u8, 3]);
    let planes = split_yuv420(&data, 4, 2);
    assert_eq!(planes, vec![vec![1u8; 8], vec![2u8; 2], vec![3u8; 2]]);

    let mut data: Vec<u8> = (0..16).collect();
    data.extend([100u8, 101, 102, 103, 200, 201, 202, 203]);
    let planes = split_yuv420(&data, 4, 4);
    assert_eq!(planes[0], (0..16).collect::<Vec<u8>>());
    assert_eq!(planes[1], vec![100, 101, 102, 103]);
    assert_eq!(planes[2], vec![200, 201, 202, 203]);
}

#[test]
fn crop_size_follows_flag() {
    assert_eq!(crop_size(crop(0, 1000, 1000), 80, 45), (1280, 720));
    assert_eq!(crop_size(crop(1, 1920, 1080), 120, 68), (1920, 1080));
    assert_eq!(crop_size(crop(7, 33, 17), 3, 2), (33, 17));
    assert_eq!(crop_size(crop(0, 0, 0), 0, 0), (0, 0));
}

#[test]
fn apply_crop_sets_size() {
    let mut d = Decoder::new(ImageOutput::YUV, 0).unwrap();
    d.apply_crop(CropParams { flag: 0, left: 3, width: 9, top: 4, height: 9 }, 2, 3);
    assert_eq!(d.size(), (32, 48));
    d.apply_crop(CropParams { flag: 1, left: 0, width: 30, top: 0, height: 46 }, 2, 3);
    assert_eq!(d.size(), (30, 46));
}

#[test]
fn picture_len_follows_layout() {
    let mut rgba = Decoder::new(ImageOutput::RGBA, 0).unwrap();
    let mut yuv = Decoder::new(ImageOutput::YUV, 0).unwrap();
    rgba.apply_crop(crop(0, 0, 0), 2, 1);
    yuv.apply_crop(crop(0, 0, 0), 2, 1);
    assert_eq!(rgba.picture_len(), Some(32 * 16 * 4));
    assert_eq!(yuv.picture_len(), Some(32 * 16 * 3 / 2));
}

#[test]
fn headers_then_picture_over_two_calls() {
    let mut d = Decoder::new(ImageOutput::YUV, 0).unwrap();
    submit(&mut d, 10, &[(HDRS_RDY, 6), (RDY, 4)], crop(1, 4, 2), (1, 1), 0).unwrap();
    assert_eq!(d.picture_size(), None);
    assert!(matches!(d.receive_frame(), Err(DecodeError::NoPictureAvailable)));

    submit(&mut d, 5, &[(PIC_RDY, 5)], crop(0, 0, 0), (9, 9), 8).unwrap();
    assert_eq!(d.picture_size(), Some((4, 2)));
    let f = d.receive_frame().unwrap();
    assert_eq!((f.width, f.height, f.format), (4, 2, ImageOutput::YUV));
    assert_eq!(f.planes, vec![vec![8u8; 8], vec![8u8; 2], vec![8u8; 2]]);
}
