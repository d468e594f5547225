use streamer::context::Context;
use streamer::encode::{after_compress, after_rotate, plan_encode, CodecStep};
use streamer::frame::FrameCaptureData;
use streamer::intake::Intake;
use streamer::payload::{frame_payload, EncodeError};
use streamer::quality::QualityController;
use streamer::resize::{FrameResizer, ResizeError};
use streamer::route::{needs_rotation, route, target_size, Route};
use streamer::slot::SingleSlot;
use streamer::stats::{Report, TransferStats};

fn black_frame(width: usize, height: usize, fps: Option<usize>) -> FrameCaptureData {
    FrameCaptureData { data: vec![0; width * height * 4], width, height, fps }
}

fn header(data: &[u8]) -> u32 {
    u32::from_le_bytes([data[0], data[1], data[2], data[3]])
}

#[test]
fn framing_writes_length_then_payload() {
    let p = frame_payload(&[1, 2, 3], 60, Some(30)).unwrap();
    assert_eq!(p.data(), &[7, 0, 0, 0, 1, 2, 3]);
    assert_eq!(p.data_size(), 7);
    assert_eq!(p.quality(), 60);
    assert_eq!(p.fps(), Some(30));
}

#[test]
fn framing_round_trip_on_larger_payload() {
    let codec: Vec<u8> = (0..1000u32).map(|i| (i % 251) as u8).collect();
    let p = frame_payload(&codec, 40, None).unwrap();
    assert_eq!(header(p.data()) as usize, codec.len() + 4);
    assert_eq!(&p.data()[4..], &codec[..]);
}

#[test]
fn framing_empty_payload_is_rejected() {
    assert!(matches!(frame_payload(&[], 40, None), Err(EncodeError::EmptyCodecOutput)));
}

#[test]
fn framing_off_ladder_quality_is_rejected() {
    assert!(matches!(frame_payload(&[1], 50, None), Err(EncodeError::InvalidQuality)));
    assert!(matches!(frame_payload(&[1], 95, None), Err(EncodeError::InvalidQuality)));
}

#[test]
fn framing_at_the_bound() {
    let codec = vec![0xAB; 512 * 1024 - 4];
    let p = frame_payload(&codec, 80, None).unwrap();
    assert_eq!(p.data_size(), 524288);
    assert_eq!(&p.data()[..4], &[0, 0, 8, 0]);
}

#[test]
fn framing_over_the_bound_is_rejected() {
    let codec = vec![0; 512 * 1024 - 3];
    assert!(matches!(frame_payload(&codec, 80, None), Err(EncodeError::PayloadTooLarge)));
}

#[test]
fn canonical_sizes_bypass_the_resizer() {
    assert_eq!(route(1280, 720), Route::Encode);
    assert_eq!(route(720, 1280), Route::Encode);
    assert_eq!(route(1920, 1080), Route::Resize);
    assert_eq!(route(1280, 1280), Route::Resize);
    assert_eq!(route(0, 0), Route::Resize);
}

#[test]
fn target_size_follows_orientation() {
    assert_eq!(target_size(1920, 1080), (1280, 720));
    assert_eq!(target_size(1080, 1920), (720, 1280));
    assert_eq!(target_size(500, 500), (720, 1280));
    assert!(needs_rotation(1280, 720));
    assert!(!needs_rotation(720, 1280));
}

#[test]
fn resize_landscape_to_canonical() {
    let mut resizer = FrameResizer::new();
    let src = FrameCaptureData { data: [1u8, 2, 3, 4].repeat(8), width: 4, height: 2, fps: Some(59) };
    let out = resizer.resize(src).unwrap();
    assert_eq!((out.width, out.height), (1280, 720));
    assert_eq!(out.data.len(), 1280 * 720 * 4);
    assert_eq!(out.fps, Some(59));
    assert!(out.data.chunks(4).all(|p| p == [1, 2, 3, 4]));
}

#[test]
fn resize_portrait_to_canonical() {
    let mut resizer = FrameResizer::new();
    let mut data = vec![0u8; 2 * 4 * 4];
    for px in data.chunks_mut(4).take(4) {
        px.copy_from_slice(&[9, 9, 9, 255]);
    }
    let src = FrameCaptureData { data, width: 2, height: 4, fps: None };
    let out = resizer.resize(src).unwrap();
    assert_eq!((out.width, out.height), (720, 1280));
    assert_eq!(&out.data[..4], &[9, 9, 9, 255]);
    let last = out.data.len() - 4;
    assert_eq!(&out.data[last..], &[0, 0, 0, 0]);
}

#[test]
fn resize_square_goes_portrait() {
    let mut resizer = FrameResizer::new();
    let src = FrameCaptureData { data: vec![7; 3 * 3 * 4], width: 3, height: 3, fps: None };
    let out = resizer.resize(src).unwrap();
    assert_eq!((out.width, out.height), (720, 1280));
    assert!(out.data.iter().all(|b| *b == 7));
}

#[test]
fn resize_rejects_short_buffer() {
    let mut resizer = FrameResizer::new();
    let src = FrameCaptureData { data: vec![0; 10], width: 4, height: 2, fps: None };
    assert_eq!(resizer.resize(src).err(), Some(ResizeError::InvalidBitmap));
}

#[test]
fn quality_ladder_starts_lowest() {
    let c = QualityController::new();
    assert_eq!(c.index(), 0);
    assert_eq!(c.len(), 4);
    assert_eq!(c.quality(), 40);
}

#[test]
fn quality_floor_clamp_at_lowest() {
    let mut c = QualityController::new();
    for _ in 0..3 {
        c.record_frame(8_000_000, 1_000_000_000);
        assert_eq!(c.index(), 0);
    }
    assert_eq!(c.quality(), 40);
}

#[test]
fn quality_ceiling_clamp_at_highest() {
    let mut c = QualityController::new();
    for _ in 0..3 {
        c.record_frame(2_000_000, 1_000_000_000);
    }
    assert_eq!(c.index(), 3);
    for _ in 0..3 {
        c.record_frame(2_000_000, 1_000_000_000);
        assert_eq!(c.index(), 3);
    }
    assert_eq!(c.quality(), 80);
}

#[test]
fn quality_steps_once_per_frame() {
    let mut c = QualityController::new();
    c.record_frame(100, 1_000_000_000);
    assert_eq!(c.index(), 1);
    c.record_frame(100, 1_000_000_000);
    assert_eq!(c.index(), 2);
    c.record_frame(100_000, 10_000_000);
    assert_eq!(c.index(), 1);
    c.record_frame(50_000, 10_000_000);
    assert_eq!(c.index(), 1);
    c.record_frame(70_000, 10_000_000);
    assert_eq!(c.index(), 1);
    c.record_frame(40_000, 10_000_000);
    assert_eq!(c.index(), 1);
    c.record_frame(1, 0);
    assert_eq!(c.index(), 0);
}

#[test]
fn landscape_black_frame_is_rotated_and_framed() {
    let frame = black_frame(1280, 720, None);
    let job = plan_encode(&frame, 40).unwrap();
    assert!(job.rotate);
    assert_eq!((job.width, job.height, job.quality), (1280, 720, 40));
    let compressed = vec![0xFF, 0xD8, 0xFF, 0xD9];
    let rotated = match after_compress(&job, compressed.clone()) {
        Ok(CodecStep::Rotate(bytes)) => bytes,
        _ => panic!("a landscape frame must be rotated"),
    };
    assert_eq!(rotated, compressed);
    let p = after_rotate(&job, rotated).unwrap();
    assert!(header(p.data()) >= 5);
    assert_eq!(header(p.data()) as usize, p.data_size());
}

#[test]
fn portrait_frame_is_not_rotated() {
    let frame = black_frame(720, 1280, Some(12));
    let job = plan_encode(&frame, 70).unwrap();
    assert!(!job.rotate);
    match after_compress(&job, vec![0xFF, 0xD8, 0x00, 0xFF, 0xD9]) {
        Ok(CodecStep::Deliver(p)) => {
            assert_eq!(p.data(), &[9, 0, 0, 0, 0xFF, 0xD8, 0x00, 0xFF, 0xD9]);
            assert_eq!(p.quality(), 70);
            assert_eq!(p.fps(), Some(12));
        }
        _ => panic!("a portrait frame goes straight to framing"),
    }
}

#[test]
fn oversized_codec_output_is_rejected() {
    let job = plan_encode(&black_frame(720, 1280, None), 80).unwrap();
    assert!(matches!(after_compress(&job, vec![0; 600_000]), Err(EncodeError::PayloadTooLarge)));
    let job = plan_encode(&black_frame(1280, 720, None), 80).unwrap();
    assert!(matches!(after_compress(&job, vec![0; 600_000]), Err(EncodeError::PayloadTooLarge)));
    assert!(matches!(after_compress(&job, vec![]), Err(EncodeError::EmptyCodecOutput)));
    assert!(matches!(after_rotate(&job, vec![0; 600_000]), Err(EncodeError::PayloadTooLarge)));
}

#[test]
fn encoder_rejects_invalid_bitmaps() {
    assert_eq!(plan_encode(&black_frame(1920, 1080, None), 40).err(), Some(EncodeError::InvalidBitmap));
    let short = FrameCaptureData { data: vec![0; 16], width: 1280, height: 720, fps: None };
    assert_eq!(plan_encode(&short, 40).err(), Some(EncodeError::InvalidBitmap));
    assert_eq!(plan_encode(&black_frame(1280, 720, None), 55).err(), Some(EncodeError::InvalidQuality));
}

#[test]
fn slot_drops_when_full() {
    let mut slot = SingleSlot::new();
    assert!(!slot.is_occupied());
    assert!(slot.offer(1));
    assert!(!slot.offer(2));
    assert!(!slot.offer(3));
    assert_eq!(slot.take(), Some(1));
    assert_eq!(slot.take(), None);
    assert!(slot.offer(4));
    assert_eq!(slot.take(), Some(4));
}

#[test]
fn slot_never_buffers_more_than_one() {
    let mut slot = SingleSlot::new();
    let mut admitted = 0;
    let mut consumed = 0;
    for i in 0..100 {
        if slot.offer(i) {
            admitted += 1;
        }
        if i % 7 == 0 && slot.take().is_some() {
            consumed += 1;
        }
        assert!(admitted - consumed <= 1);
    }
}

#[test]
fn intake_counts_and_routes() {
    let mut intake = Intake::new();
    assert!(intake.accept(vec![], 1280, 720, true).is_none());
    assert_eq!(intake.frames(), 0);
    let (to, f) = intake.accept(vec![0; 16], 2, 2, false).unwrap();
    assert_eq!(to, Route::Resize);
    assert_eq!(f.fps, None);
    let (to, f) = intake.accept(vec![0; 1280 * 720 * 4], 1280, 720, true).unwrap();
    assert_eq!(to, Route::Encode);
    assert_eq!(f.fps, Some(2));
    assert_eq!(intake.frames(), 0);
}

#[test]
fn transfer_stats_report_per_window() {
    let mut stats = TransferStats::new();
    assert_eq!(stats.record(1500, None, 40), None);
    assert_eq!(stats.record(2600, None, 40), None);
    assert_eq!(stats.frames(), 2);
    assert_eq!(stats.transferred(), 4100);
    let report = stats.record(900, Some(60), 60).unwrap();
    assert_eq!(report, Report { capture_fps: 60, delivered_frames: 3, kilobytes: 5, quality: 60 });
    assert_eq!(stats.frames(), 0);
    assert_eq!(stats.transferred(), 0);
}

#[test]
fn context_hands_out_payloads_then_stops() {
    let (tx, rx) = std::sync::mpsc::sync_channel(1);
    let ctx = Context::new(rx);
    tx.try_send(frame_payload(&[5, 6], 40, Some(1)).unwrap()).unwrap();
    assert!(tx.try_send(frame_payload(&[7], 40, None).unwrap()).is_err());
    let p = ctx.get_frame().unwrap();
    assert_eq!(p.data(), &[6, 0, 0, 0, 5, 6]);
    drop(tx);
    assert!(ctx.get_frame().is_none());
}
