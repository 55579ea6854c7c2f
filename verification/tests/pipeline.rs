use mirrorx_core::bridge::{mouse_event_from_wire, mouse_key_from_wire};
use mirrorx_core::capture::{
    capture_step, capture_time, frame_interval_micros, CaptureAction, CaptureEvent, Submitted,
};
use mirrorx_core::file_transfer::{
    download_file_reply, file_blocks, file_transfer_error, FileTransferFailure,
    FILE_TRANSFER_SETTLE_SECS,
};
use mirrorx_core::message::{
    EndPointDownloadFileReply, EndPointFileTransferError, EndPointMessage, MouseEvent, MouseKey,
};
use mirrorx_core::queue::BoundedQueue;
use mirrorx_core::video_decoder::{
    classify_receive, classify_send, DecodeAction, DecodeEvent, DecoderError, FrameSource,
    ReceiveStatus, SendStatus, VideoDecoder, AVERROR_EOF,
};

#[test]
fn queue_is_first_in_first_out() {
    let mut q: BoundedQueue<u32> = BoundedQueue::new(3);
    assert!(q.is_empty());
    assert_eq!(q.pop(), None);
    assert_eq!(q.try_push(1), Ok(()));
    assert_eq!(q.try_push(2), Ok(()));
    assert_eq!(q.len(), 2);
    assert!(!q.is_full());
    assert_eq!(q.get(0), Some(&1));
    assert_eq!(q.get(1), Some(&2));
    assert_eq!(q.get(2), None);
    assert_eq!(q.pop(), Some(1));
    assert_eq!(q.pop(), Some(2));
    assert_eq!(q.pop(), None);
}

#[test]
fn full_queue_turns_the_newest_away() {
    let mut q: BoundedQueue<u32> = BoundedQueue::new(1);
    assert_eq!(q.try_push(1), Ok(()));
    assert!(q.is_full());
    assert_eq!(q.try_push(2), Err(2));
    assert_eq!(q.len(), 1);
    assert_eq!(q.pop(), Some(1));
    assert_eq!(q.try_push(3), Ok(()));
    let mut none: BoundedQueue<u32> = BoundedQueue::new(0);
    assert_eq!(none.try_push(1), Err(1));
    assert!(none.is_full() && none.is_empty());
}

#[test]
fn full_queue_drops_the_oldest() {
    let mut q: BoundedQueue<u32> = BoundedQueue::new(2);
    assert_eq!(q.push_drop_oldest(1), None);
    assert_eq!(q.push_drop_oldest(2), None);
    assert_eq!(q.push_drop_oldest(3), Some(1));
    assert_eq!(q.push_drop_oldest(4), Some(2));
    assert_eq!(q.len(), 2);
    assert_eq!(q.pop(), Some(3));
    assert_eq!(q.pop(), Some(4));
    let mut none: BoundedQueue<u32> = BoundedQueue::new(0);
    assert_eq!(none.push_drop_oldest(9), Some(9));
    assert_eq!(none.len(), 0);
}

#[test]
fn queue_gives_up_an_item_from_the_middle() {
    let mut q: BoundedQueue<u32> = BoundedQueue::new(4);
    for i in 0..4 {
        q.try_push(i).unwrap();
    }
    assert_eq!(q.remove(4), None);
    assert_eq!(q.remove(1), Some(1));
    assert_eq!(q.len(), 3);
    assert_eq!(q.try_push(9), Ok(()));
    assert_eq!(q.pop(), Some(0));
    assert_eq!(q.pop(), Some(2));
    assert_eq!(q.pop(), Some(3));
    assert_eq!(q.pop(), Some(9));
}

#[test]
fn decoder_status_codes() {
    let eagain = 11;
    assert_eq!(classify_send(0, eagain), SendStatus::Accepted);
    assert_eq!(classify_send(5, eagain), SendStatus::Accepted);
    assert_eq!(classify_send(-11, eagain), SendStatus::Again);
    assert_eq!(classify_send(-35, 35), SendStatus::Again);
    assert_eq!(classify_send(-35, eagain), SendStatus::Failed(-35));
    assert_eq!(classify_send(AVERROR_EOF, eagain), SendStatus::Closed);
    assert_eq!(classify_send(-22, eagain), SendStatus::Failed(-22));
    assert_eq!(classify_send(i32::MIN, eagain), SendStatus::Failed(i32::MIN));
    assert_eq!(classify_send(i32::MIN, i32::MIN), SendStatus::Failed(i32::MIN));
    assert_eq!(classify_receive(0, eagain), ReceiveStatus::Frame);
    assert_eq!(classify_receive(-11, eagain), ReceiveStatus::Drained);
    assert_eq!(classify_receive(AVERROR_EOF, eagain), ReceiveStatus::Closed);
    assert_eq!(classify_receive(-1, eagain), ReceiveStatus::Failed(-1));
    // the tag "EOF " negated
    let tag = (b'E' as i32) | (b'O' as i32) << 8 | (b'F' as i32) << 16 | (b' ' as i32) << 24;
    assert_eq!(AVERROR_EOF, -tag);
}

#[test]
fn decoder_opens_once() {
    let mut d = VideoDecoder::new(false);
    assert!(d.uses_parser());
    assert!(!d.needs_flush());
    assert_eq!(d.may_open(), Ok(()));
    assert_eq!(d.open(-22), Err(DecoderError::OpenFailed(-22)));
    assert_eq!(d.open(1), Err(DecoderError::OpenFailed(1)));
    assert!(!d.needs_flush());
    assert_eq!(d.open(0), Ok(()));
    assert!(d.needs_flush());
    assert_eq!(d.may_open(), Err(DecoderError::AlreadyOpened));
    assert_eq!(d.open(0), Err(DecoderError::AlreadyOpened));
    assert_eq!(d.open(-1), Err(DecoderError::AlreadyOpened));
    assert!(d.needs_flush());
}

#[test]
fn hardware_decoder_copies_its_pictures() {
    let software = VideoDecoder::new(false);
    assert_eq!(software.frame_source(0), Some(FrameSource::Decoded));
    assert_eq!(software.frame_source(-1), Some(FrameSource::Decoded));
    let hardware = VideoDecoder::new(true);
    assert!(!hardware.uses_parser());
    assert_eq!(hardware.frame_source(0), Some(FrameSource::Transferred));
    assert_eq!(hardware.frame_source(-5), None);
}

#[test]
fn capture_loop_stops_on_failure_and_on_exit_only() {
    assert_eq!(capture_step(CaptureEvent::Captured(Submitted::Accepted)), CaptureAction::Continue);
    assert_eq!(capture_step(CaptureEvent::Captured(Submitted::Full)), CaptureAction::Continue);
    assert_eq!(capture_step(CaptureEvent::Captured(Submitted::Disconnected)), CaptureAction::Stop);
    assert_eq!(capture_step(CaptureEvent::CaptureFailed), CaptureAction::Stop);
    assert_eq!(capture_step(CaptureEvent::ExitSignalled), CaptureAction::Stop);
}

#[test]
fn capture_cadence() {
    assert_eq!(frame_interval_micros(0), None);
    assert_eq!(frame_interval_micros(1), Some(1_000_000));
    assert_eq!(frame_interval_micros(30), Some(33_333));
    assert_eq!(frame_interval_micros(60), Some(16_666));
    assert_eq!(frame_interval_micros(255), Some(3_921));
    assert_eq!(capture_time(1_000, 1_500), Some(500));
    assert_eq!(capture_time(7, 7), Some(0));
    assert_eq!(capture_time(8, 7), None);
    assert_eq!(capture_time(-5, 10), Some(15));
    assert_eq!(capture_time(i64::MIN, i64::MAX), None);
    assert_eq!(capture_time(-1, i64::MAX), None);
    assert_eq!(capture_time(0, i64::MAX), Some(i64::MAX));
}

#[test]
fn download_is_answered_with_the_size_of_a_regular_file() {
    assert_eq!(download_file_reply(true, 12), Ok(EndPointDownloadFileReply { size: 12 }));
    assert_eq!(download_file_reply(true, 0), Ok(EndPointDownloadFileReply { size: 0 }));
    assert_eq!(download_file_reply(false, 12), Err(FileTransferFailure::NotARegularFile));
    assert_eq!(FILE_TRANSFER_SETTLE_SECS, 1);
    assert_eq!(
        file_transfer_error("t1"),
        EndPointMessage::FileTransferError(EndPointFileTransferError { id: "t1".to_string() })
    );
}

#[test]
fn file_blocks_put_together_are_the_file() {
    let data: Vec<u8> = (0..=255u8).cycle().take(1000).collect();
    let blocks = file_blocks("t1", &data, 64).unwrap();
    assert_eq!(blocks.len(), 16);
    let mut joined: Vec<u8> = Vec::new();
    for (i, block) in blocks.iter().enumerate() {
        assert_eq!(block.id, "t1");
        assert_eq!(block.data.len(), if i < 15 { 64 } else { 40 });
        joined.extend_from_slice(&block.data);
    }
    assert_eq!(joined, data);
    assert_eq!(blocks[0].data, data[..64].to_vec());
}

#[test]
fn file_blocks_edge_cases() {
    assert_eq!(file_blocks("t", &[], 8), Some(vec![]));
    assert_eq!(file_blocks("t", &[], 0), Some(vec![]));
    assert_eq!(file_blocks("t", &[1], 0), None);
    let exact = file_blocks("t", &[1, 2, 3, 4], 2).unwrap();
    assert_eq!(exact.len(), 2);
    assert_eq!(exact[1].data, vec![3, 4]);
    let one = file_blocks("t", &[1, 2, 3], usize::MAX).unwrap();
    assert_eq!(one.len(), 1);
    assert_eq!(one[0].data, vec![1, 2, 3]);
}

#[test]
fn mouse_values_from_the_user_interface() {
    assert_eq!(mouse_key_from_wire(0), Some(MouseKey::NoButton));
    assert_eq!(mouse_key_from_wire(1), Some(MouseKey::Left));
    assert_eq!(mouse_key_from_wire(2), Some(MouseKey::Right));
    assert_eq!(mouse_key_from_wire(3), Some(MouseKey::Wheel));
    assert_eq!(mouse_key_from_wire(4), None);
    assert_eq!(mouse_key_from_wire(-1), None);
    let x = 0.5f32.to_bits();
    let y = 1.0f32.to_bits();
    assert_eq!(mouse_event_from_wire(0, 1, x, y, 0), Some(MouseEvent::MouseUp(MouseKey::Left, x, y)));
    assert_eq!(mouse_event_from_wire(1, 2, x, y, 0), Some(MouseEvent::MouseDown(MouseKey::Right, x, y)));
    assert_eq!(mouse_event_from_wire(2, 0, x, y, 0), Some(MouseEvent::MouseMove(MouseKey::NoButton, x, y)));
    assert_eq!(mouse_event_from_wire(3, 99, x, y, 7), Some(MouseEvent::MouseScrollWheel(7)));
    assert_eq!(mouse_event_from_wire(4, 1, x, y, 0), None);
    assert_eq!(mouse_event_from_wire(-1, 1, x, y, 0), None);
    assert_eq!(mouse_event_from_wire(0, 4, x, y, 0), None);
}

#[test]
fn software_decoder_hands_pictures_on_until_the_codec_is_drained() {
    let d = VideoDecoder::new(false);
    let eagain = 11;
    assert_eq!(d.decode_step(DecodeEvent::Sent(0), eagain), DecodeAction::Receive);
    assert_eq!(
        d.decode_step(DecodeEvent::Received(0), eagain),
        DecodeAction::Emit(FrameSource::Decoded)
    );
    assert_eq!(d.decode_step(DecodeEvent::Received(-11), eagain), DecodeAction::Finish);
    assert_eq!(d.decode_step(DecodeEvent::Received(AVERROR_EOF), eagain), DecodeAction::Finish);
    assert_eq!(d.decode_step(DecodeEvent::Received(-22), eagain), DecodeAction::Finish);
    assert_eq!(
        d.decode_step(DecodeEvent::Transferred(-1), eagain),
        DecodeAction::Emit(FrameSource::Decoded)
    );
}

#[test]
fn packet_that_the_codec_does_not_take_is_done_with() {
    let eagain = 35;
    for d in [VideoDecoder::new(false), VideoDecoder::new(true)] {
        assert_eq!(d.decode_step(DecodeEvent::Sent(-35), eagain), DecodeAction::Finish);
        assert_eq!(d.decode_step(DecodeEvent::Sent(AVERROR_EOF), eagain), DecodeAction::Finish);
        assert_eq!(d.decode_step(DecodeEvent::Sent(-1), eagain), DecodeAction::Finish);
        assert_eq!(d.decode_step(DecodeEvent::Sent(3), eagain), DecodeAction::Receive);
    }
}

#[test]
fn hardware_decoder_copies_each_picture_and_loses_it_when_the_copy_fails() {
    let d = VideoDecoder::new(true);
    let eagain = 11;
    assert_eq!(d.decode_step(DecodeEvent::Received(0), eagain), DecodeAction::Transfer);
    assert_eq!(
        d.decode_step(DecodeEvent::Transferred(0), eagain),
        DecodeAction::Emit(FrameSource::Transferred)
    );
    assert_eq!(d.decode_step(DecodeEvent::Transferred(-5), eagain), DecodeAction::Finish);
    assert_eq!(d.decode_step(DecodeEvent::Received(-11), eagain), DecodeAction::Finish);
}
