use bevaders::channel::{Attempt, FrameChannel};
use bevaders::error::CaptureError;
use bevaders::frame::RawFrame;
use bevaders::source::DeviceSelector;
use bevaders::worker::{CaptureAction, CaptureEvent, CaptureWorker};

fn tagged(tag: u8) -> RawFrame {
    RawFrame { width: 1, height: 1, channels: 3, data: vec![tag, tag, tag] }
}

/// Carries out the worker's pending action against a scripted device: the
/// device opens, then delivers the frames of `script` one by one, then fails.
fn drive(worker: &mut CaptureWorker, script: &mut Vec<RawFrame>, channel: &mut FrameChannel) {
    let event = match worker.next_action() {
        CaptureAction::OpenDevice => CaptureEvent::DeviceOpened,
        CaptureAction::ReadFrame => {
            if script.is_empty() {
                CaptureEvent::ReadFailed
            } else {
                CaptureEvent::FrameRead(script.remove(0))
            }
        }
        CaptureAction::Release => return,
    };
    let report = worker.step(event, channel);
    assert_eq!(report.action, worker.next_action());
}

#[test]
fn first_blocking_get_waits_for_the_first_frame() {
    let mut channel = FrameChannel::new();
    let mut worker = CaptureWorker::start(DeviceSelector::default_camera());
    let mut script = vec![tagged(5)];

    assert_eq!(channel.attempt_blocking_get(), Attempt::Wait);
    drive(&mut worker, &mut script, &mut channel);
    assert_eq!(channel.attempt_blocking_get(), Attempt::Wait);
    drive(&mut worker, &mut script, &mut channel);
    match channel.attempt_blocking_get() {
        Attempt::Ready(frame) => assert_eq!(frame.data(), &[5, 5, 5, 255]),
        other => panic!("expected a frame, found {:?}", other),
    }
    assert_eq!(channel.attempt_blocking_get(), Attempt::Wait);
}

#[test]
fn slow_consumer_sees_only_the_freshest_frame() {
    let mut channel = FrameChannel::new();
    let mut worker = CaptureWorker::start(DeviceSelector::default_camera());
    let mut script: Vec<RawFrame> = (0..30u8).map(tagged).collect();
    let mut seen: Vec<u8> = Vec::new();

    drive(&mut worker, &mut script, &mut channel);
    for tick in 0..10 {
        for _ in 0..3 {
            drive(&mut worker, &mut script, &mut channel);
        }
        let frame = channel.try_get_latest().unwrap().unwrap();
        assert_eq!(frame.data()[0], 3 * tick + 2);
        seen.push(frame.data()[0]);
        assert_eq!(channel.try_get_latest(), Ok(None));
    }
    assert_eq!(seen, vec![2, 5, 8, 11, 14, 17, 20, 23, 26, 29]);
}

#[test]
fn fast_consumer_sees_every_frame_in_capture_order() {
    let mut channel = FrameChannel::new();
    let mut worker = CaptureWorker::start(DeviceSelector::default_camera());
    let mut script: Vec<RawFrame> = (0..20u8).map(tagged).collect();

    drive(&mut worker, &mut script, &mut channel);
    for tag in 0..20u8 {
        assert_eq!(channel.try_get_latest(), Ok(None));
        drive(&mut worker, &mut script, &mut channel);
        let frame = channel.try_get_latest().unwrap().unwrap();
        assert_eq!(frame.data(), &[tag, tag, tag, 255]);
    }
}

#[test]
fn queries_after_the_worker_ended_report_source_closed() {
    let mut channel = FrameChannel::new();
    let mut worker = CaptureWorker::start(DeviceSelector::default_camera());
    let mut script = vec![tagged(1), tagged(2)];

    while !worker.is_stopped() {
        drive(&mut worker, &mut script, &mut channel);
    }
    assert_eq!(worker.failure(), Some(CaptureError::ReadFailure));
    for _ in 0..3 {
        assert_eq!(channel.try_get_latest(), Err(CaptureError::SourceClosed));
        assert_eq!(channel.attempt_blocking_get(), Attempt::Closed);
    }
}

#[test]
fn malformed_frames_in_the_stream_do_not_disturb_delivery() {
    let mut channel = FrameChannel::new();
    let mut worker = CaptureWorker::start(DeviceSelector::default_camera());
    let broken = RawFrame { width: 1, height: 1, channels: 3, data: vec![1, 2, 3, 4, 5] };
    let mut script = vec![tagged(1), broken, tagged(3)];

    drive(&mut worker, &mut script, &mut channel);
    drive(&mut worker, &mut script, &mut channel);
    drive(&mut worker, &mut script, &mut channel);
    assert!(!worker.is_stopped());
    assert_eq!(channel.try_get_latest().unwrap().unwrap().data(), &[1, 1, 1, 255]);
    drive(&mut worker, &mut script, &mut channel);
    assert_eq!(channel.try_get_latest().unwrap().unwrap().data(), &[3, 3, 3, 255]);
}
