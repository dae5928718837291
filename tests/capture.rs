use webcam_diff::capture::{CaptureAction, CaptureEvent, CaptureFault, CaptureLoop, CapturePhase};

fn feed(cap: &mut CaptureLoop, frame: Vec<u8>) {
    assert_eq!(cap.step(CaptureEvent::Fetched(frame)), CaptureAction::Upload);
    assert_eq!(cap.phase(), CapturePhase::Updating);
    assert_eq!(cap.step(CaptureEvent::Uploaded), CaptureAction::Signal);
    assert_eq!(cap.phase(), CapturePhase::Signaling);
    assert_eq!(cap.step(CaptureEvent::Signaled), CaptureAction::Fetch);
    assert_eq!(cap.phase(), CapturePhase::Fetching);
}

#[test]
fn vga_three_frames_end_to_end() {
    let len = 640 * 480 * 4;
    let mut cap = CaptureLoop::new(640, 480);
    let zero = vec![0u8; len];
    assert_eq!(cap.store().current(), &zero[..]);
    assert_eq!(cap.store().previous(), &zero[..]);
    assert_eq!(cap.step(CaptureEvent::Start), CaptureAction::Fetch);
    let a: Vec<u8> = (0..len).map(|i| (i % 251) as u8).collect();
    let b: Vec<u8> = (0..len).map(|i| (i % 241) as u8).collect();
    let c: Vec<u8> = (0..len).map(|i| (i % 239) as u8).collect();
    feed(&mut cap, a);
    feed(&mut cap, b.clone());
    feed(&mut cap, c.clone());
    assert_eq!(cap.store().current(), &c[..]);
    assert_eq!(cap.store().previous(), &b[..]);
}

#[test]
fn fetch_failure_aborts() {
    let mut cap = CaptureLoop::new(2, 2);
    cap.step(CaptureEvent::Start);
    assert_eq!(
        cap.step(CaptureEvent::FetchFailed),
        CaptureAction::Abort { fault: CaptureFault::Capture }
    );
    assert_eq!(cap.phase(), CapturePhase::Failed);
    assert_eq!(cap.step(CaptureEvent::Start), CaptureAction::Ignore);
}

#[test]
fn wrong_frame_length_aborts_without_change() {
    let mut cap = CaptureLoop::new(2, 2);
    cap.step(CaptureEvent::Start);
    assert_eq!(
        cap.step(CaptureEvent::Fetched(vec![1u8; 15])),
        CaptureAction::Abort { fault: CaptureFault::WrongLength { expected: 16, actual: 15 } }
    );
    assert_eq!(cap.store().current(), &[0u8; 16][..]);
    assert_eq!(cap.store().previous(), &[0u8; 16][..]);
}

#[test]
fn out_of_phase_events_are_ignored() {
    let mut cap = CaptureLoop::new(1, 1);
    assert_eq!(cap.step(CaptureEvent::Fetched(vec![1, 2, 3, 4])), CaptureAction::Ignore);
    assert_eq!(cap.phase(), CapturePhase::Idle);
    assert_eq!(cap.store().current(), &[0u8; 4][..]);
    cap.step(CaptureEvent::Start);
    assert_eq!(cap.step(CaptureEvent::Uploaded), CaptureAction::Ignore);
    assert_eq!(cap.step(CaptureEvent::Signaled), CaptureAction::Ignore);
    assert_eq!(cap.phase(), CapturePhase::Fetching);
}
