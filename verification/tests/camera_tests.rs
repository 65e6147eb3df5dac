use camera::{
    achieved_fps, facade_read_result, frame_disposition, pacing_interval_ms, sleep_gap_ms,
    Atomics, Camera, CameraHandler, CameraState, FrameChannel, NoOpCamera, SendOutcome,
    BUFFERED_FRAMES,
};

/// Backend that refuses every connection attempt.
#[derive(Debug)]
struct RefusingCamera {}

impl CameraHandler for RefusingCamera {
    fn init() -> Self {
        Self {}
    }

    fn get_frame(&mut self) -> Result<Vec<u8>, CameraState> {
        Err(CameraState::ReadFailed)
    }

    fn connect(&mut self, _source: String) -> Result<(), CameraState> {
        Err(CameraState::Timeout)
    }

    fn disconnect(&mut self) {}
}

/// Backend that connects but claims to be disconnected on every read.
#[derive(Debug)]
struct VanishingCamera {}

impl CameraHandler for VanishingCamera {
    fn init() -> Self {
        Self {}
    }

    fn get_frame(&mut self) -> Result<Vec<u8>, CameraState> {
        Err(CameraState::Disconnected)
    }

    fn connect(&mut self, _source: String) -> Result<(), CameraState> {
        Ok(())
    }

    fn disconnect(&mut self) {}
}

/// Backend that connects but only ever reports transient read
/// failures.
#[derive(Debug)]
struct FlakyCamera {}

impl CameraHandler for FlakyCamera {
    fn init() -> Self {
        Self {}
    }

    fn get_frame(&mut self) -> Result<Vec<u8>, CameraState> {
        Err(CameraState::ReadFailed)
    }

    fn connect(&mut self, _source: String) -> Result<(), CameraState> {
        Ok(())
    }

    fn disconnect(&mut self) {}
}

#[test]
fn test_state_transitions() {
    let source: String = "COM13".into();

    // camera was created and is waiting for a connection
    let mut camera = Camera::from_camera_handler(NoOpCamera::init(), 30);
    assert_eq!(camera.get_frame(), Err(CameraState::Disconnected));

    // camera is in connected state after a successful connect
    camera
        .connect(source)
        .expect("no-op connect should always succeed");
    assert!(camera.get_frame().is_ok());

    // disconnect should move camera into waiting state
    camera
        .disconnect()
        .expect("disconnect should always succeed");
    assert_eq!(camera.get_frame(), Err(CameraState::Disconnected));
}

#[test]
fn stub_camera_full_scenario() {
    let mut camera = Camera::from_camera_handler(NoOpCamera::init(), 30);
    assert_eq!(camera.target_frame_rate(), 30);
    assert_eq!(camera.frame_rate(), 0);
    assert_eq!(camera.connect("X".into()), Ok(()));
    assert_eq!(camera.get_frame(), Ok(vec![]));
    assert_eq!(camera.disconnect(), Ok(()));
    assert_eq!(camera.get_frame(), Err(CameraState::Disconnected));
}

#[test]
fn second_connect_is_rejected_without_reconnecting() {
    let mut camera = Camera::from_camera_handler(NoOpCamera::init(), 30);
    assert_eq!(camera.connect("X".into()), Ok(()));
    match camera.connect("X".into()) {
        Err(CameraState::Error(m)) => assert_eq!(m, "Already connected"),
        other => panic!("expected a usage error, got {:?}", other),
    }
    // the camera is still connected and still delivers frames
    assert_eq!(camera.get_frame(), Ok(vec![]));
}

#[test]
fn disconnect_while_waiting_is_a_usage_error() {
    let mut camera = Camera::from_camera_handler(NoOpCamera::init(), 30);
    match camera.disconnect() {
        Err(CameraState::Error(m)) => {
            assert_eq!(m, "Cannot disconnect during this state: Waiting")
        }
        other => panic!("expected a usage error, got {:?}", other),
    }
}

#[test]
fn failed_connect_leaves_camera_waiting() {
    let mut camera = Camera::from_camera_handler(RefusingCamera::init(), 30);
    assert_eq!(camera.connect("nowhere".into()), Err(CameraState::Timeout));
    assert_eq!(camera.get_frame(), Err(CameraState::Disconnected));
}

#[test]
fn connected_camera_never_reports_disconnected() {
    let mut camera = Camera::from_camera_handler(VanishingCamera::init(), 30);
    assert_eq!(camera.connect("X".into()), Ok(()));
    match camera.get_frame() {
        Err(CameraState::Error(m)) => {
            assert_eq!(m, "camera stream ended while connected")
        }
        other => panic!("expected the fault to surface as Error, got {:?}", other),
    }
}

#[test]
fn transient_read_failure_passes_through_while_connected() {
    let mut camera = Camera::from_camera_handler(FlakyCamera::init(), 30);
    assert_eq!(camera.connect("X".into()), Ok(()));
    assert_eq!(camera.get_frame(), Err(CameraState::ReadFailed));
    // the acquisition loop skips such an iteration instead of aborting
    assert_eq!(frame_disposition(Err(CameraState::ReadFailed)), None);
    assert_eq!(frame_disposition(Ok(vec![1, 2, 3])), Some(vec![1, 2, 3]));
}

#[test]
fn target_frame_rate_is_mutable_live() {
    let mut camera = Camera::from_camera_handler(NoOpCamera::init(), 30);
    assert_eq!(camera.target_frame_rate(), 30);
    camera.set_target_frame_rate(60);
    assert_eq!(camera.target_frame_rate(), 60);
    assert_eq!(camera.frame_rate(), 0);
}

#[test]
fn facade_read_result_masks_handler_disconnect() {
    assert_eq!(facade_read_result(Ok(vec![1, 2])), Ok(vec![1, 2]));
    assert_eq!(
        facade_read_result(Err(CameraState::ReadFailed)),
        Err(CameraState::ReadFailed)
    );
    match facade_read_result(Err(CameraState::Disconnected)) {
        Err(CameraState::Error(m)) => assert_eq!(m, "camera stream ended while connected"),
        other => panic!("expected an Error, got {:?}", other),
    }
}

#[test]
fn reconnect_after_disconnect_works() {
    let mut camera = Camera::from_camera_handler(NoOpCamera::init(), 30);
    assert_eq!(camera.connect("X".into()), Ok(()));
    assert_eq!(camera.disconnect(), Ok(()));
    // disconnecting is reversible: a fresh connect delivers frames again
    assert_eq!(camera.connect("X".into()), Ok(()));
    assert_eq!(camera.get_frame(), Ok(vec![]));
}

#[test]
fn atomics_start_unstopped_with_target() {
    let a = Atomics::new(30);
    assert!(!a.should_stop());
    assert_eq!(a.frame_rate(), 0);
    assert_eq!(a.target_frame_rate(), 30);
}

#[test]
fn camera_state_equality() {
    assert_eq!(CameraState::Timeout, CameraState::Timeout);
    assert_ne!(CameraState::Timeout, CameraState::Connected);
    assert_eq!(
        CameraState::Error("oops".into()),
        CameraState::Error("oops".into())
    );
    assert_ne!(
        CameraState::Error("oops".into()),
        CameraState::Error("other".into())
    );
    assert_ne!(CameraState::Error("oops".into()), CameraState::ReadFailed);
}

#[test]
fn channel_delivers_frames_in_order() {
    let mut ch = FrameChannel::new();
    let s1: Vec<u8> = vec![1];
    let s2: Vec<u8> = vec![2, 2];
    let s3: Vec<u8> = vec![3, 3, 3];
    assert!(matches!(ch.send(s1.clone()), SendOutcome::Accepted));
    assert!(matches!(ch.send(s2.clone()), SendOutcome::Accepted));
    assert!(matches!(ch.send(s3.clone()), SendOutcome::Accepted));
    assert_eq!(ch.recv(), Some(s1));
    assert_eq!(ch.recv(), Some(s2));
    assert_eq!(ch.recv(), Some(s3));
    assert_eq!(ch.recv(), None);
}

#[test]
fn channel_pushes_back_when_full() {
    let mut ch = FrameChannel::new();
    for i in 0..BUFFERED_FRAMES {
        assert!(matches!(ch.send(vec![i as u8]), SendOutcome::Accepted));
    }
    assert_eq!(ch.len(), BUFFERED_FRAMES);
    // the 31st frame is refused and handed back, nothing is dropped
    match ch.send(vec![0xee]) {
        SendOutcome::Full(frame) => assert_eq!(frame, vec![0xee]),
        SendOutcome::Accepted => panic!("a full channel must not accept"),
    }
    assert_eq!(ch.len(), BUFFERED_FRAMES);
    // draining one frame makes room again, in FIFO order
    assert_eq!(ch.recv(), Some(vec![0]));
    assert!(matches!(ch.send(vec![0xee]), SendOutcome::Accepted));
}

#[test]
fn pacing_math_matches_the_loop() {
    assert_eq!(pacing_interval_ms(30), 33);
    assert_eq!(pacing_interval_ms(60), 16);
    assert_eq!(pacing_interval_ms(1000), 1);
    assert_eq!(sleep_gap_ms(10, 33), 23);
    assert_eq!(sleep_gap_ms(33, 33), 0);
    assert_eq!(sleep_gap_ms(100, 33), 0);
    assert_eq!(achieved_fps(0), 1000);
    assert_eq!(achieved_fps(1), 1000);
    assert_eq!(achieved_fps(40), 25);
    assert_eq!(achieved_fps(3000), 0);
}
