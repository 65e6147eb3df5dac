use vstd::prelude::*;
use crate::handler::CameraHandler;
use crate::handler::CameraState;

verus! {

/// The closed set of camera backend variants a `Camera` can be built
/// around: a stub, a generic video-capture library, and the serial
/// frame protocol link.
pub enum CameraHandlers {
    NoOp,
    OpenCV,
    OpenIris,
}

/// Stub backend: every operation succeeds and every frame is empty.
#[derive(Debug)]
pub struct NoOpCamera {}

impl CameraHandler for NoOpCamera {
    fn init() -> (r: Self)
        where Self: Sized
    {
        Self {}
    }

    fn get_frame(&mut self) -> (r: Result<Vec<u8>, CameraState>)
        ensures
            r matches Ok(frame) && frame@ == Seq::<u8>::empty(),
    {
        Ok(vec![])
    }

    fn connect(&mut self, source: String) -> (r: Result<(), CameraState>)
        ensures
            r is Ok,
    {
        Ok(())
    }

    fn disconnect(&mut self) {
    }
}

} // verus!
