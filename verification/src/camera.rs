use vstd::prelude::*;
use crate::handler::CameraHandler;
use crate::handler::CameraState;

verus! {

/// The counters shared between a camera facade and its acquisition
/// loop: the stop signal, the achieved frame rate written by the
/// producer, and the target frame rate written by the consumer.
///
/// Each field is an independent scalar; no field depends on another
/// for correctness.
#[derive(Debug)]
pub struct Atomics {
    should_stop: bool,
    frame_rate: u16,
    target_frame_rate: u16,
}

impl Atomics {
    pub closed spec fn spec_should_stop(&self) -> bool {
        self.should_stop
    }

    pub closed spec fn spec_frame_rate(&self) -> u16 {
        self.frame_rate
    }

    pub closed spec fn spec_target_frame_rate(&self) -> u16 {
        self.target_frame_rate
    }

    /// A fresh counter block: not stopped, no measured frame rate yet
    /// (it stays 0 until a full pacing cycle completes), and the
    /// requested target rate.
    pub fn new(target_frame_rate: u16) -> (a: Atomics)
        ensures
            !a.spec_should_stop(),
            a.spec_frame_rate() == 0,
            a.spec_target_frame_rate() == target_frame_rate,
    {
        Atomics { should_stop: false, frame_rate: 0, target_frame_rate }
    }

    /// Whether the acquisition loop has been asked to stop.
    pub fn should_stop(&self) -> (r: bool)
        ensures
            r == self.spec_should_stop(),
    {
        self.should_stop
    }

    /// The frame rate the producer last recorded.
    pub fn frame_rate(&self) -> (r: u16)
        ensures
            r == self.spec_frame_rate(),
    {
        self.frame_rate
    }

    /// The frame rate the consumer currently asks for.
    pub fn target_frame_rate(&self) -> (r: u16)
        ensures
            r == self.spec_target_frame_rate(),
    {
        self.target_frame_rate
    }
}

/// The two shapes a camera can be in: holding its handler while
/// disconnected, or delivering frames while connected. There is no
/// third shape and no overlap.
#[derive(Clone, Copy)]
enum InternalState {
    Waiting,
    Connected,
}

/// The camera facade: one backend handler driven through the
/// `Waiting`/`Connected` lifecycle.
///
/// The handler is an exclusive resource: it is owned by this facade
/// and never shared, so no two owners ever access it concurrently.
pub struct Camera<H: CameraHandler> {
    handler: H,
    state: InternalState,
    atomics: Atomics,
}

impl<H: CameraHandler> Camera<H> {
    /// The camera is connected and delivering frames.
    pub closed spec fn is_connected(&self) -> bool {
        self.state is Connected
    }

    /// The camera is waiting: constructed or disconnected, not
    /// delivering frames.
    pub open spec fn is_waiting(&self) -> bool {
        !self.is_connected()
    }

    pub closed spec fn spec_should_stop(&self) -> bool {
        self.atomics.spec_should_stop()
    }

    pub closed spec fn spec_frame_rate(&self) -> u16 {
        self.atomics.spec_frame_rate()
    }

    pub closed spec fn spec_target_frame_rate(&self) -> u16 {
        self.atomics.spec_target_frame_rate()
    }

    /// Lifecycle invariant: at any observation point a camera is in
    /// exactly one of the waiting and connected phases.
    pub proof fn lemma_phase_exclusive(&self)
        ensures
            self.is_waiting() <==> !self.is_connected(),
    {
    }

    /// Build a camera around an already initialized handler. It starts
    /// waiting, with no stop signal pending and a measured frame rate
    /// of zero.
    pub fn from_camera_handler(handler: H, target_frame_rate: u16) -> (c: Camera<H>)
        ensures
            c.is_waiting(),
            !c.spec_should_stop(),
            c.spec_frame_rate() == 0,
            c.spec_target_frame_rate() == target_frame_rate,
    {
        Camera { handler, state: InternalState::Waiting, atomics: Atomics::new(target_frame_rate) }
    }

    /// Try to move the camera from waiting to connected by connecting
    /// its handler to `source`.
    ///
    /// Connecting while already connected is a usage error: it is
    /// rejected without touching the handler or spawning anything, so
    /// a second `connect` can never create a second acquisition loop.
    /// On a handler failure the camera stays waiting and the handler's
    /// error is passed through, so a retry needs no new handler. A
    /// successful connect clears any stop signal left by an earlier
    /// disconnect: disconnecting is reversible.
    pub fn connect(&mut self, source: String) -> (r: Result<(), CameraState>)
        ensures
            old(self).is_connected() ==> *final(self) == *old(self) && (r matches Err(e)
                && e matches CameraState::Error(m) && m@ == "Already connected"@),
            old(self).is_waiting() ==> ((r is Ok) <==> final(self).is_connected()),
            old(self).is_waiting() && r is Err ==> final(self).is_waiting(),
            final(self).spec_should_stop() == if old(self).is_waiting() && r is Ok {
                false
            } else {
                old(self).spec_should_stop()
            },
            final(self).spec_frame_rate() == old(self).spec_frame_rate(),
            final(self).spec_target_frame_rate() == old(self).spec_target_frame_rate(),
    {
        match self.state {
            InternalState::Connected => Err(CameraState::Error("Already connected".to_owned())),
            InternalState::Waiting => {
                match self.handler.connect(source) {
                    Ok(()) => {
                        self.atomics.should_stop = false;
                        self.state = InternalState::Connected;
                        Ok(())
                    },
                    Err(e) => Err(e),
                }
            },
        }
    }

    /// Move the camera from connected back to waiting, signalling the
    /// acquisition loop to stop; the handler is retained for a future
    /// `connect`. Disconnecting while waiting is a usage error and
    /// changes nothing.
    pub fn disconnect(&mut self) -> (r: Result<(), CameraState>)
        ensures
            old(self).is_connected() ==> r is Ok && final(self).is_waiting()
                && final(self).spec_should_stop(),
            old(self).is_waiting() ==> *final(self) == *old(self) && (r matches Err(e)
                && e matches CameraState::Error(m) && m@
                == "Cannot disconnect during this state: Waiting"@),
            final(self).spec_frame_rate() == old(self).spec_frame_rate(),
            final(self).spec_target_frame_rate() == old(self).spec_target_frame_rate(),
    {
        match self.state {
            InternalState::Connected => {
                self.atomics.should_stop = true;
                self.state = InternalState::Waiting;
                Ok(())
            },
            InternalState::Waiting => Err(
                CameraState::Error("Cannot disconnect during this state: Waiting".to_owned()),
            ),
        }
    }

    /// Fetch the next frame.
    ///
    /// Returns `Disconnected` exactly when the camera is waiting.
    /// While connected, a handler fault surfaces as the handler
    /// reported it, except that a handler's own `Disconnected` is
    /// reported as an `Error`: the facade, not the handler, owns the
    /// lifecycle, and a connected camera never claims to be waiting.
    pub fn get_frame(&mut self) -> (r: Result<Vec<u8>, CameraState>)
        ensures
            (r matches Err(e) && e is Disconnected) <==> old(self).is_waiting(),
            old(self).is_waiting() ==> *final(self) == *old(self),
            final(self).is_connected() == old(self).is_connected(),
            final(self).spec_should_stop() == old(self).spec_should_stop(),
            final(self).spec_frame_rate() == old(self).spec_frame_rate(),
            final(self).spec_target_frame_rate() == old(self).spec_target_frame_rate(),
    {
        match self.state {
            InternalState::Waiting => Err(CameraState::Disconnected),
            InternalState::Connected => facade_read_result(self.handler.get_frame()),
        }
    }

    /// The frame rate the acquisition loop last measured.
    pub fn frame_rate(&self) -> (r: u16)
        ensures
            r == self.spec_frame_rate(),
    {
        self.atomics.frame_rate
    }

    /// The frame rate the camera is asked to achieve.
    pub fn target_frame_rate(&self) -> (r: u16)
        ensures
            r == self.spec_target_frame_rate(),
    {
        self.atomics.target_frame_rate
    }

    /// Change the target frame rate; the next pacing decision observes
    /// the new value. Nothing else about the camera changes.
    pub fn set_target_frame_rate(&mut self, target_frame_rate: u16)
        ensures
            final(self).spec_target_frame_rate() == target_frame_rate,
            final(self).is_connected() == old(self).is_connected(),
            final(self).spec_should_stop() == old(self).spec_should_stop(),
            final(self).spec_frame_rate() == old(self).spec_frame_rate(),
    {
        self.atomics.target_frame_rate = target_frame_rate;
    }
}

/// What a connected facade reports for its handler's read result:
/// frames and faults pass through unchanged, except the handler's own
/// `Disconnected`, which becomes an `Error` — only the facade may say
/// the camera is waiting.
pub fn facade_read_result(fetched: Result<Vec<u8>, CameraState>) -> (r: Result<
    Vec<u8>,
    CameraState,
>)
    ensures
        fetched matches Ok(f) ==> (r matches Ok(g) && g == f),
        !(r matches Err(x) && x is Disconnected),
        fetched matches Err(e) ==> (if e is Disconnected {
            r matches Err(x) && x matches CameraState::Error(m) && m@
                == "camera stream ended while connected"@
        } else {
            r matches Err(x) && x == e
        }),
{
    match fetched {
        Ok(frame) => Ok(frame),
        Err(e) => {
            match e {
                CameraState::Disconnected => Err(
                    CameraState::Error("camera stream ended while connected".to_owned()),
                ),
                other => Err(other),
            }
        },
    }
}

/// The acquisition loop's handling of one fetched frame: a frame is
/// emitted to the channel; a transient error is swallowed and the
/// iteration skipped, so a single failed read never kills the stream.
pub fn frame_disposition(fetched: Result<Vec<u8>, CameraState>) -> (r: Option<Vec<u8>>)
    ensures
        fetched matches Ok(frame) ==> (r matches Some(f) && f == frame),
        fetched is Err ==> r is None,
{
    match fetched {
        Ok(frame) => Some(frame),
        Err(_) => None,
    }
}

/// The pacing interval, in milliseconds, for a target frame rate.
pub fn pacing_interval_ms(target_fps: u64) -> (r: u64)
    requires
        1 <= target_fps,
    ensures
        r as int == 1000int / target_fps as int,
{
    1000 / target_fps
}

/// How long the acquisition loop still has to sleep after an
/// iteration that took `elapsed_ms`, to pace itself to one frame per
/// `interval_ms`.
pub fn sleep_gap_ms(elapsed_ms: u64, interval_ms: u64) -> (r: u64)
    ensures
        r as int == if elapsed_ms < interval_ms {
            interval_ms - elapsed_ms
        } else {
            0int
        },
{
    if elapsed_ms < interval_ms {
        interval_ms - elapsed_ms
    } else {
        0
    }
}

/// The frame rate one loop iteration achieved: `1000 / elapsed_ms`,
/// with the elapsed time clamped to at least one millisecond.
pub fn achieved_fps(elapsed_ms: u64) -> (r: u16)
    ensures
        r as int == 1000int / (if elapsed_ms == 0 {
            1int
        } else {
            elapsed_ms as int
        }),
{
    let divisor: u64 = if elapsed_ms == 0 {
        1
    } else {
        elapsed_ms
    };
    let fps: u64 = 1000 / divisor;
    assert(fps <= 1000) by {
        assert(1000int / divisor as int <= 1000int) by (nonlinear_arith)
            requires
                1 <= divisor,
        ;
    }
    fps as u16
}

} // verus!
