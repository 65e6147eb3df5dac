use vstd::prelude::*;

verus! {

/// Connection outcome and status marker for a camera.
///
/// The same type serves as a transient connection result and as the
/// last-known-state marker of a camera, so both usage errors and
/// transport faults are reported through it.
#[derive(Debug, Clone)]
pub enum CameraState {
    Timeout,
    Connected,
    ReadFailed,
    Connecting,
    Disconnected,
    InvalidSource,
    Error(String),
}

impl CameraState {
    /// Structural equality on states; `Error` payloads are compared
    /// by their character sequences.
    pub open spec fn same_state(&self, other: &CameraState) -> bool {
        match (self, other) {
            (CameraState::Timeout, CameraState::Timeout) => true,
            (CameraState::Connected, CameraState::Connected) => true,
            (CameraState::ReadFailed, CameraState::ReadFailed) => true,
            (CameraState::Connecting, CameraState::Connecting) => true,
            (CameraState::Disconnected, CameraState::Disconnected) => true,
            (CameraState::InvalidSource, CameraState::InvalidSource) => true,
            (CameraState::Error(a), CameraState::Error(b)) => a@ == b@,
            _ => false,
        }
    }
}

impl PartialEq for CameraState {
    fn eq(&self, other: &CameraState) -> (r: bool) {
        match (self, other) {
            (CameraState::Timeout, CameraState::Timeout) => true,
            (CameraState::Connected, CameraState::Connected) => true,
            (CameraState::ReadFailed, CameraState::ReadFailed) => true,
            (CameraState::Connecting, CameraState::Connecting) => true,
            (CameraState::Disconnected, CameraState::Disconnected) => true,
            (CameraState::InvalidSource, CameraState::InvalidSource) => true,
            (CameraState::Error(a), CameraState::Error(b)) => String::eq(a, b),
            _ => false,
        }
    }
}

impl vstd::std_specs::cmp::PartialEqSpecImpl for CameraState {
    open spec fn obeys_eq_spec() -> bool {
        true
    }

    open spec fn eq_spec(&self, other: &CameraState) -> bool {
        self.same_state(other)
    }
}

impl Eq for CameraState {}

/// Capability set implemented by each camera backend variant.
///
/// A handler is an owned, exclusive resource standing for one physical
/// or virtual transport. `init` is called exactly once, before any other
/// method, and must not attempt any I/O. `connect` establishes a
/// connection to a backend-specific source, `get_frame` fetches one
/// frame payload and may block while waiting for data, and `disconnect`
/// releases the transport but leaves the handler reusable for a future
/// `connect`. Ownership is transferred, never shared: no two owners
/// access a handler concurrently.
pub trait CameraHandler: Send + Sync {
    fn init() -> Self where Self: Sized;

    fn get_frame(&mut self) -> Result<Vec<u8>, CameraState>;

    fn connect(&mut self, source: String) -> Result<(), CameraState>;

    fn disconnect(&mut self);
}

} // verus!
